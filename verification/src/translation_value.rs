//! A translation entry: a single text, or a list of texts one of which is
//! picked at random.

use vstd::prelude::*;

verus! {

/// A value resolved from a translation table.
#[derive(Debug, Clone)]
pub enum TranslationValue {
    Text(String),
    Array(Vec<String>),
}

/// The mathematical content of a translation value: one text, or a list of
/// texts.
pub enum TranslationValueView {
    Text(Seq<char>),
    Array(Seq<Seq<char>>),
}

impl View for TranslationValue {
    type V = TranslationValueView;

    open spec fn view(&self) -> TranslationValueView {
        match self {
            TranslationValue::Text(t) => TranslationValueView::Text(t@),
            TranslationValue::Array(items) => TranslationValueView::Array(
                items@.map_values(|s: String| s@),
            ),
        }
    }
}

/// The error a caller gets when a translation value has the other variant
/// than the one it asked for.
#[derive(Debug, Clone, Copy, PartialEq, Eq, Structural)]
pub enum TranslationValueError {
    ExpectedText,
    ExpectedArray,
}

impl TranslationValueError {
    /// A human-readable description of the mismatch.
    pub fn message(&self) -> (r: &'static str)
        ensures
            *self == TranslationValueError::ExpectedText ==> r@
                == "Expected a text translation but found an array."@,
            *self == TranslationValueError::ExpectedArray ==> r@
                == "Expected an array translation but found text."@,
    {
        match self {
            TranslationValueError::ExpectedText => "Expected a text translation but found an array.",
            TranslationValueError::ExpectedArray => "Expected an array translation but found text.",
        }
    }
}

impl TranslationValue {
    /// Demands the single-text variant; a list is an error, not a panic.
    pub fn expect_text(self) -> (r: Result<String, TranslationValueError>)
        ensures
            match r {
                Ok(t) => self == TranslationValue::Text(t),
                Err(e) => self is Array && e == TranslationValueError::ExpectedText,
            },
    {
        if let TranslationValue::Text(text) = self {
            Ok(text)
        } else {
            Err(TranslationValueError::ExpectedText)
        }
    }

    /// Demands the list variant; a single text is an error, not a panic.
    pub fn expect_array(self) -> (r: Result<Vec<String>, TranslationValueError>)
        ensures
            match r {
                Ok(a) => self == TranslationValue::Array(a),
                Err(e) => self is Text && e == TranslationValueError::ExpectedArray,
            },
    {
        if let TranslationValue::Array(array) = self {
            Ok(array)
        } else {
            Err(TranslationValueError::ExpectedArray)
        }
    }

    /// A copy with the same content as `self`.
    pub fn duplicate(&self) -> (r: TranslationValue)
        ensures
            r@ == self@,
    {
        match self {
            TranslationValue::Text(t) => TranslationValue::Text(t.clone()),
            TranslationValue::Array(items) => {
                let mut copy: Vec<String> = Vec::new();
                let mut i: usize = 0;
                while i < items.len()
                    invariant
                        0 <= i <= items@.len(),
                        copy@ == items@.subrange(0, i as int),
                    decreases items@.len() - i,
                {
                    copy.push(items[i].clone());
                    proof {
                        assert(items@.subrange(0, i as int).push(items@[i as int]) =~= items@
                            .subrange(0, i as int + 1));
                    }
                    i += 1;
                }
                proof {
                    assert(copy@ =~= items@);
                    assert(copy@.map_values(|s: String| s@) =~= items@.map_values(
                        |s: String| s@,
                    ));
                }
                TranslationValue::Array(copy)
            },
        }
    }
}

} // verus!
