//! The configuration values the bot runs with.

use vstd::prelude::*;

verus! {

/// Values read from the configuration file at startup.
#[derive(Debug, Clone)]
pub struct BotConfig {
    pub tg_token: String,
    pub db_path: String,
    pub ip_address: String,
}

} // verus!
