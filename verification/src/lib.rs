//! Core of a chat-group assistant bot: update classification and command
//! routing, a two-level translation cache, offset acknowledgement for the
//! long-poll loop, and the daily notification scheduler.

pub mod bot_config;
pub mod callback_queries;
pub mod command_utils;
pub mod commands;
pub mod db_objects;
pub mod decimal;
pub mod events;
pub mod json;
pub mod language_cache;
pub mod message_handler;
pub mod messaging;
pub mod msg_request;
pub mod msg_type_utils;
pub mod spam;
pub mod template;
pub mod text;
pub mod tg_bot;
pub mod tg_objects;
pub mod tg_utils;
pub mod translation_value;
pub mod validations;
