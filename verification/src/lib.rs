//! Core logic of a localized chat bot: translation-key parsing, translation
//! trees with nested lookup, template substitution, layered language
//! settings, the interactive settings-menu state machine with its shared
//! selection map, and the decision rules of the quotebook and purge commands.

pub mod expect_log;
pub mod language;
pub mod messaging;
pub mod quotebook;
pub mod session;
pub mod settings;
pub mod template;
pub mod text;
pub mod translation_key;
pub mod translations;
