//! Building blocks of a command-line client for the pastery.net pastebin:
//! duration and language handling, request assembly and reply interpretation.

pub mod text;
pub mod duration;
pub mod language;
pub mod response;
pub mod request;
