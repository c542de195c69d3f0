//! Cookie editing library: the data model, rules and text handling of a
//! browser cookie editor, with their contracts.

use vstd::prelude::*;

pub mod text;
pub mod known_cookies;
pub mod types;
pub mod storage;
pub mod rules;
pub mod ordering;
pub mod listing;
pub mod export;
pub mod cookie_ops;
pub mod background;
pub mod theme;
pub mod popup;
pub mod laws;
pub mod known_cookie_laws;
pub mod options;
