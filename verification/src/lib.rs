//! A forgiving parser for style sheets: text in, rules out, never an error.

pub mod color;
pub mod css;
pub mod css_parse;
pub mod grammar;
pub mod length;
pub mod scope;
pub mod text;
pub mod written;
