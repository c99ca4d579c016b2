//! Typed resolution of document property values and extraction of the
//! structured attributes of UI elements.
pub mod text;
pub mod kind;
pub mod ast;
pub mod value;
pub mod error;
pub mod context;
pub mod literal;
pub mod resolve;
pub mod resolve_lemmas;
pub mod color;
pub mod element;
pub mod element_lemmas;
pub mod components;
