//! The logic of a small imageboard: the markup of its pages, the rules of
//! posting and replying, paging, and the records it keeps.
pub mod markup;
pub mod queries;
pub mod config;
pub mod fragments;
pub mod pages;
pub mod api;

pub use pages::{get_utc, RenderError};
