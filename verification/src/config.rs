//! The settings of the site, read from its configuration file.
use vstd::prelude::*;

verus! {

/// A board to offer by default: its name and subject.
#[derive(Debug, Clone, PartialEq, Eq)]
pub struct BoardDescriptor {
    pub name: String,
    pub subject: String,
}

/// The settings of the site.
#[derive(Debug, Clone, PartialEq, Eq)]
pub struct Config {
    pub title: String,
    pub banner: String,
    pub icon: String,
    pub database: String,
    pub default_boards: Vec<BoardDescriptor>,
    /// The directory that holds the uploaded images.
    pub images: String,
    pub admin_token: String,
}

} // verus!
