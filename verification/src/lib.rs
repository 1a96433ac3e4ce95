//! Decoders for the character profiles that a game-information site publishes
//! as markup, and a builder for searches in that site's character directory.
//!
//! The library works on the text of pages; fetching them is left to the
//! caller.
//!
//! - [`text`]: operations on texts, character by character.
//! - [`markup`]: the tree of a page and the queries on it.
//! - [`fields`]: from the text of a node to the value it stands for.
//! - [`model`]: profiles and what they are made of.
//! - [`search`]: the criteria of a search, its address, and its results.

pub mod fields;
pub mod markup;
pub mod model;
pub mod search;
pub mod text;
