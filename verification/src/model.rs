//! The data that a profile holds, and the closed sets of names that the
//! directory uses.

pub mod attribute;
pub mod clan;
pub mod class;
pub mod datacenter;
pub mod domain;
pub mod error;
pub mod gc;
pub mod gear;
pub mod gender;
pub mod language;
pub mod profile;
pub mod race;
pub mod server;
