//! Property type trees of Unreal Engine usmap mapping files: reading them from
//! their byte encoding and writing them back, with both directions proved
//! against one grammar.

pub mod byte_io;
pub mod error;
pub mod unversioned;
