//! Unversioned property support: the usmap reader and writer and the
//! property types they carry.

pub mod properties;
pub mod usmap_reader;
pub mod usmap_writer;
