//! A persistent, file-keyed naming table: for each source file, the symbols it
//! declares, its checker mode and its declaration fingerprint, in a form that an
//! embedded database can store and give back unchanged.

pub mod aast_defs;
pub mod lazy;
pub mod path_codec;
pub mod name_list;
pub mod file_info;
pub mod store;
