//! Assembles a text corpus from the files of a directory tree: which paths
//! count as text, how a word-processor container gives up its text, and how
//! the blocks of a corpus are gathered and counted.

pub mod archive;
pub mod classify;
pub mod corpus;
pub mod docx;
pub mod response;
pub mod strings;
pub mod text;
pub mod xml;
