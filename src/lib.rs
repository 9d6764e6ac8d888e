//! Line-granular, interactive synchronisation of text files.
//!
//! A line diff between an original text and another one is walked segment by
//! segment; every inserted or deleted line is accepted or rejected, and the
//! accepted lines form the merged text.
pub mod segment;
pub mod keys;
pub mod session;
pub mod manifest;
