//! Re-delimits separator-separated text: each structural field separator is
//! replaced by another character, while separators inside quoted fields are
//! left as they are.
pub mod files;
pub mod redelimit;
