//! Adapters that search archives by means of outside programs: 7z archives with `7z`, RAR archives with
//! `unrar` or `7z`.
//!
//! The programs are run, files opened and directories made by whoever uses the library. What is to be
//! run, how the results are read and what is handed out to be searched is decided here: see
//! [`session`] for one step of a search, [`steps`] for what holds of each and [`course`] for searches as
//! a whole.
pub mod archive;
pub mod course;
pub mod error;
pub mod info;
pub mod listing;
pub mod meta;
pub mod rar;
pub mod session;
pub mod sevenz;
pub mod steps;
pub mod text;
pub mod tool;
