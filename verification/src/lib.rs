//! From feeds to an e-book, and the message that carries it.
//!
//! A run reads the configured feeds one after the other, makes one chapter
//! of each item that has a title, collects the chapters in a book, writes the
//! book into an e-book file and has that file sent by email. The library
//! decides and computes; fetching, writing the file and sending are left to
//! the caller, which carries out the actions that a [`pipeline::Run`] hands
//! out and reports what happened.

pub mod article;
pub mod book;
pub mod config;
pub mod container;
pub mod error;
pub mod feed;
pub mod mail;
pub mod pipeline;
pub mod resolver;
pub mod sanitize;
pub mod text;
pub mod title;
