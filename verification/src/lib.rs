//! A file-backed blog: markdown files in a working copy, optionally mirrored
//! from a remote git repository, are discovered, dated and ordered.
//!
//! This crate holds the decisions of that pipeline as verified functions on
//! plain values. Whatever touches the disk, a subprocess or the network is
//! left to the caller, which performs the step a function asks for and hands
//! back what it observed.

pub mod catalog;
pub mod command;
pub mod config;
pub mod encoding;
pub mod filename;
pub mod history;
pub mod pages;
pub mod process;
pub mod resolver;
pub mod startup;
pub mod sync;
pub mod timestamp;
