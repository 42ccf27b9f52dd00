//! Core logic of a small utility that creates a dated project folder (with a
//! fixed set of subfolders and template files) inside a base directory, where
//! the base directory is located by scanning a start directory's immediate
//! children for a name that matches a user-supplied string.
//!
//! Folder names and paths are handled as byte strings throughout: the
//! operating system's directory names are not guaranteed to be valid UTF-8,
//! and bytes give the contracts a single, simple model. The shell around this
//! library converts OS strings at the boundary, performs the filesystem work
//! that the [`workflow`] state machine hands out, and runs the background
//! scan that reports through a [`scan::ScanCell`].

pub mod builder;
pub mod date;
pub mod matcher;
pub mod paths;
pub mod scan;
pub mod text;
pub mod workflow;
