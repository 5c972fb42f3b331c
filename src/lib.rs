//! A resumable file-transfer engine and the logic around it.
//!
//! `downloader` decides, step by step, how a remote object is brought to a
//! local file: whether a partial copy can be resumed, how each answer of the
//! server is handled, and what is written where. The caller performs the
//! requests and the disk work. `extractor` chooses how an archive is unpacked,
//! and `settings` rewrites key lines of a configuration file.

pub mod decimal;
pub mod downloader;
pub mod extractor;
pub mod headers;
pub mod paths;
pub mod settings;
