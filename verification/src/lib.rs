//! Parsers for HTTP Live Streaming playlists.
//!
//! A playlist is a line- and tag-oriented text. This crate turns such a text
//! into typed structures: [`media_playlist::parse`] reads a Media Playlist,
//! [`multi_variant::parse`] a Multi-Variant Playlist.

pub mod decimal;
pub mod error;
pub mod keywords;
pub mod lexer;
pub mod media_playlist;
pub mod multi_variant;
pub mod number;
pub mod scan;
pub mod text;
pub mod token;
