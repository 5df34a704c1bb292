//! Verified core of the camera FTP companion.
#![allow(unused_imports)]

pub mod text;
pub mod codec;
pub mod paths;
pub mod image_utils;
pub mod jpeg;
pub mod image_preview;
pub mod mediastore;
pub mod mediastore_paths;
pub mod mediastore_listing;
pub mod mediastore_lookup;
pub mod error;
pub mod file_index;
pub mod config;
pub mod net;
pub mod ftp_types;
pub mod ftp_events;
pub mod ai_edit;
pub mod color_grading;
pub mod exif_info;
pub mod ftp_server;
pub mod ftp_sessions;
pub mod auto_open;
pub mod tls_policy;
pub mod lut_cube;
pub mod uri;
pub mod retry_policy;
