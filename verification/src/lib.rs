//! The decision logic of the desktop shell's local HTTP bridge: request
//! routing, query parsing, the OAuth token slot, reply composition, window
//! URLs and MIME lookup. The HTTP server, the file system, the window system
//! and the updater are driven by the program around this library.

pub mod text;
pub mod urlcodec;
pub mod query;
pub mod mime;
pub mod json;
pub mod reply;
pub mod body;
pub mod oauth;
pub mod window;
pub mod bridge;
pub mod files;
pub mod clock;

