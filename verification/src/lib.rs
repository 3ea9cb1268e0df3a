//! QuickList for Spotify: the verified core of a small playlist builder.
//!
//! The library holds the state of the client (the playlist being built, the
//! search results, the authorisation data), the decisions of the backend that
//! brokers Spotify tokens, the text that the interface shows, and a
//! declarative description of the interface itself.
pub mod backend;
pub mod client;
pub mod elements;
pub mod login_window;
pub mod model;
pub mod playlist;
pub mod router;
pub mod search;
pub mod spotify;
pub mod text;
pub mod view;
