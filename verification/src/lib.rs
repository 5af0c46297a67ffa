//! Deep-link ingestion bridge.
//!
//! A native host delivers an opaque payload whenever the operating system
//! opens the application through its registered custom URL scheme.  This
//! library holds the logic of the bridge that turns such a payload into at
//! most one canonical `deep-link` event: extracting the `url` field from the
//! payload, accepting the URL only when it starts with the registered scheme
//! prefix, and packaging the accepted URL as the single outbound event.

pub mod bridge;
pub mod commands;
pub mod event;
pub mod laws;
pub mod payload;
pub mod scheme;
