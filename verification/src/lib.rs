//! Fetching wallpaper posts from several image sites: routing a post URL to
//! its site adapter, reconciling what the adapter yields into one metadata
//! record, keeping a content-addressed record of what was saved, and deciding
//! where each file goes.

pub mod config;
pub mod downloaders;
pub mod errors;
pub mod extractors;
pub mod link;
pub mod naming;
pub mod pipeline;
pub mod placement;
pub mod store;
pub mod text;
