//! Core logic of a terminal client for Bluesky: key bindings and their text
//! form, feed merging and filtering, pinned-feed assembly, and the state
//! machines behind the views, modals and columns of the interface.

pub mod text;
pub mod keys;
pub mod actions;
pub mod config;
pub mod feed;
pub mod pinned;
pub mod login_form;
pub mod embed;
pub mod embed_images;
pub mod atproto;
pub mod at_uri;
pub mod embed_record;
pub mod new_post;
pub mod spans;
pub mod profile;
pub mod post;
pub mod post_view;
pub mod wrap;
pub mod post_rows;
pub mod feed_view;
pub mod root;
pub mod menu;
pub mod column;
pub mod app_state;
pub mod panels;
pub mod config_file;
