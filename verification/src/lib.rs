//! Plugin management, versioning and media-player support logic with
//! machine-checked contracts.

pub mod text;
pub mod scan;
pub mod urls;
pub mod clients;
pub mod versioning;
pub mod dependency;
pub mod plugin_error;
pub mod lifecycle;
pub mod screen_types;
pub mod screen_recording;
pub mod screen_sessions;
pub mod stream_types;
pub mod live_streaming;
pub mod broadcasting;
pub mod viewers;
pub mod chat;
pub mod chat_service;
pub mod live_services;
pub mod plugin;
pub mod compat;
pub mod manifest;
pub mod sdk_types;
pub mod ffi;
pub mod api;
pub mod clock;
pub mod debugging;
pub mod signing;
pub mod performance;
pub mod zero_trust;
pub mod spotify;
pub mod youtube;
pub mod podcast;
pub mod rss;
pub mod podcast_feeds;
pub mod cloud_storage;
pub mod media_catalogs;
pub mod ipc;
pub mod integrations;
pub mod autoupdate;
pub mod plugin_marketplace;
pub mod analytics;
pub mod wasm_plugins;
pub mod media;
pub mod webhooks;
pub mod monitoring;
pub mod metrics;
pub mod store_catalog;
pub mod market;
