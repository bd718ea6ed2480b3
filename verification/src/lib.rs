//! An intercepting HTTP/HTTPS proxy cache: rule evaluation, cache bookkeeping,
//! request normalisation and the per-request pipeline, with proved contracts.

pub mod cache;
pub mod certs;
pub mod config;
pub mod digest;
pub mod dns;
pub mod downloader;
pub mod headers;
pub mod management;
pub mod model;
pub mod proxy;
pub mod rules;
pub mod store;
pub mod text;
