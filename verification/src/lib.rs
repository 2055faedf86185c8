//! Core of a small multi-tenant image-gallery server.
//!
//! Each workspace is a tenant: a named directory tree holding image
//! manifests and a tag catalog. This library holds the parts with real
//! invariants: the in-memory relational store scoped by workspace id,
//! the startup import pipeline that fills it, the credential issuer and
//! auth gate that bind every request to exactly one workspace, and the
//! paginated, workspace-scoped read queries.
//!
//! Process wiring (HTTP routing, filesystem walks, JSON decoding) lives
//! outside the library and hands plain values in and out.

pub mod args;
pub mod auth;
pub mod config;
pub mod credential;
pub mod image_db;
pub mod image_file;
pub mod import;
pub mod query;
pub mod schema;
pub mod store;
pub mod tag;
pub mod tags;
pub mod workspace_info;
