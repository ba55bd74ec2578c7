//! Core of a multi-tenant file-storage service: path safety, per-path
//! mutual exclusion, and the coordination logic shared by every
//! file-system operation.
//!
//! The library owns the decisions: resolving an untrusted relative path
//! to a canonical one, classifying what exists there, serializing
//! operations that target the same entity, and translating outcomes
//! into a small error taxonomy. The surrounding process performs the
//! actual file-system calls and feeds their results back in as events.

pub mod outcome;
pub mod paths;
pub mod lock_manager;
pub mod coordinator;
pub mod upload;
pub mod archive;
pub mod services;
pub mod requests;
pub mod dir_tree;
pub mod privileges;
pub mod login;
pub mod fs_model;
pub mod config;
