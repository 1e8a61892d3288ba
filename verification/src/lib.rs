//! Configuration-compilation layer for a key-value store built on two
//! log-structured-merge storage engines: a main engine holding user data in
//! several column families, and a second engine holding the consensus log.
//!
//! The crate turns a hierarchical plain-text configuration document with
//! human-readable size and duration units into a validated configuration tree,
//! and compiles that tree into engine-ready option objects.

pub mod ascii;

pub mod bytestr;

pub mod cf;

pub mod codec;

pub mod db;

pub mod doc;

pub mod engine;

pub mod errors;

pub mod memory;

pub mod num;

pub mod paths;

pub mod satellites;

pub mod tree;

pub mod units;
