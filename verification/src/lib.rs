//! Device registry and selection engine for sharing USB devices over the
//! network with the `usbip` tool set.
//!
//! The engine turns the listings that `usbip` prints into a registry (a
//! mapping from vendor/product identifier to the set of handles of the
//! devices that carry it), resolves a filter of identifiers into the handles
//! to act on, and judges the diagnostics that `usbip` writes when it binds,
//! unbinds, attaches or detaches a device. It runs no process itself: its
//! caller runs `usbip` and hands the text over.
//!
//! - `ident`: the identifier types.
//! - `pattern`, `parser`, `listing`: from the text of a listing to a
//!   registry.
//! - `registry`: the registry itself.
//! - `select`: from a registry and a filter to handles.
//! - `action`, `batch`: the verdict on one action, and a batch of actions.
//! - `error`: what the user is told when a command fails.
//! - `text`: searching text and writing numbers.

pub mod action;
pub mod batch;
pub mod error;
pub mod ident;
pub mod listing;
pub mod parser;
pub mod pattern;
pub mod registry;
pub mod select;
pub mod text;
