//! An interactive explorer for a lazily evaluated, hierarchical
//! configuration tree.
//!
//! The crate holds the browse-session core: dotted paths, the path-value
//! cache with its cursor-preserving merge, the text-input buffers, the
//! closest-match search and tab-completion algorithms, the reevaluation
//! policy, and the message-driven session state machine.  Terminal
//! rendering, raw key polling and the evaluator subprocess live outside,
//! and reach the core only through plain messages.

pub mod cache;
pub mod data;
pub mod input;
pub mod key_handler;
pub mod model;
pub mod path;
pub mod search;
pub mod stack;
pub mod text;
pub mod transition;
pub mod update;
