//! Owned application state rendered into a tree of display nodes, through
//! typed view nodes and erased view nodes that share one two-phase
//! (layout, then paint) protocol.
pub mod cell;
pub mod view;
