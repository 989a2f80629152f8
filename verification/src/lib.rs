//! A terminal dashboard renderer with a verified core.
//!
//! The renderer owns a rectangular region of a text terminal, keeps a model of
//! what the region shows, and works out, frame by frame, the smallest batch of
//! terminal commands that brings the screen up to date.

pub mod task_graph;
pub mod terminal;
