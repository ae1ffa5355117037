//! Decision logic of a command-line scrolling strategist.
//!
//! The crate holds everything the tool decides without touching a terminal,
//! a file or a floating-point number: how a typed line is read, how the
//! question-and-answer dialogue that collects an item, its scrolls and a goal
//! moves from one prompt to the next, whether the collected vectors agree in
//! dimension, and how a solved decision tree is walked as the user reports
//! what happened to each scroll.

pub mod answer;
pub mod dialogue;
pub mod graph;
pub mod json;
pub mod line;
pub mod number;
pub mod opts;
pub mod replay;
pub mod stats;
pub mod text;
