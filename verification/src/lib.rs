//! Session engines for a two-mode practice game: a multiple-choice quiz and a
//! typing-speed trainer. Each engine is a small deterministic state machine
//! that tracks progress, correctness, and timing; the presentation layer
//! feeds it discrete events and reads derived metrics after each event.

pub mod types;
pub mod text;
pub mod clock;
pub mod data_loader;
pub mod quiz;
pub mod typing;
pub mod typing_texts;
pub mod config;
