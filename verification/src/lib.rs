//! Renders the log lines of a database server for a terminal.
//!
//! A line is read as a structured (JSON) record or as free text, taken
//! apart into its fields, and laid out as a header and a body: a statement
//! found in the message is formatted and coloured token by token, any other
//! message is shown line by line with a few keywords set off. Everything up
//! to the layout is a function of the line; only the last step, writing
//! colour sequences, asks the terminal.

pub mod error;
pub mod freetext;
pub mod highlight;
pub mod keyword_laws;
pub mod keywords;
pub mod layout;
pub mod lines;
pub mod paint;
pub mod pattern;
pub mod record;
pub mod render;
pub mod renderer;
pub mod severity;
pub mod statement;
pub mod structured;
pub mod style;
pub mod text;
pub mod visible;
