//! A cell that owns one value and lends out references to it.

mod multimut;

pub use multimut::{MultiMut, MultiRef};
