//! Conversion between linear cell indices and row/column positions in a
//! grid of a given width.

pub mod pos;
