//! The byte layout of the document in which a three-dimensional vector is
//! stored: a JSON object with the members `x`, `y` and `z`, one per line.
//!
//! The vector's components are double-precision numbers, and turning one into
//! its JSON text is the JSON encoder's work. This library begins where that
//! ends: it takes the three texts and lays the document out around them.

pub mod document;
