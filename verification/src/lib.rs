//! Classes of input on which the SQL-injection and XSS detectors are known to
//! disagree with the reference C library, and the matching that decides
//! whether an input belongs to one of them.

pub mod ascii;
pub mod divergence;
pub mod laws;
