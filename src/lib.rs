//! Layout and rendering of small printable documents for a library's records:
//! credential cards and book labels, each with a synthetic barcode.

pub mod page;
pub mod text;
pub mod barcode;
pub mod records;
pub mod layout;
pub mod render;
pub mod sanctions;
pub mod accounts;
