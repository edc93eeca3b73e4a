//! Command encoding and status decoding for receipt printers that speak one
//! of several ESC/POS dialects.
pub mod barcode;
pub mod img;
pub mod printer;
pub mod status;
pub mod tokens;
