//! Decoding of the headers at the start of a BMP image: the two-byte magic
//! signature, the fixed file header and the self-describing DIB header.
//! Every read is bounds-checked and every failure is a typed error.
pub mod bmp;
pub mod source;

pub use bmp::{BMPDIBHeader, BMPFile, BMPFileHeader, BmpError};
pub use source::ByteSource;
