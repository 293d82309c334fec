//! A small linear-regression toolkit: a fixed-dimension dense matrix/vector
//! layer plus housing-record feature extraction.
//!
//! Matrix dimensions are const-generic parameters, so the shape of every
//! operand is part of its type. Scalar entries are carried as opaque 64-bit
//! codes (the IEEE 754 binary64 encoding of the numeric entry); every
//! operation here moves or places entries without reading them as numbers,
//! and is verified to place each entry exactly where it belongs. The
//! floating-point arithmetic on the encoded entries lives in the application
//! shell around this library.

pub mod housing;
pub mod mat;
