//! Loading of the byte stream from its textual encoding.

pub mod bytearray;
