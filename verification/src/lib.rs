//! Groth16 zero-knowledge proof verification over the BN254 pairing-friendly
//! elliptic curve.
//!
//! The crate decodes raw byte encodings of curve points and scalars, rebuilds
//! the public-input linear combination, and evaluates the Groth16 pairing
//! equation against an immutable verifying key.  All byte buffers that cross
//! the crate boundary use one fixed convention: every 32-byte field-element
//! window is big-endian, with the most significant byte first.
//!
//! The elliptic-curve and pairing arithmetic itself is performed by the
//! arkworks crates behind a small set of trusted wrappers in [`curve`]; the
//! decoding, layout, accumulation and equation structure around those calls
//! is verified.

pub mod byteorder;
pub mod codec;
pub mod curve;
pub mod groth16;
pub mod vkey;
