//! The ways in which reading a key can fail.

use vstd::prelude::*;

verus! {

/// Why a key could not be read, classified or handed out.
#[derive(Debug, Clone, Copy, PartialEq, Eq, Structural)]
pub enum KeyError {
    /// The input is not a well-formed PEM block.
    PemDecode,
    /// The payload of the PEM block is not well-formed DER.
    Asn1Decode,
    /// The tag is not a known one, a generic tag stands over a document that
    /// names no known algorithm, or an accessor was asked for a kind of key
    /// that this key is not.
    InvalidKeyFormat,
    /// The key is an elliptic-curve or Ed25519 public key, but its document
    /// holds no bit string and no octet string.
    InvalidEcdsaKey,
    /// Modulus and exponent do not make an RSA public key.
    InvalidRsaKey,
    /// The PEM text is not a PKCS#1 RSA public key.
    Pkcs1,
    /// The PEM text is not a PKCS#8 (SubjectPublicKeyInfo) RSA public key, or
    /// the key could not be written as one.
    Pkcs8,
}

} // verus!
