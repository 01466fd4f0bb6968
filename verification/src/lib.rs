//! Classification of PEM-armoured keys and access to their key material.
//!
//! A PEM block is read in three steps: the armour is taken off, the payload
//! is decoded as DER, and tag and document together decide what kind of key
//! the block holds and in which container format. The accessors of
//! [`PemEncodedKey`] then hand out the key material.

pub mod asn1;
pub mod block;
pub mod der;
pub mod error;
pub mod key;
pub mod kinds;
pub mod laws;
pub mod trusted;

pub use asn1::{Asn1Node, EC_PUBLIC_KEY_OID, ED25519_OID, RSA_PUBLIC_KEY_OID};
pub use block::PemBlock;
pub use der::decode_der;
pub use error::KeyError;
pub use key::PemEncodedKey;
pub use kinds::{Classification, PemType, Standard};
