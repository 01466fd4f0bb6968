//! The kinds of key and of container that a PEM block can hold.

use vstd::prelude::*;

verus! {

/// What a PEM block holds: the algorithm family, and whether the key is the
/// private or the public half.
#[derive(Debug, Clone, Copy, PartialEq, Eq, Structural)]
pub enum PemType {
    EcPublic,
    EcPrivate,
    RsaPublic,
    RsaPrivate,
    EdPublic,
    EdPrivate,
}

/// The container format of a key.
#[derive(Debug, Clone, Copy, PartialEq, Eq, Structural)]
pub enum Standard {
    Pkcs1,
    Pkcs8,
}

/// The algorithm family that an object identifier names.
#[derive(Debug, Clone, Copy, PartialEq, Eq, Structural)]
pub enum Classification {
    Ec,
    Ed,
    Rsa,
}

/// The kind of key of a family, private or public.
pub open spec fn pem_type_of(classification: Classification, is_private: bool) -> PemType {
    match (classification, is_private) {
        (Classification::Ec, true) => PemType::EcPrivate,
        (Classification::Ec, false) => PemType::EcPublic,
        (Classification::Ed, true) => PemType::EdPrivate,
        (Classification::Ed, false) => PemType::EdPublic,
        (Classification::Rsa, true) => PemType::RsaPrivate,
        (Classification::Rsa, false) => PemType::RsaPublic,
    }
}

} // verus!
