//! What this library takes on trust from the crates it calls: `pem`,
//! `simple_asn1` and `rsa`. Nothing in this file is proved. Each item names
//! the function it stands for and says what is claimed of it.

use vstd::prelude::*;
use crate::asn1::{Asn1Node, Asn1Tree};
use crate::block::PemBlock;

verus! {

/// `pem::PemError`, the reason why `pem::parse` failed.
#[verifier::external_type_specification]
#[verifier::external_body]
pub struct ExPemError(pem::PemError);

/// `simple_asn1::ASN1Block`, a node of a document as `simple_asn1` decodes it.
#[verifier::external_type_specification]
#[verifier::external_body]
pub struct ExAsn1Block(simple_asn1::ASN1Block);

/// `simple_asn1::ASN1DecodeErr`, the reason why `simple_asn1::from_der` failed.
#[verifier::external_type_specification]
#[verifier::external_body]
pub struct ExAsn1DecodeErr(simple_asn1::ASN1DecodeErr);

/// `rsa::RsaPublicKey`, an RSA public key.
#[verifier::external_type_specification]
#[verifier::external_body]
pub struct ExRsaPublicKey(rsa::RsaPublicKey);

/// `rsa::Error`, the reason why `rsa::RsaPublicKey::new` refused its
/// arguments.
#[verifier::external_type_specification]
#[verifier::external_body]
pub struct ExRsaError(rsa::Error);

/// `rsa::pkcs1::Error`, the reason why a PKCS#1 document was refused.
#[verifier::external_type_specification]
#[verifier::external_body]
pub struct ExPkcs1Error(rsa::pkcs1::Error);

/// `rsa::pkcs8::spki::Error`, the reason why a SubjectPublicKeyInfo document
/// was refused or could not be written.
#[verifier::external_type_specification]
#[verifier::external_body]
pub struct ExSpkiError(rsa::pkcs8::spki::Error);

/// What `pem::parse` makes of an input: the tag and the decoded bytes of the
/// first PEM block in it, or nothing where it reports an error.
pub uninterp spec fn pem_parsing(input: Seq<u8>) -> Option<(Seq<char>, Seq<u8>)>;

/// `pem::parse`. Claimed: the outcome is a function of the input bytes alone.
/// The tag and the contents of the block it returns are kept as they are; its
/// header lines are not kept.
#[verifier::external_body]
pub(crate) fn parse_pem(input: &[u8]) -> (parsed: Result<PemBlock, pem::PemError>)
    ensures
        match parsed {
            Ok(block) => pem_parsing(input@) == Some(block@),
            Err(_) => pem_parsing(input@) is None,
        },
{
    pem::parse(input).map(
        |armoured| PemBlock { tag: armoured.tag().to_string(), contents: armoured.into_contents() },
    )
}

/// The text that `pem::encode` writes for a block without header lines.
pub uninterp spec fn pem_encoding(tag: Seq<char>, contents: Seq<u8>) -> Seq<char>;

/// `pem::encode`, on a `pem::Pem` made by `pem::Pem::new` from the tag and the
/// contents. Claimed: the text is a function of these two alone.
#[verifier::external_body]
pub(crate) fn encode_pem(block: &PemBlock) -> (text: String)
    ensures
        text@ == pem_encoding(block.tag@, block.contents@),
{
    pem::encode(&pem::Pem::new(block.tag.as_str(), block.contents.as_slice()))
}

/// What a block of `simple_asn1` holds, as far as this library reads it: the
/// model of the node that [`node_of_block`] makes of it.
pub uninterp spec fn block_tree(block: simple_asn1::ASN1Block) -> Asn1Tree;

/// The document that `simple_asn1::from_der` decodes from a buffer, each of
/// its top-level blocks as far as this library reads it, or nothing where
/// `from_der` reports an error.
pub uninterp spec fn der_decoding(bytes: Seq<u8>) -> Option<Seq<Asn1Tree>>;

/// `simple_asn1::from_der`. Claimed: the outcome is a function of the bytes
/// alone. The decoder descends once for each level of nesting in the input.
pub assume_specification[ simple_asn1::from_der ](i: &[u8]) -> (decoded: Result<
    Vec<simple_asn1::ASN1Block>,
    simple_asn1::ASN1DecodeErr,
>)
    ensures
        match decoded {
            Ok(blocks) => der_decoding(i@) == Some(
                blocks@.map_values(|block: simple_asn1::ASN1Block| block_tree(block)),
            ),
            Err(_) => der_decoding(i@) is None,
        },
;

/// Reads a `simple_asn1::ASN1Block` into a node of this library: a sequence
/// with its items, an object identifier with its arcs as
/// `simple_asn1::OID::as_vec` gives them, a bit string or an octet string
/// with its bytes. Every other kind of block, and an object identifier of
/// which `as_vec` reports that an arc does not fit in 64 bits, becomes
/// `Other`. Claimed: the node is a function of the block alone.
#[verifier::external_body]
pub(crate) fn node_of_block(block: &simple_asn1::ASN1Block) -> (node: Asn1Node)
    ensures
        node@ == block_tree(*block),
{
    match block {
        simple_asn1::ASN1Block::Sequence(_, items) => {
            Asn1Node::Sequence(items.iter().map(node_of_block).collect())
        },
        simple_asn1::ASN1Block::ObjectIdentifier(_, oid) => match oid.as_vec::<u64>() {
            Ok(arcs) => Asn1Node::ObjectIdentifier(arcs),
            Err(_) => Asn1Node::Other,
        },
        simple_asn1::ASN1Block::BitString(_, _, bytes) => Asn1Node::BitString(bytes.clone()),
        simple_asn1::ASN1Block::OctetString(_, bytes) => Asn1Node::OctetString(bytes.clone()),
        _ => Asn1Node::Other,
    }
}

/// The key that `rsa::RsaPublicKey::new` makes of a modulus and an exponent,
/// each given as big-endian bytes, or nothing where it refuses them.
pub uninterp spec fn rsa_key_of_components(n: Seq<u8>, e: Seq<u8>) -> Option<rsa::RsaPublicKey>;

/// `rsa::RsaPublicKey::new`, on the numbers that `rsa::BigUint::from_bytes_be`
/// reads from the two byte strings. Claimed: the outcome is a function of the
/// bytes alone.
#[verifier::external_body]
pub(crate) fn rsa_key_from_components(n: &[u8], e: &[u8]) -> (made: Result<
    rsa::RsaPublicKey,
    rsa::Error,
>)
    ensures
        match made {
            Ok(key) => rsa_key_of_components(n@, e@) == Some(key),
            Err(_) => rsa_key_of_components(n@, e@) is None,
        },
{
    rsa::RsaPublicKey::new(rsa::BigUint::from_bytes_be(n), rsa::BigUint::from_bytes_be(e))
}

/// The PEM text, with `\n` line endings, that
/// `rsa::pkcs8::EncodePublicKey::to_public_key_pem` writes for a key, or
/// nothing where it reports an error.
pub uninterp spec fn rsa_key_pem(key: rsa::RsaPublicKey) -> Option<Seq<char>>;

/// `rsa::pkcs8::EncodePublicKey::to_public_key_pem` with
/// `rsa::pkcs8::LineEnding::LF`. Claimed: the outcome is a function of the key
/// alone.
#[verifier::external_body]
pub(crate) fn rsa_key_to_pem(key: &rsa::RsaPublicKey) -> (written: Result<
    String,
    rsa::pkcs8::spki::Error,
>)
    ensures
        match written {
            Ok(text) => rsa_key_pem(*key) == Some(text@),
            Err(_) => rsa_key_pem(*key) is None,
        },
{
    rsa::pkcs8::EncodePublicKey::to_public_key_pem(key, rsa::pkcs8::LineEnding::LF)
}

/// The key that `rsa::pkcs1::DecodeRsaPublicKey::from_pkcs1_pem` reads from a
/// PEM text, or nothing where it reports an error.
pub uninterp spec fn pkcs1_pem_key(text: Seq<char>) -> Option<rsa::RsaPublicKey>;

/// `rsa::pkcs1::DecodeRsaPublicKey::from_pkcs1_pem` for `rsa::RsaPublicKey`.
/// Claimed: the outcome is a function of the text alone.
#[verifier::external_body]
pub(crate) fn rsa_key_from_pkcs1_pem(text: &str) -> (read: Result<
    rsa::RsaPublicKey,
    rsa::pkcs1::Error,
>)
    ensures
        match read {
            Ok(key) => pkcs1_pem_key(text@) == Some(key),
            Err(_) => pkcs1_pem_key(text@) is None,
        },
{
    rsa::pkcs1::DecodeRsaPublicKey::from_pkcs1_pem(text)
}

/// The key that `rsa::pkcs8::DecodePublicKey::from_public_key_pem` reads from
/// a PEM text, or nothing where it reports an error.
pub uninterp spec fn spki_pem_key(text: Seq<char>) -> Option<rsa::RsaPublicKey>;

/// `rsa::pkcs8::DecodePublicKey::from_public_key_pem` for
/// `rsa::RsaPublicKey`. Claimed: the outcome is a function of the text alone.
#[verifier::external_body]
pub(crate) fn rsa_key_from_public_key_pem(text: &str) -> (read: Result<
    rsa::RsaPublicKey,
    rsa::pkcs8::spki::Error,
>)
    ensures
        match read {
            Ok(key) => spki_pem_key(text@) == Some(key),
            Err(_) => spki_pem_key(text@) is None,
        },
{
    rsa::pkcs8::DecodePublicKey::from_public_key_pem(text)
}

} // verus!
