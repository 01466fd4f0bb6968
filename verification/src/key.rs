//! A key read from a PEM block: its classification and its key material.

use vstd::prelude::*;
use crate::asn1::{
    algorithm_among, algorithm_of_oid, classify, classify_tree, clone_nodes, ec_oid_near_top,
    first_payload, holds_oid, payload_of, trees, Asn1Node, Asn1Tree, EC_PUBLIC_KEY_OID,
    ED25519_OID, RSA_PUBLIC_KEY_OID,
};
use crate::block::PemBlock;
use crate::der::decode_der;
use crate::error::KeyError;
use crate::kinds::{pem_type_of, Classification, PemType, Standard};
use crate::trusted::{
    der_decoding, encode_pem, parse_pem, pem_encoding, pem_parsing, pkcs1_pem_key, rsa_key_from_components,
    rsa_key_from_pkcs1_pem, rsa_key_from_public_key_pem, rsa_key_of_components, rsa_key_pem,
    rsa_key_to_pem, spki_pem_key,
};

verus! {

/// A key read from a PEM block.
#[derive(Debug)]
pub struct PemEncodedKey {
    /// The tag and the decoded payload of the block.
    pub content: PemBlock,
    /// The ASN.1 document that the payload decodes to.
    pub asn1: Vec<Asn1Node>,
    /// The kind of key.
    pub pem_type: PemType,
    /// The container format.
    pub standard: Standard,
}

/// A key read from a PEM block as a mathematical value: the model of
/// [`PemEncodedKey`].
pub struct PemKey {
    /// The tag of the block.
    pub tag: Seq<char>,
    /// The decoded payload of the block.
    pub contents: Seq<u8>,
    /// The ASN.1 document.
    pub nodes: Seq<Asn1Tree>,
    /// The kind of key.
    pub pem_type: PemType,
    /// The container format.
    pub standard: Standard,
}

impl View for PemEncodedKey {
    type V = PemKey;

    open spec fn view(&self) -> PemKey {
        PemKey {
            tag: self.content.tag@,
            contents: self.content.contents@,
            nodes: trees(self.asn1@),
            pem_type: self.pem_type,
            standard: self.standard,
        }
    }
}

impl Clone for PemEncodedKey {
    fn clone(&self) -> (copy: Self)
        ensures
            copy@ == self@,
    {
        PemEncodedKey {
            content: self.content.clone(),
            asn1: clone_nodes(self.asn1.as_slice()),
            pem_type: self.pem_type,
            standard: self.standard,
        }
    }
}

/// What a tag and a document are classified as: the kind of key and the
/// container format, or `InvalidKeyFormat`. The first rule that applies
/// decides.
pub open spec fn dispatch(tag: Seq<char>, nodes: Seq<Asn1Tree>) -> Result<
    (PemType, Standard),
    KeyError,
> {
    if tag == "RSA PRIVATE KEY"@ {
        Ok((PemType::RsaPrivate, Standard::Pkcs1))
    } else if tag == "RSA PUBLIC KEY"@ {
        Ok((PemType::RsaPublic, Standard::Pkcs1))
    } else if tag == "EC PRIVATE KEY"@ {
        Ok((PemType::EcPrivate, Standard::Pkcs1))
    } else if tag == "PUBLIC KEY"@ && ec_oid_near_top(nodes) {
        Ok((PemType::EcPublic, Standard::Pkcs8))
    } else if tag == "PRIVATE KEY"@ || tag == "PUBLIC KEY"@ || tag == "CERTIFICATE"@ {
        match classify(nodes) {
            Some(family) => Ok((pem_type_of(family, tag == "PRIVATE KEY"@), Standard::Pkcs8)),
            None => Err(KeyError::InvalidKeyFormat),
        }
    } else {
        Err(KeyError::InvalidKeyFormat)
    }
}

/// The key that a tag, a payload and the document of the payload make.
pub open spec fn dispatched_key(tag: Seq<char>, contents: Seq<u8>, nodes: Seq<Asn1Tree>) -> Result<
    PemKey,
    KeyError,
> {
    match dispatch(tag, nodes) {
        Ok((pem_type, standard)) => Ok(PemKey { tag, contents, nodes, pem_type, standard }),
        Err(error) => Err(error),
    }
}

/// The key that a tag and a payload make: the payload is decoded, then tag and
/// document are classified.
pub open spec fn parsed_key(tag: Seq<char>, contents: Seq<u8>) -> Result<PemKey, KeyError> {
    match der_decoding(contents) {
        Some(nodes) => dispatched_key(tag, contents, nodes),
        None => Err(KeyError::Asn1Decode),
    }
}

/// The key that a PEM text makes.
pub open spec fn decoded_key(input: Seq<u8>) -> Result<PemKey, KeyError> {
    match pem_parsing(input) {
        Some((tag, contents)) => parsed_key(tag, contents),
        None => Err(KeyError::PemDecode),
    }
}

/// The key that an RSA modulus and public exponent make, both big-endian: the
/// public key is written as PEM, and the text is read as any other.
pub open spec fn components_key(n: Seq<u8>, e: Seq<u8>) -> Result<PemKey, KeyError> {
    match rsa_key_of_components(n, e) {
        Some(public_key) => match rsa_key_pem(public_key) {
            Some(text) => decoded_key(vstd::utf8::encode_utf8(text)),
            None => Err(KeyError::Pkcs8),
        },
        None => Err(KeyError::InvalidRsaKey),
    }
}

impl PemKey {
    /// Kind and format are what tag and document are classified as.
    pub open spec fn consistent(self) -> bool {
        dispatch(self.tag, self.nodes) == Ok::<(PemType, Standard), KeyError>(
            (self.pem_type, self.standard),
        )
    }

    /// Whether the key is of the given format and kind.
    pub open spec fn is_of(self, standard: Standard, pem_type: PemType) -> bool {
        self.standard == standard && self.pem_type == pem_type
    }

    /// The private key material of a key in PKCS#8 of the given kind: the whole
    /// payload.
    pub open spec fn private_material(self, pem_type: PemType) -> Result<Seq<u8>, KeyError> {
        if self.is_of(Standard::Pkcs8, pem_type) {
            Ok(self.contents)
        } else {
            Err(KeyError::InvalidKeyFormat)
        }
    }

    /// The public key material of a key in PKCS#8 of the given kind: the first
    /// bit string or octet string of the document.
    pub open spec fn public_material(self, pem_type: PemType) -> Result<Seq<u8>, KeyError> {
        if self.is_of(Standard::Pkcs8, pem_type) {
            match first_payload(self.nodes) {
                Some(bytes) => Ok(bytes),
                None => Err(KeyError::InvalidEcdsaKey),
            }
        } else {
            Err(KeyError::InvalidKeyFormat)
        }
    }

    /// The RSA public key that the block, written as PEM again, is read as
    /// under the key's format.
    pub open spec fn rsa_public_key(self) -> Result<rsa::RsaPublicKey, KeyError> {
        let text = pem_encoding(self.tag, self.contents);
        match self.standard {
            Standard::Pkcs1 => match pkcs1_pem_key(text) {
                Some(public_key) => Ok(public_key),
                None => Err(KeyError::Pkcs1),
            },
            Standard::Pkcs8 => match spki_pem_key(text) {
                Some(public_key) => Ok(public_key),
                None => Err(KeyError::Pkcs8),
            },
        }
    }
}

/// Whether two slices hold the same bytes.
fn same_bytes(left: &[u8], right: &[u8]) -> (same: bool)
    ensures
        same == (left@ == right@),
{
    if left.len() != right.len() {
        return false;
    }
    let mut i: usize = 0;
    while i < left.len()
        invariant
            left.len() == right.len(),
            i <= left.len(),
            forall|j: int| 0 <= j < i ==> left[j] == right[j],
        decreases left.len() - i,
    {
        if left[i] != right[i] {
            return false;
        }
        i += 1;
    }
    assert(left@ =~= right@);
    true
}

/// Whether two strings are the same text.
fn same_text(left: &str, right: &str) -> (same: bool)
    ensures
        same == (left@ == right@),
{
    proof {
        vstd::utf8::encode_utf8_decode_utf8(left@);
        vstd::utf8::encode_utf8_decode_utf8(right@);
    }
    same_bytes(left.as_bytes(), right.as_bytes())
}

/// Whether two lists of arcs are the same object identifier.
fn same_arcs(arcs: &[u64], known: &[u64]) -> (same: bool)
    ensures
        same == (arcs@ == known@),
{
    if arcs.len() != known.len() {
        return false;
    }
    let mut i: usize = 0;
    while i < arcs.len()
        invariant
            arcs.len() == known.len(),
            i <= arcs.len(),
            forall|j: int| 0 <= j < i ==> arcs[j] == known[j],
        decreases arcs.len() - i,
    {
        if arcs[i] != known[i] {
            return false;
        }
        i += 1;
    }
    assert(arcs@ =~= known@);
    true
}

/// Whether one of the nodes themselves is the object identifier `known`.
fn has_oid(nodes: &[Asn1Node], known: &[u64]) -> (found: bool)
    ensures
        found == holds_oid(trees(nodes@), known@),
{
    let mut i: usize = 0;
    while i < nodes.len()
        invariant
            i <= nodes.len(),
            forall|j: int| 0 <= j < i ==> trees(nodes@)[j] != Asn1Tree::ObjectIdentifier(known@),
        decreases nodes.len() - i,
    {
        match &nodes[i] {
            Asn1Node::ObjectIdentifier(arcs) => {
                if same_arcs(arcs.as_slice(), known) {
                    assert(trees(nodes@)[i as int] == Asn1Tree::ObjectIdentifier(known@));
                    return true;
                }
            },
            _ => {},
        }
        i += 1;
    }
    false
}

/// The family named among the nodes themselves.
fn named_among(nodes: &[Asn1Node]) -> (found: Option<Classification>)
    ensures
        found == algorithm_among(trees(nodes@)),
{
    if has_oid(nodes, EC_PUBLIC_KEY_OID.as_slice()) {
        Some(Classification::Ec)
    } else if has_oid(nodes, RSA_PUBLIC_KEY_OID.as_slice()) {
        Some(Classification::Rsa)
    } else if has_oid(nodes, ED25519_OID.as_slice()) {
        Some(Classification::Ed)
    } else {
        None
    }
}

/// The family that an object identifier names.
fn named_by(arcs: &[u64]) -> (found: Option<Classification>)
    ensures
        found == algorithm_of_oid(arcs@),
{
    if same_arcs(arcs, EC_PUBLIC_KEY_OID.as_slice()) {
        Some(Classification::Ec)
    } else if same_arcs(arcs, RSA_PUBLIC_KEY_OID.as_slice()) {
        Some(Classification::Rsa)
    } else if same_arcs(arcs, ED25519_OID.as_slice()) {
        Some(Classification::Ed)
    } else {
        None
    }
}

impl PemEncodedKey {
    /// Reads a key from PEM text: takes off the armour, decodes the payload and
    /// classifies tag and document.
    pub fn new(input: &[u8]) -> (made: Result<Self, KeyError>)
        ensures
            match decoded_key(input@) {
                Ok(key) => made matches Ok(read) && read@ == key && read@.consistent(),
                Err(error) => made == Err::<Self, KeyError>(error),
            },
    {
        match parse_pem(input) {
            Ok(content) => Self::process_parsed_pem(content),
            Err(_) => Err(KeyError::PemDecode),
        }
    }

    /// Makes a key of a PEM block: decodes the payload and classifies tag and
    /// document.
    pub fn process_parsed_pem(content: PemBlock) -> (made: Result<Self, KeyError>)
        ensures
            match parsed_key(content.tag@, content.contents@) {
                Ok(key) => made matches Ok(read) && read@ == key && read@.consistent(),
                Err(error) => made == Err::<Self, KeyError>(error),
            },
    {
        match decode_der(content.contents()) {
            Ok(asn1) => Self::from_decoded(content, asn1),
            Err(error) => Err(error),
        }
    }

    /// Makes a key of a PEM block and the document that its payload decodes
    /// to, by the tag where the tag says it all, else by the object identifiers
    /// in the document.
    pub fn from_decoded(content: PemBlock, asn1: Vec<Asn1Node>) -> (made: Result<Self, KeyError>)
        ensures
            match dispatched_key(content.tag@, content.contents@, trees(asn1@)) {
                Ok(key) => made matches Ok(read) && read@ == key && read@.consistent()
                    && read.content == content && read.asn1 == asn1,
                Err(error) => made == Err::<Self, KeyError>(error),
            },
    {
        if same_text(content.tag(), "RSA PRIVATE KEY") {
            Ok(Self::create_pem_key(content, asn1, PemType::RsaPrivate, Standard::Pkcs1))
        } else if same_text(content.tag(), "RSA PUBLIC KEY") {
            Ok(Self::create_pem_key(content, asn1, PemType::RsaPublic, Standard::Pkcs1))
        } else if same_text(content.tag(), "EC PRIVATE KEY") {
            Ok(Self::create_pem_key(content, asn1, PemType::EcPrivate, Standard::Pkcs1))
        } else if same_text(content.tag(), "PUBLIC KEY") && Self::is_ec_public_key(
            asn1.as_slice(),
        ) {
            Ok(Self::create_pem_key(content, asn1, PemType::EcPublic, Standard::Pkcs8))
        } else if same_text(content.tag(), "PRIVATE KEY") || same_text(content.tag(), "PUBLIC KEY")
            || same_text(content.tag(), "CERTIFICATE") {
            match Self::classify_pem(asn1.as_slice()) {
                Some(classification) => {
                    let is_private = same_text(content.tag(), "PRIVATE KEY");
                    let pem_type = Self::determine_pem_type(classification, is_private);
                    Ok(Self::create_pem_key(content, asn1, pem_type, Standard::Pkcs8))
                },
                None => Err(KeyError::InvalidKeyFormat),
            }
        } else {
            Err(KeyError::InvalidKeyFormat)
        }
    }

    /// A key with the given parts.
    fn create_pem_key(
        content: PemBlock,
        asn1: Vec<Asn1Node>,
        pem_type: PemType,
        standard: Standard,
    ) -> (key: Self)
        ensures
            key.content == content,
            key.asn1 == asn1,
            key.pem_type == pem_type,
            key.standard == standard,
    {
        PemEncodedKey { content, asn1, pem_type, standard }
    }

    /// Makes a key of an RSA modulus and public exponent, both big-endian: the
    /// public key is written as PEM, and the text is read as any other.
    pub fn from_rsa_components(n: &[u8], e: &[u8]) -> (made: Result<Self, KeyError>)
        ensures
            match components_key(n@, e@) {
                Ok(key) => made matches Ok(read) && read@ == key && read@.consistent(),
                Err(error) => made == Err::<Self, KeyError>(error),
            },
    {
        let public_key = match rsa_key_from_components(n, e) {
            Ok(public_key) => public_key,
            Err(_) => {
                return Err(KeyError::InvalidRsaKey);
            },
        };
        let text = match rsa_key_to_pem(&public_key) {
            Ok(text) => text,
            Err(_) => {
                return Err(KeyError::Pkcs8);
            },
        };
        Self::new(text.as_str().as_bytes())
    }

    /// The private key material of an elliptic-curve key in PKCS#8: the whole
    /// payload.
    pub fn as_ec_private_key(&self) -> (found: Result<&[u8], KeyError>)
        ensures
            match self@.private_material(PemType::EcPrivate) {
                Ok(bytes) => found matches Ok(slice) && slice@ == bytes,
                Err(error) => found == Err::<&[u8], KeyError>(error),
            },
    {
        match self.check_key_type(Standard::Pkcs8, PemType::EcPrivate) {
            Ok(_) => Ok(self.content.contents()),
            Err(error) => Err(error),
        }
    }

    /// The public key material of an elliptic-curve key in PKCS#8: the first
    /// bit string or octet string of the document.
    pub fn as_ec_public_key(&self) -> (found: Result<&[u8], KeyError>)
        ensures
            match self@.public_material(PemType::EcPublic) {
                Ok(bytes) => found matches Ok(slice) && slice@ == bytes,
                Err(error) => found == Err::<&[u8], KeyError>(error),
            },
    {
        match self.check_key_type(Standard::Pkcs8, PemType::EcPublic) {
            Ok(_) => Self::extract_first_bitstring(self.asn1.as_slice()),
            Err(error) => Err(error),
        }
    }

    /// The private key material of an Ed25519 key in PKCS#8: the whole
    /// payload.
    pub fn as_ed_private_key(&self) -> (found: Result<&[u8], KeyError>)
        ensures
            match self@.private_material(PemType::EdPrivate) {
                Ok(bytes) => found matches Ok(slice) && slice@ == bytes,
                Err(error) => found == Err::<&[u8], KeyError>(error),
            },
    {
        match self.check_key_type(Standard::Pkcs8, PemType::EdPrivate) {
            Ok(_) => Ok(self.content.contents()),
            Err(error) => Err(error),
        }
    }

    /// The public key material of an Ed25519 key in PKCS#8: the first bit
    /// string or octet string of the document.
    pub fn as_ed_public_key(&self) -> (found: Result<&[u8], KeyError>)
        ensures
            match self@.public_material(PemType::EdPublic) {
                Ok(bytes) => found matches Ok(slice) && slice@ == bytes,
                Err(error) => found == Err::<&[u8], KeyError>(error),
            },
    {
        match self.check_key_type(Standard::Pkcs8, PemType::EdPublic) {
            Ok(_) => Self::extract_first_bitstring(self.asn1.as_slice()),
            Err(error) => Err(error),
        }
    }

    /// The RSA public key in the block: the block is written as PEM again and
    /// read as PKCS#1 or as PKCS#8, whichever the key's format is.
    pub fn as_rsa_public_key(&self) -> (found: Result<rsa::RsaPublicKey, KeyError>)
        ensures
            found == self@.rsa_public_key(),
    {
        let text = encode_pem(&self.content);
        match self.standard {
            Standard::Pkcs1 => match rsa_key_from_pkcs1_pem(text.as_str()) {
                Ok(public_key) => Ok(public_key),
                Err(_) => Err(KeyError::Pkcs1),
            },
            Standard::Pkcs8 => match rsa_key_from_public_key_pem(text.as_str()) {
                Ok(public_key) => Ok(public_key),
                Err(_) => Err(KeyError::Pkcs8),
            },
        }
    }

    /// Whether the key is of the expected format and kind.
    pub fn check_key_type(&self, expected_standard: Standard, expected_type: PemType) -> (checked:
        Result<(), KeyError>)
        ensures
            checked == if self@.is_of(expected_standard, expected_type) {
                Ok::<(), KeyError>(())
            } else {
                Err::<(), KeyError>(KeyError::InvalidKeyFormat)
            },
    {
        if self.standard == expected_standard && self.pem_type == expected_type {
            Ok(())
        } else {
            Err(KeyError::InvalidKeyFormat)
        }
    }

    /// The algorithm family of a document: that of the first node, in
    /// document order, that yields one.
    pub fn classify_pem(asn1: &[Asn1Node]) -> (found: Option<Classification>)
        ensures
            found == classify(trees(asn1@)),
        decreases asn1@,
    {
        let ghost document = trees(asn1@);
        assert(document.skip(0) =~= document);
        let mut i: usize = 0;
        while i < asn1.len()
            invariant
                document == trees(asn1@),
                i <= asn1.len(),
                classify(document) == classify(document.skip(i as int)),
            decreases asn1.len() - i,
        {
            let ghost rest = document.skip(i as int);
            assert(rest.drop_first() =~= document.skip(i + 1));
            let here = match &asn1[i] {
                Asn1Node::Sequence(children) => {
                    match named_among(children.as_slice()) {
                        Some(family) => Some(family),
                        None => Self::classify_pem(children.as_slice()),
                    }
                },
                Asn1Node::ObjectIdentifier(arcs) => named_by(arcs.as_slice()),
                _ => None,
            };
            assert(here == classify_tree(document[i as int]));
            if here.is_some() {
                return here;
            }
            i += 1;
        }
        None
    }

    /// The bytes of the first bit string or octet string of a document,
    /// depth first and in document order.
    pub fn extract_first_bitstring(asn1: &[Asn1Node]) -> (found: Result<&[u8], KeyError>)
        ensures
            match first_payload(trees(asn1@)) {
                Some(bytes) => found matches Ok(slice) && slice@ == bytes,
                None => found == Err::<&[u8], KeyError>(KeyError::InvalidEcdsaKey),
            },
        decreases asn1@,
    {
        let ghost document = trees(asn1@);
        assert(document.skip(0) =~= document);
        let mut i: usize = 0;
        while i < asn1.len()
            invariant
                document == trees(asn1@),
                i <= asn1.len(),
                first_payload(document) == first_payload(document.skip(i as int)),
            decreases asn1.len() - i,
        {
            let ghost rest = document.skip(i as int);
            assert(rest.drop_first() =~= document.skip(i + 1));
            match &asn1[i] {
                Asn1Node::BitString(bytes) => {
                    return Ok(bytes.as_slice());
                },
                Asn1Node::OctetString(bytes) => {
                    return Ok(bytes.as_slice());
                },
                Asn1Node::Sequence(children) => {
                    match Self::extract_first_bitstring(children.as_slice()) {
                        Ok(bytes) => {
                            return Ok(bytes);
                        },
                        Err(_) => {},
                    }
                },
                _ => {},
            }
            assert(payload_of(document[i as int]) is None);
            i += 1;
        }
        Err(KeyError::InvalidEcdsaKey)
    }

    /// Whether the elliptic-curve identifier stands at the top of a document:
    /// among its nodes, or among the children of one of its sequences.
    pub fn is_ec_public_key(asn1: &[Asn1Node]) -> (found: bool)
        ensures
            found == ec_oid_near_top(trees(asn1@)),
    {
        if has_oid(asn1, EC_PUBLIC_KEY_OID.as_slice()) {
            return true;
        }
        let ghost document = trees(asn1@);
        let mut i: usize = 0;
        while i < asn1.len()
            invariant
                document == trees(asn1@),
                i <= asn1.len(),
                forall|j: int|
                    0 <= j < i ==> !(#[trigger] document[j] matches Asn1Tree::Sequence(children)
                        && holds_oid(children, EC_PUBLIC_KEY_OID@)),
            decreases asn1.len() - i,
        {
            match &asn1[i] {
                Asn1Node::Sequence(children) => {
                    if has_oid(children.as_slice(), EC_PUBLIC_KEY_OID.as_slice()) {
                        assert(document[i as int] matches Asn1Tree::Sequence(below) && holds_oid(
                            below,
                            EC_PUBLIC_KEY_OID@,
                        ));
                        return true;
                    }
                },
                _ => {},
            }
            i += 1;
        }
        false
    }

    /// The kind of key of a family, private or public.
    pub fn determine_pem_type(classification: Classification, is_private: bool) -> (pem_type:
        PemType)
        ensures
            pem_type == pem_type_of(classification, is_private),
    {
        match (classification, is_private) {
            (Classification::Ec, true) => PemType::EcPrivate,
            (Classification::Ec, false) => PemType::EcPublic,
            (Classification::Ed, true) => PemType::EdPrivate,
            (Classification::Ed, false) => PemType::EdPublic,
            (Classification::Rsa, true) => PemType::RsaPrivate,
            (Classification::Rsa, false) => PemType::RsaPublic,
        }
    }
}

} // verus!
