//! What holds of classification and extraction on every input.

use vstd::prelude::*;
use crate::asn1::{
    ec_oid_near_top, first_payload, lemma_classify_finds, lemma_first_payload_is_first_string,
    lemma_near_top_occurs, occurs_in, oid_of, payload_of, strings_in, Asn1Tree,
    EC_PUBLIC_KEY_OID,
};
use crate::error::KeyError;
use crate::key::{dispatch, parsed_key, PemKey};
use crate::trusted::der_decoding;
use crate::kinds::{pem_type_of, Classification, PemType, Standard};

verus! {

/// Whether a tag is one of the three that name algorithm and format by
/// themselves.
pub open spec fn is_legacy_tag(tag: Seq<char>) -> bool {
    tag == "RSA PRIVATE KEY"@ || tag == "RSA PUBLIC KEY"@ || tag == "EC PRIVATE KEY"@
}

/// The six tags that classification knows are six different texts.
pub proof fn lemma_tags_differ()
    ensures
        "RSA PRIVATE KEY"@.len() == 15,
        "RSA PUBLIC KEY"@.len() == 14,
        "EC PRIVATE KEY"@.len() == 14,
        "PUBLIC KEY"@.len() == 10,
        "PRIVATE KEY"@.len() == 11,
        "CERTIFICATE"@.len() == 11,
        "RSA PUBLIC KEY"@[0] == 'R',
        "EC PRIVATE KEY"@[0] == 'E',
        "PRIVATE KEY"@[0] == 'P',
        "CERTIFICATE"@[0] == 'C',
{
    reveal_strlit("RSA PRIVATE KEY");
    reveal_strlit("RSA PUBLIC KEY");
    reveal_strlit("EC PRIVATE KEY");
    reveal_strlit("PUBLIC KEY");
    reveal_strlit("PRIVATE KEY");
    reveal_strlit("CERTIFICATE");
}

/// Under a legacy tag the tag alone decides: whatever the document holds,
/// the key is classified as the tag says, in PKCS#1.
pub proof fn law_legacy_tag_decides(tag: Seq<char>, first: Seq<Asn1Tree>, second: Seq<Asn1Tree>)
    requires
        is_legacy_tag(tag),
    ensures
        dispatch(tag, first) == dispatch(tag, second),
        tag == "RSA PRIVATE KEY"@ ==> dispatch(tag, first) == Ok::<(PemType, Standard), KeyError>(
            (PemType::RsaPrivate, Standard::Pkcs1),
        ),
        tag == "RSA PUBLIC KEY"@ ==> dispatch(tag, first) == Ok::<(PemType, Standard), KeyError>(
            (PemType::RsaPublic, Standard::Pkcs1),
        ),
        tag == "EC PRIVATE KEY"@ ==> dispatch(tag, first) == Ok::<(PemType, Standard), KeyError>(
            (PemType::EcPrivate, Standard::Pkcs1),
        ),
{
    lemma_tags_differ();
}

/// Under a legacy tag a payload makes a key as soon as it decodes: nothing
/// else can fail, and the failure to decode is `Asn1Decode`.
pub proof fn law_legacy_tag_needs_only_decoding(tag: Seq<char>, contents: Seq<u8>)
    requires
        is_legacy_tag(tag),
    ensures
        parsed_key(tag, contents) is Ok <==> der_decoding(contents) is Some,
        parsed_key(tag, contents) matches Err(error) ==> error == KeyError::Asn1Decode,
        parsed_key(tag, contents) matches Ok(key) ==> key.standard == Standard::Pkcs1
            && key.contents == contents && key.tag == tag,
{
    lemma_tags_differ();
}

/// Under the tag `PUBLIC KEY` or `PRIVATE KEY`, a document in which exactly
/// one of the three known object identifiers occurs, at whatever depth, is
/// classified as that identifier's family, in PKCS#8, and as private or
/// public as the tag says.
pub proof fn law_single_family_decides(
    tag: Seq<char>,
    nodes: Seq<Asn1Tree>,
    family: Classification,
)
    requires
        tag == "PUBLIC KEY"@ || tag == "PRIVATE KEY"@,
        occurs_in(nodes, oid_of(family)),
        forall|other: Classification|
            other != family ==> !occurs_in(nodes, #[trigger] oid_of(other)),
    ensures
        dispatch(tag, nodes) == Ok::<(PemType, Standard), KeyError>(
            (pem_type_of(family, tag == "PRIVATE KEY"@), Standard::Pkcs8),
        ),
{
    lemma_tags_differ();
    if tag == "PUBLIC KEY"@ && ec_oid_near_top(nodes) {
        lemma_near_top_occurs(nodes);
        assert(oid_of(Classification::Ec) == EC_PUBLIC_KEY_OID@);
    } else {
        lemma_classify_finds(nodes);
    }
}

/// Under any tag but a legacy one, a document in which none of the three
/// known object identifiers occurs is refused as `InvalidKeyFormat`.
pub proof fn law_unknown_document_refused(tag: Seq<char>, nodes: Seq<Asn1Tree>)
    requires
        !is_legacy_tag(tag),
        forall|family: Classification| !occurs_in(nodes, #[trigger] oid_of(family)),
    ensures
        dispatch(tag, nodes) == Err::<(PemType, Standard), KeyError>(KeyError::InvalidKeyFormat),
{
    if ec_oid_near_top(nodes) {
        lemma_near_top_occurs(nodes);
        assert(oid_of(Classification::Ec) == EC_PUBLIC_KEY_OID@);
    }
    lemma_classify_finds(nodes);
}

/// An accessor for key material refuses every key that is not in PKCS#8 or
/// not of the accessor's kind, as `InvalidKeyFormat`, and no other.
pub proof fn law_accessors_refuse_other_keys(key: PemKey, pem_type: PemType)
    ensures
        key.private_material(pem_type) == Err::<Seq<u8>, KeyError>(KeyError::InvalidKeyFormat)
            <==> !key.is_of(Standard::Pkcs8, pem_type),
        key.public_material(pem_type) == Err::<Seq<u8>, KeyError>(KeyError::InvalidKeyFormat)
            <==> !key.is_of(Standard::Pkcs8, pem_type),
        key.is_of(Standard::Pkcs8, pem_type) ==> key.private_material(pem_type) == Ok::<
            Seq<u8>,
            KeyError,
        >(key.contents),
{
}

/// Extraction finds the first bit string or octet string of the document,
/// depth first and in document order, and fails as `InvalidEcdsaKey` exactly
/// where the document holds none.
pub proof fn law_extraction_finds_first_string(key: PemKey, pem_type: PemType)
    requires
        key.is_of(Standard::Pkcs8, pem_type),
    ensures
        strings_in(key.nodes).len() > 0 ==> key.public_material(pem_type) == Ok::<
            Seq<u8>,
            KeyError,
        >(strings_in(key.nodes)[0]),
        strings_in(key.nodes).len() == 0 ==> key.public_material(pem_type) == Err::<
            Seq<u8>,
            KeyError,
        >(KeyError::InvalidEcdsaKey),
{
    lemma_first_payload_is_first_string(key.nodes);
}

/// Extraction is depth first: in a sequence of a node without key material,
/// a sequence that holds the bit string `inner`, and the bit string `outer`,
/// the material found is `inner`.
pub proof fn law_extraction_is_depth_first(without: Asn1Tree, inner: Seq<u8>, outer: Seq<u8>)
    requires
        payload_of(without) is None,
    ensures
        first_payload(
            seq![
                Asn1Tree::Sequence(
                    seq![
                        without,
                        Asn1Tree::Sequence(seq![Asn1Tree::BitString(inner)]),
                        Asn1Tree::BitString(outer),
                    ],
                ),
            ],
        ) == Some(inner),
{
    let nested = seq![Asn1Tree::BitString(inner)];
    let children = seq![without, Asn1Tree::Sequence(nested), Asn1Tree::BitString(outer)];
    let document = seq![Asn1Tree::Sequence(children)];
    assert(payload_of(nested[0]) == Some(inner));
    assert(payload_of(children[1]) == Some(inner));
    assert(first_payload(children.drop_first()) == Some(inner));
    assert(payload_of(document[0]) == Some(inner));
}

} // verus!
