use pem_keys::{
    Asn1Node, Classification, KeyError, PemBlock, PemEncodedKey, PemType, Standard,
    EC_PUBLIC_KEY_OID, ED25519_OID, RSA_PUBLIC_KEY_OID,
};

fn ec_oid() -> Asn1Node {
    Asn1Node::ObjectIdentifier(EC_PUBLIC_KEY_OID.to_vec())
}

fn rsa_oid() -> Asn1Node {
    Asn1Node::ObjectIdentifier(RSA_PUBLIC_KEY_OID.to_vec())
}

fn ed_oid() -> Asn1Node {
    Asn1Node::ObjectIdentifier(ED25519_OID.to_vec())
}

fn unknown_oid() -> Asn1Node {
    Asn1Node::ObjectIdentifier(vec![1, 2, 840, 10_045, 3, 1, 7])
}

fn classified(tag: &str, asn1: Vec<Asn1Node>) -> Result<(PemType, Standard), KeyError> {
    PemEncodedKey::from_decoded(PemBlock::new(tag, vec![1, 2, 3]), asn1)
        .map(|key| (key.pem_type, key.standard))
}

#[test]
fn known_object_identifiers_have_their_arcs() {
    assert_eq!(EC_PUBLIC_KEY_OID, [1, 2, 840, 10_045, 2, 1]);
    assert_eq!(RSA_PUBLIC_KEY_OID, [1, 2, 840, 113_549, 1, 1, 1]);
    assert_eq!(ED25519_OID, [1, 3, 101, 112]);
}

#[test]
fn determine_pem_type_covers_the_table() {
    assert_eq!(PemEncodedKey::determine_pem_type(Classification::Ec, true), PemType::EcPrivate);
    assert_eq!(PemEncodedKey::determine_pem_type(Classification::Ec, false), PemType::EcPublic);
    assert_eq!(PemEncodedKey::determine_pem_type(Classification::Ed, true), PemType::EdPrivate);
    assert_eq!(PemEncodedKey::determine_pem_type(Classification::Ed, false), PemType::EdPublic);
    assert_eq!(PemEncodedKey::determine_pem_type(Classification::Rsa, true), PemType::RsaPrivate);
    assert_eq!(PemEncodedKey::determine_pem_type(Classification::Rsa, false), PemType::RsaPublic);
}

#[test]
fn classify_empty_document_finds_nothing() {
    assert_eq!(PemEncodedKey::classify_pem(&[]), None);
}

#[test]
fn classify_bare_identifier_at_the_top() {
    assert_eq!(PemEncodedKey::classify_pem(&[ec_oid()]), Some(Classification::Ec));
    assert_eq!(PemEncodedKey::classify_pem(&[rsa_oid()]), Some(Classification::Rsa));
    assert_eq!(PemEncodedKey::classify_pem(&[ed_oid()]), Some(Classification::Ed));
    assert_eq!(PemEncodedKey::classify_pem(&[unknown_oid()]), None);
}

#[test]
fn classify_skips_nodes_that_are_neither_sequence_nor_identifier() {
    let document = vec![
        Asn1Node::Other,
        Asn1Node::BitString(vec![1, 2]),
        Asn1Node::OctetString(vec![3]),
        ed_oid(),
    ];
    assert_eq!(PemEncodedKey::classify_pem(&document), Some(Classification::Ed));
}

#[test]
fn classify_prefers_ec_over_rsa_over_ed_within_a_sequence() {
    let all = vec![Asn1Node::Sequence(vec![ed_oid(), rsa_oid(), ec_oid()])];
    assert_eq!(PemEncodedKey::classify_pem(&all), Some(Classification::Ec));
    let two = vec![Asn1Node::Sequence(vec![ed_oid(), rsa_oid()])];
    assert_eq!(PemEncodedKey::classify_pem(&two), Some(Classification::Rsa));
    let one = vec![Asn1Node::Sequence(vec![Asn1Node::Other, ed_oid()])];
    assert_eq!(PemEncodedKey::classify_pem(&one), Some(Classification::Ed));
}

#[test]
fn classify_immediate_child_wins_over_deeper_identifier() {
    let document = vec![Asn1Node::Sequence(vec![
        Asn1Node::Sequence(vec![ec_oid()]),
        ed_oid(),
    ])];
    assert_eq!(PemEncodedKey::classify_pem(&document), Some(Classification::Ed));
}

#[test]
fn classify_leftmost_sibling_wins() {
    let document = vec![
        Asn1Node::Sequence(vec![Asn1Node::Sequence(vec![Asn1Node::Sequence(vec![rsa_oid()])])]),
        Asn1Node::Sequence(vec![ec_oid()]),
        ed_oid(),
    ];
    assert_eq!(PemEncodedKey::classify_pem(&document), Some(Classification::Rsa));
}

#[test]
fn classify_goes_on_after_a_sequence_without_identifier() {
    let document = vec![
        Asn1Node::Sequence(vec![Asn1Node::Sequence(vec![unknown_oid()]), Asn1Node::Other]),
        Asn1Node::Sequence(vec![]),
        Asn1Node::Sequence(vec![Asn1Node::Sequence(vec![ed_oid()])]),
    ];
    assert_eq!(PemEncodedKey::classify_pem(&document), Some(Classification::Ed));
}

#[test]
fn classify_bare_identifier_before_sequence_wins() {
    let document = vec![ed_oid(), Asn1Node::Sequence(vec![ec_oid()])];
    assert_eq!(PemEncodedKey::classify_pem(&document), Some(Classification::Ed));
}

#[test]
fn classify_finds_nothing_without_known_identifier() {
    let document = vec![
        Asn1Node::Sequence(vec![unknown_oid(), Asn1Node::Sequence(vec![Asn1Node::Other])]),
        Asn1Node::BitString(vec![0]),
    ];
    assert_eq!(PemEncodedKey::classify_pem(&document), None);
}

#[test]
fn is_ec_public_key_in_a_top_level_sequence() {
    let document = vec![Asn1Node::Other, Asn1Node::Sequence(vec![Asn1Node::Other, ec_oid()])];
    assert!(PemEncodedKey::is_ec_public_key(&document));
}

#[test]
fn is_ec_public_key_at_the_top_level() {
    assert!(PemEncodedKey::is_ec_public_key(&[Asn1Node::Other, ec_oid()]));
}

#[test]
fn is_ec_public_key_not_two_levels_down() {
    let document = vec![Asn1Node::Sequence(vec![Asn1Node::Sequence(vec![ec_oid()])])];
    assert!(!PemEncodedKey::is_ec_public_key(&document));
}

#[test]
fn is_ec_public_key_not_for_other_identifiers() {
    let document = vec![rsa_oid(), Asn1Node::Sequence(vec![ed_oid(), unknown_oid()])];
    assert!(!PemEncodedKey::is_ec_public_key(&document));
    assert!(!PemEncodedKey::is_ec_public_key(&[]));
}

#[test]
fn legacy_tags_decide_without_the_document() {
    let documents = vec![
        vec![],
        vec![Asn1Node::Other],
        vec![Asn1Node::Sequence(vec![ec_oid()])],
        vec![Asn1Node::Sequence(vec![ed_oid()])],
        vec![rsa_oid()],
    ];
    for document in documents {
        assert_eq!(
            classified("RSA PRIVATE KEY", document.clone()),
            Ok((PemType::RsaPrivate, Standard::Pkcs1))
        );
        assert_eq!(
            classified("RSA PUBLIC KEY", document.clone()),
            Ok((PemType::RsaPublic, Standard::Pkcs1))
        );
        assert_eq!(
            classified("EC PRIVATE KEY", document),
            Ok((PemType::EcPrivate, Standard::Pkcs1))
        );
    }
}

#[test]
fn generic_tags_follow_the_single_identifier() {
    let nest = |oid: Asn1Node| {
        vec![Asn1Node::Sequence(vec![
            Asn1Node::Other,
            Asn1Node::Sequence(vec![Asn1Node::Sequence(vec![oid, Asn1Node::Other])]),
            Asn1Node::BitString(vec![4, 5]),
        ])]
    };
    assert_eq!(classified("PRIVATE KEY", nest(ec_oid())), Ok((PemType::EcPrivate, Standard::Pkcs8)));
    assert_eq!(classified("PUBLIC KEY", nest(ec_oid())), Ok((PemType::EcPublic, Standard::Pkcs8)));
    assert_eq!(classified("PRIVATE KEY", nest(rsa_oid())), Ok((PemType::RsaPrivate, Standard::Pkcs8)));
    assert_eq!(classified("PUBLIC KEY", nest(rsa_oid())), Ok((PemType::RsaPublic, Standard::Pkcs8)));
    assert_eq!(classified("PRIVATE KEY", nest(ed_oid())), Ok((PemType::EdPrivate, Standard::Pkcs8)));
    assert_eq!(classified("PUBLIC KEY", nest(ed_oid())), Ok((PemType::EdPublic, Standard::Pkcs8)));
}

#[test]
fn certificate_tag_is_classified_as_public_pkcs8() {
    let document = vec![Asn1Node::Sequence(vec![Asn1Node::Sequence(vec![rsa_oid()])])];
    assert_eq!(classified("CERTIFICATE", document), Ok((PemType::RsaPublic, Standard::Pkcs8)));
}

#[test]
fn public_key_tag_with_ec_identifier_near_the_top_is_ec() {
    let document = vec![
        Asn1Node::Sequence(vec![Asn1Node::Sequence(vec![rsa_oid()])]),
        Asn1Node::Sequence(vec![ec_oid()]),
    ];
    assert_eq!(classified("PUBLIC KEY", document.clone()), Ok((PemType::EcPublic, Standard::Pkcs8)));
    assert_eq!(classified("PRIVATE KEY", document.clone()), Ok((PemType::RsaPrivate, Standard::Pkcs8)));
    assert_eq!(classified("CERTIFICATE", document), Ok((PemType::RsaPublic, Standard::Pkcs8)));
}

#[test]
fn public_key_tag_with_bare_ec_identifier_at_the_top_is_ec() {
    let document = vec![Asn1Node::Sequence(vec![rsa_oid()]), ec_oid()];
    assert_eq!(classified("PUBLIC KEY", document.clone()), Ok((PemType::EcPublic, Standard::Pkcs8)));
    assert_eq!(classified("PRIVATE KEY", document), Ok((PemType::RsaPrivate, Standard::Pkcs8)));
}

#[test]
fn generic_tags_without_known_identifier_are_refused() {
    let document = vec![Asn1Node::Sequence(vec![unknown_oid(), Asn1Node::BitString(vec![1])])];
    for tag in ["PRIVATE KEY", "PUBLIC KEY", "CERTIFICATE"] {
        assert_eq!(classified(tag, document.clone()), Err(KeyError::InvalidKeyFormat));
        assert_eq!(classified(tag, vec![]), Err(KeyError::InvalidKeyFormat));
    }
}

#[test]
fn unknown_tags_are_refused() {
    let document = vec![Asn1Node::Sequence(vec![ec_oid()])];
    for tag in ["", "DSA PRIVATE KEY", "ENCRYPTED PRIVATE KEY", "public key", "PUBLIC KEY "] {
        assert_eq!(classified(tag, document.clone()), Err(KeyError::InvalidKeyFormat));
    }
}

#[test]
fn from_decoded_keeps_block_and_document() {
    let document = vec![Asn1Node::Sequence(vec![ed_oid()]), Asn1Node::OctetString(vec![7, 8])];
    let key = PemEncodedKey::from_decoded(PemBlock::new("PRIVATE KEY", vec![9, 9]), document.clone())
        .unwrap();
    assert_eq!(key.content, PemBlock::new("PRIVATE KEY", vec![9, 9]));
    assert_eq!(key.content.tag(), "PRIVATE KEY");
    assert_eq!(key.content.contents(), &[9u8, 9][..]);
    assert_eq!(key.asn1, document);
    assert_eq!(key.pem_type, PemType::EdPrivate);
    assert_eq!(key.standard, Standard::Pkcs8);
}

#[test]
fn check_key_type_accepts_only_the_exact_pair() {
    let key = PemEncodedKey::from_decoded(PemBlock::new("EC PRIVATE KEY", vec![]), vec![]).unwrap();
    assert_eq!(key.check_key_type(Standard::Pkcs1, PemType::EcPrivate), Ok(()));
    assert_eq!(
        key.check_key_type(Standard::Pkcs8, PemType::EcPrivate),
        Err(KeyError::InvalidKeyFormat)
    );
    assert_eq!(
        key.check_key_type(Standard::Pkcs1, PemType::EcPublic),
        Err(KeyError::InvalidKeyFormat)
    );
    assert_eq!(
        key.check_key_type(Standard::Pkcs8, PemType::RsaPublic),
        Err(KeyError::InvalidKeyFormat)
    );
}

#[test]
fn cloned_key_equals_the_key() {
    let document = vec![Asn1Node::Sequence(vec![
        Asn1Node::Sequence(vec![ec_oid(), unknown_oid()]),
        Asn1Node::BitString(vec![4, 1, 2]),
    ])];
    let key = PemEncodedKey::from_decoded(PemBlock::new("PUBLIC KEY", vec![5, 6]), document).unwrap();
    let copy = key.clone();
    assert_eq!(copy.content, key.content);
    assert_eq!(copy.asn1, key.asn1);
    assert_eq!(copy.pem_type, key.pem_type);
    assert_eq!(copy.standard, key.standard);
    assert_eq!(copy.as_ec_public_key(), Ok(&[4u8, 1, 2][..]));
}
