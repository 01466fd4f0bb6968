//! The part of an ASN.1 document that key classification reads, and what
//! classification and extraction mean on it.

use vstd::prelude::*;
use crate::kinds::Classification;

verus! {

/// Object identifier of an elliptic-curve public key, 1.2.840.10045.2.1.
pub const EC_PUBLIC_KEY_OID: [u64; 6] = [1, 2, 840, 10_045, 2, 1];

/// Object identifier of RSA encryption, 1.2.840.113549.1.1.1.
pub const RSA_PUBLIC_KEY_OID: [u64; 7] = [1, 2, 840, 113_549, 1, 1, 1];

/// Object identifier of Ed25519, 1.3.101.112.
pub const ED25519_OID: [u64; 4] = [1, 3, 101, 112];

/// A node of a decoded ASN.1 document as a mathematical value: the model of
/// [`Asn1Node`].
pub enum Asn1Tree {
    /// A sequence and its children, in document order.
    Sequence(Seq<Asn1Tree>),
    /// An object identifier and its arcs.
    ObjectIdentifier(Seq<u64>),
    /// A bit string and its bytes.
    BitString(Seq<u8>),
    /// An octet string and its bytes.
    OctetString(Seq<u8>),
    /// Any other kind of node.
    Other,
}

/// A node of a decoded ASN.1 document.
///
/// Only what classification and extraction read is kept. A node of any other
/// kind is `Other`, and so is an object identifier with an arc that does not
/// fit in 64 bits: no identifier known here has one.
#[derive(Debug, PartialEq, Eq)]
pub enum Asn1Node {
    Sequence(Vec<Asn1Node>),
    ObjectIdentifier(Vec<u64>),
    BitString(Vec<u8>),
    OctetString(Vec<u8>),
    Other,
}

/// The models of a list of nodes, in order.
pub open spec fn trees(nodes: Seq<Asn1Node>) -> Seq<Asn1Tree>
    decreases nodes, 0int,
{
    Seq::new(
        nodes.len(),
        |i: int|
            if 0 <= i < nodes.len() {
                nodes[i].view()
            } else {
                Asn1Tree::Other
            },
    )
}

impl View for Asn1Node {
    type V = Asn1Tree;

    open spec fn view(&self) -> Asn1Tree
        decreases self, 1int,
    {
        match self {
            Asn1Node::Sequence(children) => Asn1Tree::Sequence(trees(children@)),
            Asn1Node::ObjectIdentifier(arcs) => Asn1Tree::ObjectIdentifier(arcs@),
            Asn1Node::BitString(bytes) => Asn1Tree::BitString(bytes@),
            Asn1Node::OctetString(bytes) => Asn1Tree::OctetString(bytes@),
            Asn1Node::Other => Asn1Tree::Other,
        }
    }
}

impl Clone for Asn1Node {
    fn clone(&self) -> (copy: Self)
        ensures
            copy@ == self@,
        decreases self, 1int,
    {
        match self {
            Asn1Node::Sequence(children) => Asn1Node::Sequence(clone_nodes(children.as_slice())),
            Asn1Node::ObjectIdentifier(arcs) => Asn1Node::ObjectIdentifier(arcs.clone()),
            Asn1Node::BitString(bytes) => Asn1Node::BitString(bytes.clone()),
            Asn1Node::OctetString(bytes) => Asn1Node::OctetString(bytes.clone()),
            Asn1Node::Other => Asn1Node::Other,
        }
    }
}

/// A copy of a list of nodes.
pub fn clone_nodes(nodes: &[Asn1Node]) -> (copies: Vec<Asn1Node>)
    ensures
        trees(copies@) == trees(nodes@),
    decreases nodes@, 0int,
{
    let mut copies: Vec<Asn1Node> = Vec::new();
    let mut i: usize = 0;
    while i < nodes.len()
        invariant
            i <= nodes.len(),
            copies.len() == i,
            forall|j: int| 0 <= j < i ==> copies[j]@ == nodes[j]@,
        decreases nodes.len() - i,
    {
        copies.push(nodes[i].clone());
        i += 1;
    }
    copies
}

/// The object identifier that names a family.
pub open spec fn oid_of(classification: Classification) -> Seq<u64> {
    match classification {
        Classification::Ec => EC_PUBLIC_KEY_OID@,
        Classification::Rsa => RSA_PUBLIC_KEY_OID@,
        Classification::Ed => ED25519_OID@,
    }
}

/// The family that an object identifier names, if it is one of the three
/// known ones.
pub open spec fn algorithm_of_oid(arcs: Seq<u64>) -> Option<Classification> {
    if arcs == EC_PUBLIC_KEY_OID@ {
        Some(Classification::Ec)
    } else if arcs == RSA_PUBLIC_KEY_OID@ {
        Some(Classification::Rsa)
    } else if arcs == ED25519_OID@ {
        Some(Classification::Ed)
    } else {
        None
    }
}

/// Whether one of the nodes themselves, not a descendant, is the object
/// identifier `arcs`.
pub open spec fn holds_oid(nodes: Seq<Asn1Tree>, arcs: Seq<u64>) -> bool {
    nodes.contains(Asn1Tree::ObjectIdentifier(arcs))
}

/// The family named among the nodes themselves: elliptic curve before RSA
/// before Ed25519.
pub open spec fn algorithm_among(nodes: Seq<Asn1Tree>) -> Option<Classification> {
    if holds_oid(nodes, EC_PUBLIC_KEY_OID@) {
        Some(Classification::Ec)
    } else if holds_oid(nodes, RSA_PUBLIC_KEY_OID@) {
        Some(Classification::Rsa)
    } else if holds_oid(nodes, ED25519_OID@) {
        Some(Classification::Ed)
    } else {
        None
    }
}

/// The family that one node yields. A sequence yields the family named among
/// its children, else what its children yield as a list of their own; a bare
/// object identifier yields the family it names; any other node yields none.
pub open spec fn classify_tree(tree: Asn1Tree) -> Option<Classification>
    decreases tree, 1int,
{
    match tree {
        Asn1Tree::Sequence(children) => match algorithm_among(children) {
            Some(found) => Some(found),
            None => classify(children),
        },
        Asn1Tree::ObjectIdentifier(arcs) => algorithm_of_oid(arcs),
        _ => None,
    }
}

/// The family of a document: what the first node that yields a family
/// yields.
pub open spec fn classify(nodes: Seq<Asn1Tree>) -> Option<Classification>
    decreases nodes, 0int,
{
    if nodes.len() == 0 {
        None
    } else {
        match classify_tree(nodes[0]) {
            Some(found) => Some(found),
            None => classify(nodes.drop_first()),
        }
    }
}

/// The key material that one node yields: its own bytes where it is a bit
/// string or an octet string, what its children yield where it is a sequence.
pub open spec fn payload_of(tree: Asn1Tree) -> Option<Seq<u8>>
    decreases tree, 1int,
{
    match tree {
        Asn1Tree::BitString(bytes) => Some(bytes),
        Asn1Tree::OctetString(bytes) => Some(bytes),
        Asn1Tree::Sequence(children) => first_payload(children),
        _ => None,
    }
}

/// The bytes of the first bit string or octet string of a document, depth
/// first and in document order.
pub open spec fn first_payload(nodes: Seq<Asn1Tree>) -> Option<Seq<u8>>
    decreases nodes, 0int,
{
    if nodes.len() == 0 {
        None
    } else {
        match payload_of(nodes[0]) {
            Some(bytes) => Some(bytes),
            None => first_payload(nodes.drop_first()),
        }
    }
}

/// The bytes of every bit string and octet string in a node, depth first.
pub open spec fn strings_of(tree: Asn1Tree) -> Seq<Seq<u8>>
    decreases tree, 1int,
{
    match tree {
        Asn1Tree::BitString(bytes) => seq![bytes],
        Asn1Tree::OctetString(bytes) => seq![bytes],
        Asn1Tree::Sequence(children) => strings_in(children),
        _ => Seq::empty(),
    }
}

/// The bytes of every bit string and octet string in a document, depth first
/// and in document order.
pub open spec fn strings_in(nodes: Seq<Asn1Tree>) -> Seq<Seq<u8>>
    decreases nodes, 0int,
{
    if nodes.len() == 0 {
        Seq::empty()
    } else {
        strings_of(nodes[0]) + strings_in(nodes.drop_first())
    }
}

/// Whether the elliptic-curve identifier stands at the top of a document:
/// among its nodes, or among the children of one of its sequences.
pub open spec fn ec_oid_near_top(nodes: Seq<Asn1Tree>) -> bool {
    holds_oid(nodes, EC_PUBLIC_KEY_OID@) || exists|i: int|
        0 <= i < nodes.len() && (#[trigger] nodes[i] matches Asn1Tree::Sequence(children)
            && holds_oid(children, EC_PUBLIC_KEY_OID@))
}

/// Whether the object identifier `arcs` occurs in a node: as the node itself
/// or below it, through sequences.
pub open spec fn occurs(tree: Asn1Tree, arcs: Seq<u64>) -> bool
    decreases tree, 1int,
{
    match tree {
        Asn1Tree::ObjectIdentifier(found) => found == arcs,
        Asn1Tree::Sequence(children) => occurs_in(children, arcs),
        _ => false,
    }
}

/// Whether the object identifier `arcs` occurs anywhere in a document.
pub open spec fn occurs_in(nodes: Seq<Asn1Tree>, arcs: Seq<u64>) -> bool
    decreases nodes, 0int,
{
    if nodes.len() == 0 {
        false
    } else {
        occurs(nodes[0], arcs) || occurs_in(nodes.drop_first(), arcs)
    }
}

/// An object identifier that occurs in one of the nodes occurs in the list.
pub proof fn lemma_occurs_at(nodes: Seq<Asn1Tree>, arcs: Seq<u64>, i: int)
    requires
        0 <= i < nodes.len(),
        occurs(nodes[i], arcs),
    ensures
        occurs_in(nodes, arcs),
    decreases nodes.len(),
{
    if i > 0 {
        lemma_occurs_at(nodes.drop_first(), arcs, i - 1);
    }
}

/// An object identifier that is one of the nodes occurs in the list.
pub proof fn lemma_held_occurs(nodes: Seq<Asn1Tree>, arcs: Seq<u64>)
    requires
        holds_oid(nodes, arcs),
    ensures
        occurs_in(nodes, arcs),
{
    let i = choose|i: int| 0 <= i < nodes.len() && nodes[i] == Asn1Tree::ObjectIdentifier(arcs);
    lemma_occurs_at(nodes, arcs, i);
}

/// The identifier of the family that a node yields occurs in the node, and a
/// node that yields no family holds none of the three known identifiers.
pub proof fn lemma_classify_tree_finds(tree: Asn1Tree)
    ensures
        classify_tree(tree) matches Some(found) ==> occurs(tree, oid_of(found)),
        classify_tree(tree) is None ==> forall|family: Classification|
            !occurs(tree, #[trigger] oid_of(family)),
    decreases tree, 1int,
{
    match tree {
        Asn1Tree::Sequence(children) => {
            match algorithm_among(children) {
                Some(found) => {
                    lemma_held_occurs(children, oid_of(found));
                },
                None => {
                    lemma_classify_finds(children);
                },
            }
        },
        _ => {},
    }
}

/// The identifier of the family that a document yields occurs in the
/// document, and a document that yields no family holds none of the three
/// known identifiers.
pub proof fn lemma_classify_finds(nodes: Seq<Asn1Tree>)
    ensures
        classify(nodes) matches Some(found) ==> occurs_in(nodes, oid_of(found)),
        classify(nodes) is None ==> forall|family: Classification|
            !occurs_in(nodes, #[trigger] oid_of(family)),
    decreases nodes, 0int,
{
    if nodes.len() > 0 {
        lemma_classify_tree_finds(nodes[0]);
        if classify_tree(nodes[0]) is None {
            lemma_classify_finds(nodes.drop_first());
        }
    }
}

/// What a node yields as key material is the first of its strings.
pub proof fn lemma_payload_is_first_string(tree: Asn1Tree)
    ensures
        payload_of(tree) == if strings_of(tree).len() > 0 {
            Some(strings_of(tree)[0])
        } else {
            None
        },
    decreases tree, 1int,
{
    match tree {
        Asn1Tree::Sequence(children) => {
            lemma_first_payload_is_first_string(children);
        },
        _ => {},
    }
}

/// What a document yields as key material is the first of its strings.
pub proof fn lemma_first_payload_is_first_string(nodes: Seq<Asn1Tree>)
    ensures
        first_payload(nodes) == if strings_in(nodes).len() > 0 {
            Some(strings_in(nodes)[0])
        } else {
            None
        },
    decreases nodes, 0int,
{
    if nodes.len() > 0 {
        lemma_payload_is_first_string(nodes[0]);
        lemma_first_payload_is_first_string(nodes.drop_first());
    }
}

/// Where the elliptic-curve identifier stands at the top of a document, it
/// occurs in the document.
pub proof fn lemma_near_top_occurs(nodes: Seq<Asn1Tree>)
    requires
        ec_oid_near_top(nodes),
    ensures
        occurs_in(nodes, EC_PUBLIC_KEY_OID@),
{
    if holds_oid(nodes, EC_PUBLIC_KEY_OID@) {
        lemma_held_occurs(nodes, EC_PUBLIC_KEY_OID@);
    } else {
        let i = choose|i: int|
            0 <= i < nodes.len() && (#[trigger] nodes[i] matches Asn1Tree::Sequence(children)
                && holds_oid(children, EC_PUBLIC_KEY_OID@));
        match nodes[i] {
            Asn1Tree::Sequence(children) => {
                lemma_held_occurs(children, EC_PUBLIC_KEY_OID@);
            },
            _ => {},
        }
        lemma_occurs_at(nodes, EC_PUBLIC_KEY_OID@, i);
    }
}

} // verus!
