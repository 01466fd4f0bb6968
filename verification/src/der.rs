//! Decoding DER into the nodes that classification reads.

use vstd::prelude::*;
use crate::asn1::{trees, Asn1Node};
use crate::error::KeyError;
use crate::trusted::{block_tree, der_decoding, node_of_block};

verus! {

/// Decodes a buffer of DER into its nodes, in document order.
pub fn decode_der(bytes: &[u8]) -> (decoded: Result<Vec<Asn1Node>, KeyError>)
    ensures
        match der_decoding(bytes@) {
            Some(document) => decoded matches Ok(nodes) && trees(nodes@) == document,
            None => decoded == Err::<Vec<Asn1Node>, KeyError>(KeyError::Asn1Decode),
        },
{
    match simple_asn1::from_der(bytes) {
        Ok(blocks) => {
            let mut nodes: Vec<Asn1Node> = Vec::new();
            let mut i: usize = 0;
            while i < blocks.len()
                invariant
                    i <= blocks.len(),
                    nodes.len() == i,
                    forall|j: int| 0 <= j < i ==> nodes[j]@ == block_tree(blocks[j]),
                decreases blocks.len() - i,
            {
                nodes.push(node_of_block(&blocks[i]));
                i += 1;
            }
            assert(trees(nodes@) =~= blocks@.map_values(
                |block: simple_asn1::ASN1Block| block_tree(block),
            ));
            Ok(nodes)
        },
        Err(_) => Err(KeyError::Asn1Decode),
    }
}

} // verus!
