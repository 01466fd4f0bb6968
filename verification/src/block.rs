//! A PEM block after its armour is taken off.

use vstd::prelude::*;

verus! {

/// What a PEM block carries: the tag of its `BEGIN` line and the bytes that
/// its base64 body stands for.
#[derive(Debug, PartialEq, Eq)]
pub struct PemBlock {
    pub tag: String,
    pub contents: Vec<u8>,
}

impl View for PemBlock {
    type V = (Seq<char>, Seq<u8>);

    open spec fn view(&self) -> (Seq<char>, Seq<u8>) {
        (self.tag@, self.contents@)
    }
}

impl Clone for PemBlock {
    fn clone(&self) -> (copy: Self)
        ensures
            copy@ == self@,
    {
        PemBlock { tag: self.tag.clone(), contents: self.contents.clone() }
    }
}

impl PemBlock {
    /// A block with the given tag and contents.
    pub fn new(tag: &str, contents: Vec<u8>) -> (block: Self)
        ensures
            block@ == (tag@, contents@),
    {
        PemBlock { tag: tag.to_owned(), contents }
    }

    /// The tag of the block.
    pub fn tag(&self) -> (tag: &str)
        ensures
            tag@ == self.tag@,
    {
        self.tag.as_str()
    }

    /// The decoded bytes of the block.
    pub fn contents(&self) -> (contents: &[u8])
        ensures
            contents@ == self.contents@,
    {
        self.contents.as_slice()
    }
}

} // verus!
