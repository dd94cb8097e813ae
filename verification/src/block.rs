//! The plain data that the bootstrap logic reads of blocks and headers.

use vstd::prelude::*;
use vstd::std_specs::cmp::PartialEqSpecImpl;

verus! {

/// The hash that names a block header.
#[derive(Clone, Copy, Debug)]
pub struct HeaderHash {
    pub bytes: [u8; 32],
}

impl View for HeaderHash {
    type V = Seq<u8>;

    open spec fn view(&self) -> Seq<u8> {
        self.bytes@
    }
}

impl PartialEq for HeaderHash {
    fn eq(&self, other: &Self) -> (r: bool) {
        let mut i: usize = 0;
        while i < 32
            invariant
                i <= 32,
                forall|j: int| 0 <= j < i ==> self.bytes@[j] == other.bytes@[j],
            decreases 32 - i,
        {
            if self.bytes[i] != other.bytes[i] {
                return false;
            }
            i += 1;
        }
        assert(self.bytes@ =~= other.bytes@);
        true
    }
}

impl PartialEqSpecImpl for HeaderHash {
    open spec fn obeys_eq_spec() -> bool {
        true
    }

    open spec fn eq_spec(&self, other: &Self) -> bool {
        self@ == other@
    }
}

impl Eq for HeaderHash {}

/// What the bootstrap logic reads of a block received from the peer. The
/// block itself stays with the caller, who hands it to storage.
#[derive(Clone, Debug, PartialEq, Eq)]
pub struct Block {
    /// Hash of the block's header.
    pub hash: HeaderHash,
    /// Length of the block in its serialized form, in bytes.
    pub size: u64,
    /// The header's description, as it is shown in progress reports.
    pub description: String,
}

/// A point that the local chain already has: the peer sends only what lies
/// beyond the checkpoints.
#[derive(Clone, Copy, Debug, PartialEq, Eq)]
pub struct Checkpoint {
    pub hash: HeaderHash,
    pub position: u64,
}

/// How the chain state classifies a header before validation. `R` is the
/// handle by which the chain state refers to a validated position.
#[derive(Clone, Debug, PartialEq, Eq)]
pub enum PreCheckedHeader<R> {
    /// The header is known. On a validated branch, its reference comes along.
    AlreadyPresent { hash: HeaderHash, cached_reference: Option<R> },
    /// The header's parent is unknown.
    MissingParent { hash: HeaderHash },
    /// The header is new and its parent is at `parent_ref`.
    HeaderWithCache { hash: HeaderHash, parent_ref: R },
}

} // verus!
