//! A streaming change-detection digest of an artifact's bytes.
//!
//! Bytes are fed in pieces of any size; they reach the underlying hasher in
//! blocks of [`BLOCK`] bytes (the last one possibly shorter), so the digest
//! depends on the content alone and not on how it was split.

use vstd::prelude::*;
use std::collections::hash_map::DefaultHasher;
use std::hash::Hasher;
use vstd::std_specs::hash::DefaultHasherAdditionalSpecFns;
use crate::text::{fixed_digits, push_fixed_digits};

verus! {

/// The size of the blocks that reach the hasher.
pub const BLOCK: usize = 1024;

/// The `i`-th full block of `s`.
pub open spec fn block_at(s: Seq<u8>, i: int) -> Seq<u8> {
    s.subrange(1024 * i, 1024 * i + 1024)
}

/// The full blocks at the front of `s`, `k` of them.
pub open spec fn full_blocks(s: Seq<u8>, k: nat) -> Seq<Seq<u8>> {
    Seq::new(k, |i: int| block_at(s, i))
}

/// The blocks that `s` reaches the hasher in.
pub open spec fn blocks_of(s: Seq<u8>) -> Seq<Seq<u8>> {
    let k = s.len() / 1024;
    if s.len() % 1024 == 0 {
        full_blocks(s, k)
    } else {
        full_blocks(s, k).push(s.subrange(1024 * k as int, s.len() as int))
    }
}

/// The digest of `s`: sixteen lowercase hex digits.
pub open spec fn hex_digest(s: Seq<u8>) -> Seq<char> {
    fixed_digits(DefaultHasher::spec_finish(blocks_of(s)) as nat, 16, 16)
}

/// A digest in progress.
pub struct ArtifactHasher {
    hasher: DefaultHasher,
    pending: Vec<u8>,
    content: Ghost<Seq<u8>>,
}

impl ArtifactHasher {
    /// The bytes fed so far.
    pub closed spec fn content(&self) -> Seq<u8> {
        self.content@
    }

    pub closed spec fn wf(&self) -> bool {
        let k = self.hasher@.len();
        &&& self.pending@.len() < 1024
        &&& self.content@.len() == 1024 * k + self.pending@.len()
        &&& self.hasher@ == full_blocks(self.content@, k)
        &&& self.pending@ == self.content@.subrange(1024 * k as int, self.content@.len() as int)
    }

    /// A digest of no bytes yet.
    pub fn new() -> (r: ArtifactHasher)
        ensures
            r.wf(),
            r.content() == Seq::<u8>::empty(),
    {
        let r = ArtifactHasher {
            hasher: DefaultHasher::new(),
            pending: Vec::new(),
            content: Ghost(Seq::empty()),
        };
        assert(r.hasher@ =~= full_blocks(r.content@, 0));
        assert(r.pending@ =~= r.content@.subrange(0, 0));
        r
    }

    /// Feeds `data`, the next bytes of the content.
    pub fn update(&mut self, data: &[u8])
        requires
            old(self).wf(),
        ensures
            final(self).wf(),
            final(self).content() == old(self).content() + data@,
    {
        let ghost start = self.content@;
        let mut i: usize = 0;
        while i < data.len()
            invariant
                self.wf(),
                i <= data@.len(),
                self.content@ == start + data@.subrange(0, i as int),
            decreases data@.len() - i,
        {
            let ghost before = self.content@;
            let ghost k = self.hasher@.len();
            self.pending.push(data[i]);
            self.content = Ghost(self.content@.push(data[i as int]));
            assert(self.content@ =~= start + data@.subrange(0, i + 1));
            assert forall|j: int| 0 <= j < k implies #[trigger] block_at(self.content@, j)
                == block_at(before, j) by {
                assert(block_at(self.content@, j) =~= block_at(before, j));
            }
            assert(self.pending@ =~= self.content@.subrange(1024 * k as int, self.content@.len() as int));
            if self.pending.len() == BLOCK {
                let ghost blk = self.pending@;
                self.hasher.write(self.pending.as_slice());
                self.pending.clear();
                proof {
                    assert(blk == block_at(self.content@, k as int));
                    assert(self.hasher@ =~= full_blocks(self.content@, k + 1));
                    assert(self.pending@ =~= self.content@.subrange(
                        1024 * (k + 1) as int,
                        self.content@.len() as int,
                    ));
                }
            } else {
                assert(self.hasher@ =~= full_blocks(self.content@, k));
            }
            i = i + 1;
        }
        assert(data@.subrange(0, data@.len() as int) =~= data@);
    }

    /// The digest of everything fed: sixteen lowercase hex digits.
    pub fn finish(self) -> (r: String)
        requires
            self.wf(),
        ensures
            r@ == hex_digest(self.content()),
    {
        let ArtifactHasher { hasher, pending, content } = self;
        let mut hasher = hasher;
        let ghost k = hasher@.len();
        let ghost s = content@;
        proof {
            assert(s.len() / 1024 == k && s.len() % 1024 == pending@.len()) by (nonlinear_arith)
                requires
                    s.len() == 1024 * k + pending@.len(),
                    pending@.len() < 1024,
            ;
        }
        if pending.len() > 0 {
            hasher.write(pending.as_slice());
        }
        assert(hasher@ =~= blocks_of(s));
        let d = hasher.finish();
        let mut out = String::new();
        push_fixed_digits(&mut out, d, 16, 16);
        assert(out@ =~= hex_digest(s));
        out
    }
}

/// Two contents of the same bytes have the same digest, however each was split
/// into pieces when it was fed.
pub proof fn lemma_digest_by_content(pieces_a: Seq<Seq<u8>>, pieces_b: Seq<Seq<u8>>)
    requires
        pieces_a.flatten() == pieces_b.flatten(),
    ensures
        hex_digest(pieces_a.flatten()) == hex_digest(pieces_b.flatten()),
{
}

} // verus!
