//! A 64-bit set over the squares of the board.

use vstd::prelude::*;
use crate::square::Square;

verus! {

/// A 64-bit mask over the board: bit `i` set means square `i` is a member.
///
/// Any 64-bit pattern is a legal value; the raw mask is exposed so that
/// constant layouts can be built from literals.
#[derive(Debug, Clone, Copy, PartialEq, Eq, Hash, Structural)]
pub struct BitBoard(pub u64);

impl BitBoard {
    /// Whether bit `i` of the mask is set.
    pub open spec fn spec_get(self, i: u64) -> bool
        recommends
            i < 64,
    {
        (self.0 >> i) & 1 == 1
    }

    /// Membership test for the square's bit.
    pub fn get(&self, square: Square) -> (r: bool)
        requires
            square.wf(),
        ensures
            r == self.spec_get(square@ as u64),
    {
        (self.0 >> (square.raw_index() as u64)) & 1 == 1
    }

    /// Set or clear the square's bit, leaving every other bit unchanged.
    pub fn set(&mut self, square: Square, value: bool)
        requires
            square.wf(),
        ensures
            final(self).spec_get(square@ as u64) == value,
            forall|i: u64|
                i < 64 && i != square@ as u64 ==> final(self).spec_get(i) == old(
                    self,
                ).spec_get(i),
    {
        let idx = square.raw_index() as u64;
        if value {
            proof {
                lemma_set_bit(self.0, idx);
            }
            self.0 = self.0 | (1u64 << idx);
        } else {
            proof {
                lemma_clear_bit(self.0, idx);
            }
            self.0 = self.0 & !(1u64 << idx);
        }
    }

    /// The member indices of the mask below `n`, in increasing order.
    pub open spec fn spec_members_below(self, n: int) -> Seq<u8>
        decreases n,
    {
        if n <= 0 {
            Seq::empty()
        } else {
            self.spec_members_below(n - 1) + if self.spec_get((n - 1) as u64) {
                seq![(n - 1) as u8]
            } else {
                Seq::empty()
            }
        }
    }

    /// The member squares of the mask, in increasing index order.
    pub fn squares(&self) -> (r: Vec<Square>)
        ensures
            r@.map_values(|sq: Square| sq@) == self.spec_members_below(64),
            forall|j: int| 0 <= j < r@.len() ==> (#[trigger] r@[j]).wf(),
    {
        let mut out: Vec<Square> = Vec::new();
        let mut i: u8 = 0;
        while i < 64
            invariant
                i <= 64,
                out@.map_values(|sq: Square| sq@) == self.spec_members_below(i as int),
                forall|j: int| 0 <= j < out@.len() ==> (#[trigger] out@[j]).wf(),
            decreases 64 - i,
        {
            let sq = Square::from_index_unchecked(i);
            if self.get(sq) {
                out.push(sq);
            }
            proof {
                assert(out@.map_values(|sq: Square| sq@) =~= self.spec_members_below(i + 1));
            }
            i = i + 1;
        }
        out
    }

    /// Intersection of the two masks.
    pub fn and(self, other: BitBoard) -> (r: BitBoard)
        ensures
            r.0 == self.0 & other.0,
            forall|i: u64|
                i < 64 ==> r.spec_get(i) == (self.spec_get(i) && other.spec_get(i)),
    {
        proof {
            lemma_pointwise(self.0, other.0);
        }
        BitBoard(self.0 & other.0)
    }

    /// Union of the two masks.
    pub fn or(self, other: BitBoard) -> (r: BitBoard)
        ensures
            r.0 == self.0 | other.0,
            forall|i: u64|
                i < 64 ==> r.spec_get(i) == (self.spec_get(i) || other.spec_get(i)),
    {
        proof {
            lemma_pointwise(self.0, other.0);
        }
        BitBoard(self.0 | other.0)
    }

    /// Symmetric difference of the two masks.
    pub fn xor(self, other: BitBoard) -> (r: BitBoard)
        ensures
            r.0 == self.0 ^ other.0,
            forall|i: u64|
                i < 64 ==> r.spec_get(i) == (self.spec_get(i) != other.spec_get(i)),
    {
        proof {
            lemma_pointwise(self.0, other.0);
        }
        BitBoard(self.0 ^ other.0)
    }

    /// Complement of the mask.
    pub fn complement(self) -> (r: BitBoard)
        ensures
            r.0 == !self.0,
            forall|i: u64| i < 64 ==> r.spec_get(i) == !self.spec_get(i),
    {
        proof {
            lemma_pointwise(self.0, 0);
        }
        BitBoard(!self.0)
    }
}

proof fn lemma_set_bit(x: u64, idx: u64)
    by (bit_vector)
    requires
        idx < 64,
    ensures
        ((x | (1u64 << idx)) >> idx) & 1 == 1,
        forall|i: u64|
            i < 64 && i != idx ==> ((x | (1u64 << idx)) >> i) & 1 == (x >> i) & 1,
{
}

proof fn lemma_clear_bit(x: u64, idx: u64)
    by (bit_vector)
    requires
        idx < 64,
    ensures
        ((x & !(1u64 << idx)) >> idx) & 1 == 0,
        forall|i: u64|
            i < 64 && i != idx ==> ((x & !(1u64 << idx)) >> i) & 1 == (x >> i) & 1,
{
}

proof fn lemma_pointwise(x: u64, y: u64)
    by (bit_vector)
    ensures
        forall|i: u64|
            i < 64 ==> ((((x & y) >> i) & 1 == 1) <==> (((x >> i) & 1 == 1) && ((y >> i) & 1
                == 1))),
        forall|i: u64|
            i < 64 ==> ((((x | y) >> i) & 1 == 1) <==> (((x >> i) & 1 == 1) || ((y >> i) & 1
                == 1))),
        forall|i: u64|
            i < 64 ==> ((((x ^ y) >> i) & 1 == 1) <==> (((x >> i) & 1 == 1) != ((y >> i) & 1
                == 1))),
        forall|i: u64| i < 64 ==> ((((!x) >> i) & 1 == 1) <==> !((x >> i) & 1 == 1)),
{
}

} // verus!
