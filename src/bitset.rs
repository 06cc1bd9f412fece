use vstd::prelude::*;

verus! {

/// Whether bit `i` of `x` is set.
pub open spec fn bit(x: u32, i: int) -> bool {
    0 <= i < 32 && (x >> (i as u32)) & 1u32 == 1u32
}

/// The indices of the set bits of `x`.
pub open spec fn bits_of(x: u32) -> Set<int> {
    Set::new(|i: int| bit(x, i))
}

/// `i` is the smallest element of `s`.
pub open spec fn is_least(s: Set<int>, i: int) -> bool {
    s.contains(i) && forall|j: int| #[trigger] s.contains(j) ==> i <= j
}

/// The entries that list bits `i..` of `x`, up to its highest set bit: `"1, "`
/// for a set bit and `"0, "` for a clear one.
pub open spec fn entries_from(x: u32, i: nat) -> Seq<char>
    decreases 32 - i,
{
    if i >= 32 || x >> (i as u32) == 0 {
        Seq::empty()
    } else {
        (if bit(x, i as int) {
            "1, "@
        } else {
            "0, "@
        }) + entries_from(x, i + 1)
    }
}

/// The text of a mask: its bits from the lowest up to the highest set one.
pub open spec fn bitset_text(x: u32) -> Seq<char> {
    "BitSet["@ + entries_from(x, 0) + "zeros]"@
}

proof fn lemma_shift_step(x: u32, i: u32)
    by (bit_vector)
    requires
        i < 32,
    ensures
        (x >> i) >> 1u32 == x >> (i + 1),
        ((x >> i) & 1u32 != 0u32) == ((x >> i) & 1u32 == 1u32),
        i == 31 ==> (x >> i) >> 1u32 == 0u32,
        x >> 0u32 == x,
{
}

/// All indices a 32-bit mask can hold.
pub open spec fn all_bits() -> Set<int> {
    Set::new(|i: int| 0 <= i < 32)
}

proof fn lemma_zero()
    by (bit_vector)
    ensures
        forall|i: u32| i < 32 ==> #[trigger] ((0u32 >> i) & 1u32) == 0u32,
{
}

proof fn lemma_one_shifted()
    by (bit_vector)
    ensures
        forall|i: u32, j: u32|
            i < 32 && j < 32 ==> ((#[trigger] ((1u32 << j) >> i) & 1u32) == 1u32 <==> i == j),
{
}

proof fn lemma_or()
    by (bit_vector)
    ensures
        forall|x: u32, y: u32, i: u32|
            i < 32 ==> ((#[trigger] ((x | y) >> i) & 1u32) == 1u32 <==> ((x >> i) & 1u32 == 1u32
                || (y >> i) & 1u32 == 1u32)),
{
}

proof fn lemma_and()
    by (bit_vector)
    ensures
        forall|x: u32, y: u32, i: u32|
            i < 32 ==> ((#[trigger] ((x & y) >> i) & 1u32) == 1u32 <==> ((x >> i) & 1u32 == 1u32
                && (y >> i) & 1u32 == 1u32)),
{
}

proof fn lemma_not()
    by (bit_vector)
    ensures
        forall|x: u32, i: u32|
            i < 32 ==> ((#[trigger] ((!x) >> i) & 1u32) == 1u32 <==> (x >> i) & 1u32 != 1u32),
{
}

proof fn lemma_test(x: u32, i: u32)
    by (bit_vector)
    requires
        i < 32,
    ensures
        (x & (1u32 << i) != 0u32) == ((x >> i) & 1u32 == 1u32),
{
}

/// A mask without bits is zero.
proof fn lemma_no_bits(x: u32)
    requires
        bits_of(x) == Set::<int>::empty(),
    ensures
        x == 0,
{
    assert forall|i: u32| i < 32 implies (x >> i) & 1u32 != 1u32 by {
        assert(!bits_of(x).contains(i as int));
        assert(!bit(x, i as int));
    }
    assert(x == 0) by (bit_vector)
        requires
            (x >> 0u32) & 1u32 != 1u32,
            (x >> 1u32) & 1u32 != 1u32,
            (x >> 2u32) & 1u32 != 1u32,
            (x >> 3u32) & 1u32 != 1u32,
            (x >> 4u32) & 1u32 != 1u32,
            (x >> 5u32) & 1u32 != 1u32,
            (x >> 6u32) & 1u32 != 1u32,
            (x >> 7u32) & 1u32 != 1u32,
            (x >> 8u32) & 1u32 != 1u32,
            (x >> 9u32) & 1u32 != 1u32,
            (x >> 10u32) & 1u32 != 1u32,
            (x >> 11u32) & 1u32 != 1u32,
            (x >> 12u32) & 1u32 != 1u32,
            (x >> 13u32) & 1u32 != 1u32,
            (x >> 14u32) & 1u32 != 1u32,
            (x >> 15u32) & 1u32 != 1u32,
            (x >> 16u32) & 1u32 != 1u32,
            (x >> 17u32) & 1u32 != 1u32,
            (x >> 18u32) & 1u32 != 1u32,
            (x >> 19u32) & 1u32 != 1u32,
            (x >> 20u32) & 1u32 != 1u32,
            (x >> 21u32) & 1u32 != 1u32,
            (x >> 22u32) & 1u32 != 1u32,
            (x >> 23u32) & 1u32 != 1u32,
            (x >> 24u32) & 1u32 != 1u32,
            (x >> 25u32) & 1u32 != 1u32,
            (x >> 26u32) & 1u32 != 1u32,
            (x >> 27u32) & 1u32 != 1u32,
            (x >> 28u32) & 1u32 != 1u32,
            (x >> 29u32) & 1u32 != 1u32,
            (x >> 30u32) & 1u32 != 1u32,
            (x >> 31u32) & 1u32 != 1u32,
    ;
}

/// A set of indices in `0..32`, stored as the bits of a `u32`.
#[derive(Clone, Copy, Debug, Eq, Hash, PartialEq, Structural)]
pub struct BitSet(pub u32);

impl View for BitSet {
    type V = Set<int>;

    open spec fn view(&self) -> Set<int> {
        bits_of(self.0)
    }
}

impl BitSet {
    /// The empty set.
    pub fn zero() -> (r: BitSet)
        ensures
            r@ == Set::<int>::empty(),
    {
        proof {
            lemma_zero();
            assert(bits_of(0u32) =~= Set::<int>::empty());
        }
        BitSet(0)
    }

    /// The set of the three given indices.
    pub fn from_3bits(b0: usize, b1: usize, b2: usize) -> (r: BitSet)
        requires
            b0 < 32,
            b1 < 32,
            b2 < 32,
        ensures
            r@ == set![b0 as int, b1 as int, b2 as int],
    {
        let r = BitSet(1u32 << (b0 as u32) | 1u32 << (b1 as u32) | 1u32 << (b2 as u32));
        proof {
            lemma_or();
            lemma_one_shifted();
            assert(r@ =~= set![b0 as int, b1 as int, b2 as int]);
        }
        r
    }

    /// The set of the four given indices.
    pub fn from_4bits(b0: usize, b1: usize, b2: usize, b3: usize) -> (r: BitSet)
        requires
            b0 < 32,
            b1 < 32,
            b2 < 32,
            b3 < 32,
        ensures
            r@ == set![b0 as int, b1 as int, b2 as int, b3 as int],
    {
        let r = BitSet(
            1u32 << (b0 as u32) | 1u32 << (b1 as u32) | 1u32 << (b2 as u32) | 1u32 << (b3 as u32),
        );
        proof {
            lemma_or();
            lemma_one_shifted();
            assert(r@ =~= set![b0 as int, b1 as int, b2 as int, b3 as int]);
        }
        r
    }

    /// Adds `index` to the set.
    pub fn set(&mut self, index: usize)
        requires
            index < 32,
        ensures
            final(self)@ == old(self)@.insert(index as int),
    {
        self.0 = self.0 | 1u32 << (index as u32);
        proof {
            lemma_or();
            lemma_one_shifted();
            assert(final(self)@ =~= old(self)@.insert(index as int));
        }
    }

    /// The union of both sets.
    pub fn merge(self, other: BitSet) -> (r: BitSet)
        ensures
            r@ == self@.union(other@),
    {
        let r = BitSet(self.0 | other.0);
        proof {
            lemma_or();
            assert(r@ =~= self@.union(other@));
        }
        r
    }

    /// The intersection of both sets.
    pub fn intersect(self, other: BitSet) -> (r: BitSet)
        ensures
            r@ == self@.intersect(other@),
    {
        let r = BitSet(self.0 & other.0);
        proof {
            lemma_and();
            assert(r@ =~= self@.intersect(other@));
        }
        r
    }

    /// Whether `index` is in the set.
    pub fn get(self, index: usize) -> (r: bool)
        requires
            index < 32,
        ensures
            r == self@.contains(index as int),
    {
        proof {
            lemma_test(self.0, index as u32);
        }
        (self.0 & (1u32 << (index as u32))) != 0
    }

    /// Whether the set is empty.
    pub fn empty(self) -> (r: bool)
        ensures
            r == (self@ == Set::<int>::empty()),
    {
        proof {
            if self.0 == 0 {
                lemma_zero();
                assert(self@ =~= Set::<int>::empty());
            } else if self@ == Set::<int>::empty() {
                lemma_no_bits(self.0);
            }
        }
        self.0 == 0
    }

    /// The set whose mask is `data`.
    pub fn from_u32(data: u32) -> (r: BitSet)
        ensures
            r.0 == data,
            r@ == bits_of(data),
    {
        BitSet(data)
    }

    /// The complement within `0..32`.
    pub fn invert(self) -> (r: BitSet)
        ensures
            r@ == all_bits().difference(self@),
    {
        let r = BitSet(!self.0);
        proof {
            lemma_not();
            assert(r@ =~= all_bits().difference(self@));
        }
        r
    }

    /// The number of elements.
    pub fn count(self) -> (r: usize)
        ensures
            self@.finite(),
            r == self@.len(),
    {
        let mut result: usize = 0;
        let mut p: usize = 0;
        let ghost mut seen: Set<int> = Set::empty();
        while p < 32
            invariant
                p <= 32,
                result <= p,
                seen.finite(),
                seen.len() == result,
                seen == Set::new(|i: int| 0 <= i < p && bit(self.0, i)),
            decreases 32 - p,
        {
            proof {
                lemma_test(self.0, p as u32);
            }
            if (self.0 & (1u32 << (p as u32))) != 0 {
                proof {
                    seen = seen.insert(p as int);
                }
                result += 1;
            }
            p += 1;
            proof {
                assert(seen =~= Set::new(|i: int| 0 <= i < p && bit(self.0, i)));
            }
        }
        proof {
            assert(seen =~= self@);
        }
        result
    }

    /// The smallest element, if there is one.
    pub fn lowest(self) -> (r: Option<usize>)
        ensures
            r is None <==> self@ == Set::<int>::empty(),
            r matches Some(i) ==> i < 32 && is_least(self@, i as int),
    {
        let mut p: usize = 0;
        while p < 32
            invariant
                p <= 32,
                forall|j: int| 0 <= j < p ==> !bit(self.0, j),
            decreases 32 - p,
        {
            proof {
                lemma_test(self.0, p as u32);
            }
            if (self.0 & (1u32 << (p as u32))) != 0 {
                assert(self@.contains(p as int));
                return Some(p);
            }
            p += 1;
        }
        proof {
            assert(self@ =~= Set::<int>::empty());
        }
        None
    }

    /// Removes the smallest element and returns it; `None` on the empty set,
    /// which stays as it is. Repeated calls give the elements in increasing
    /// order.
    pub fn next(&mut self) -> (r: Option<usize>)
        ensures
            old(self)@ == Set::<int>::empty() ==> r is None && *final(self) == *old(self),
            old(self)@ != Set::<int>::empty() ==> (r matches Some(i) && i < 32 && is_least(
                old(self)@,
                i as int,
            ) && final(self)@ == old(self)@.remove(i as int)),
    {
        match self.lowest() {
            None => None,
            Some(p) => {
                self.0 = self.0 & !(1u32 << (p as u32));
                proof {
                    lemma_and();
                    lemma_not();
                    lemma_one_shifted();
                    assert(final(self)@ =~= old(self)@.remove(p as int));
                }
                Some(p)
            },
        }
    }

    /// The bits from the lowest up to the highest set one, as text.
    pub fn to_string(&self) -> (r: String)
        ensures
            r@ == bitset_text(self.0),
    {
        let mut r = String::new();
        r.append("BitSet[");
        let mut val: u32 = self.0;
        let mut i: u32 = 0;
        proof {
            lemma_shift_step(self.0, 0);
        }
        while val != 0
            invariant
                i <= 32,
                val == (if i < 32 { self.0 >> i } else { 0u32 }),
                r@ + entries_from(self.0, i as nat) == "BitSet["@ + entries_from(self.0, 0),
            decreases 32 - i,
        {
            proof {
                lemma_shift_step(self.0, i);
            }
            if (val & 1) != 0 {
                r.append("1, ");
            } else {
                r.append("0, ");
            }
            val = val >> 1;
            proof {
                assert(entries_from(self.0, i as nat) == (if bit(self.0, i as int) {
                    "1, "@
                } else {
                    "0, "@
                }) + entries_from(self.0, (i + 1) as nat));
            }
            i = i + 1;
        }
        r.append("zeros]");
        r
    }

    /// The mask of the set.
    pub fn as_u32(self) -> (r: u32)
        ensures
            r == self.0,
    {
        self.0
    }
}

} // verus!
