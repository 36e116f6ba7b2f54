//! Capability sets: a 64-bit-backed set over the capability catalog, with the
//! full set algebra and ordered iteration over members.

use vstd::prelude::*;
use vstd::string::*;

use crate::bitops::{
    bit_set, lemma_bit_and, lemma_bit_andnot, lemma_bit_complement, lemma_bit_masked,
    lemma_bit_or, lemma_bit_single, lemma_bit_xor, lemma_bit_zero, lemma_mask_closure,
};
use crate::cap::{cap_at, lemma_cap_at_index, Cap, CAP_BITMASK, NUM_CAPS};

verus! {

/// A set of capabilities, stored as a bitmask.
///
/// Invariant ([`CapSet::wf`]): no bit outside the valid capability positions
/// is ever set in a value observable by a caller. Construction from a raw
/// integer masks unknown bits rather than failing.
#[derive(Clone, Copy, Debug, PartialEq, Eq, Hash, Structural)]
pub struct CapSet {
    bits: u64,
}

impl CapSet {
    /// The backing bitmask.
    pub closed spec fn bits(self) -> u64 {
        self.bits
    }

    /// Well-formedness: only valid capability positions are set.
    pub open spec fn wf(self) -> bool {
        self.bits() & CAP_BITMASK == self.bits()
    }

    /// Whether the set contains a capability.
    pub open spec fn spec_has(self, c: Cap) -> bool {
        bit_set(self.bits(), c.spec_index())
    }

    /// The number of capabilities in the set.
    pub open spec fn spec_size(self) -> nat {
        members_from(self.bits(), 0).len()
    }

    /// The set whose bitmask is `bits` (meaningful when `bits` has no bit
    /// outside the valid capability positions).
    pub closed spec fn from_bits(bits: u64) -> CapSet {
        CapSet { bits }
    }

    /// The bitmask of [`CapSet::from_bits`] is its argument.
    pub broadcast proof fn lemma_from_bits(bits: u64)
        ensures
            (#[trigger] CapSet::from_bits(bits)).bits() == bits,
    {
    }

    /// Two sets with the same bitmask are the same set.
    pub proof fn lemma_bits_inj(a: CapSet, b: CapSet)
        requires
            a.bits() == b.bits(),
        ensures
            a == b,
    {
    }

    /// Create an empty capability set.
    pub fn empty() -> (r: Self)
        ensures
            r.bits() == 0,
            r.wf(),
            forall|c: Cap| !r.spec_has(c),
    {
        proof {
            lemma_mask_closure(0, 0, 0);
            assert forall|c: Cap| !bit_set(0, c.spec_index()) by {
                lemma_cap_at_index(c);
                lemma_bit_zero(c.spec_index());
            }
        }
        Self { bits: 0 }
    }

    /// Clear all capabilities from this set.
    ///
    /// After this call, `set.is_empty()` will return `true`.
    pub fn clear(&mut self)
        ensures
            final(self).bits() == 0,
            final(self).wf(),
            forall|c: Cap| !final(self).spec_has(c),
    {
        proof {
            lemma_mask_closure(0, 0, 0);
            assert forall|c: Cap| !bit_set(0, c.spec_index()) by {
                lemma_cap_at_index(c);
                lemma_bit_zero(c.spec_index());
            }
        }
        self.bits = 0;
    }

    /// Check if this capability set is empty.
    pub fn is_empty(&self) -> (r: bool)
        ensures
            r == (self.bits() == 0),
    {
        self.bits == 0
    }

    /// Returns the number of capabilities in this capability set.
    pub fn size(&self) -> (r: usize)
        ensures
            r == self.spec_size(),
    {
        self.iter().len()
    }

    /// Checks if a given capability is present in this set.
    pub fn has(&self, cap: Cap) -> (r: bool)
        ensures
            r == self.spec_has(cap),
    {
        self.bits & cap.to_single_bitfield() != 0
    }

    /// Adds the given capability to this set.
    pub fn add(&mut self, cap: Cap)
        ensures
            final(self).bits() == old(self).bits() | (1u64 << cap.spec_index()),
            old(self).wf() ==> final(self).wf(),
            forall|c: Cap| final(self).spec_has(c) == (old(self).spec_has(c) || c == cap),
    {
        let ghost a = self.bits();
        let ghost j = cap.spec_index();
        proof {
            lemma_cap_at_index(cap);
            lemma_mask_closure(a, 0, j);
            assert forall|c: Cap|
                bit_set(a | (1u64 << j), c.spec_index()) == (bit_set(a, c.spec_index()) || c
                    == cap) by {
                lemma_cap_at_index(c);
                lemma_bit_or(a, 1u64 << j, c.spec_index());
                lemma_bit_single(c.spec_index(), j);
            }
        }
        self.bits |= cap.to_single_bitfield();
    }

    /// Removes the given capability from this set.
    pub fn drop(&mut self, cap: Cap)
        ensures
            final(self).bits() == old(self).bits() & !(1u64 << cap.spec_index()),
            old(self).wf() ==> final(self).wf(),
            forall|c: Cap| final(self).spec_has(c) == (old(self).spec_has(c) && c != cap),
    {
        let ghost a = self.bits();
        let ghost j = cap.spec_index();
        proof {
            lemma_cap_at_index(cap);
            lemma_mask_closure(a, 0, j);
            assert forall|c: Cap|
                bit_set(a & !(1u64 << j), c.spec_index()) == (bit_set(a, c.spec_index()) && c
                    != cap) by {
                lemma_cap_at_index(c);
                lemma_bit_andnot(a, 1u64 << j, c.spec_index());
                lemma_bit_single(c.spec_index(), j);
            }
        }
        self.bits &= !cap.to_single_bitfield();
    }

    /// If `val` is `true` the given capability is added; otherwise it is removed.
    pub fn set_state(&mut self, cap: Cap, val: bool)
        ensures
            old(self).wf() ==> final(self).wf(),
            forall|c: Cap|
                final(self).spec_has(c) == (if c == cap {
                    val
                } else {
                    old(self).spec_has(c)
                }),
    {
        if val {
            self.add(cap);
        } else {
            self.drop(cap);
        }
    }

    /// Adds all of the capabilities in the given slice to this set.
    ///
    /// To add all the capabilities of another capability set, use
    /// `set1 = set1.union(set2)` instead: element-wise addition and whole-set
    /// union are different operations on different argument types.
    pub fn add_all(&mut self, caps: &[Cap])
        ensures
            old(self).wf() ==> final(self).wf(),
            forall|c: Cap|
                final(self).spec_has(c) == (old(self).spec_has(c) || caps@.contains(c)),
    {
        let ghost orig = *self;
        let mut k: usize = 0;
        while k < caps.len()
            invariant
                k <= caps.len(),
                orig.wf() ==> self.wf(),
                forall|c: Cap|
                    self.spec_has(c) == (orig.spec_has(c) || caps@.take(k as int).contains(c)),
            decreases caps.len() - k,
        {
            let ghost pre = *self;
            let ghost kk = k as int;
            self.add(caps[k]);
            k += 1;
            proof {
                assert forall|c: Cap|
                    self.spec_has(c) == (orig.spec_has(c) || caps@.take(k as int).contains(
                        c,
                    )) by {
                    lemma_take_one_more(caps@, kk, c);
                    assert(pre.spec_has(c) == (orig.spec_has(c) || caps@.take(kk).contains(c)));
                    assert(self.spec_has(c) == (pre.spec_has(c) || c == caps@[kk]));
                    assert(k as int == kk + 1);
                }
            }
        }
        proof {
            assert(caps@.take(caps@.len() as int) =~= caps@);
        }
    }

    /// Removes all of the capabilities in the given slice from this set.
    ///
    /// To remove all the capabilities of another capability set, use
    /// `set1 = set1.difference(set2)` instead: element-wise removal and
    /// whole-set difference are different operations on different argument
    /// types.
    pub fn drop_all(&mut self, caps: &[Cap])
        ensures
            old(self).wf() ==> final(self).wf(),
            forall|c: Cap|
                final(self).spec_has(c) == (old(self).spec_has(c) && !caps@.contains(c)),
    {
        let ghost orig = *self;
        let mut k: usize = 0;
        while k < caps.len()
            invariant
                k <= caps.len(),
                orig.wf() ==> self.wf(),
                forall|c: Cap|
                    self.spec_has(c) == (orig.spec_has(c) && !caps@.take(k as int).contains(c)),
            decreases caps.len() - k,
        {
            let ghost pre = *self;
            let ghost kk = k as int;
            self.drop(caps[k]);
            k += 1;
            proof {
                assert forall|c: Cap|
                    self.spec_has(c) == (orig.spec_has(c) && !caps@.take(k as int).contains(
                        c,
                    )) by {
                    lemma_take_one_more(caps@, kk, c);
                    assert(pre.spec_has(c) == (orig.spec_has(c) && !caps@.take(kk).contains(
                        c,
                    )));
                    assert(self.spec_has(c) == (pre.spec_has(c) && c != caps@[kk]));
                    assert(k as int == kk + 1);
                }
            }
        }
        proof {
            assert(caps@.take(caps@.len() as int) =~= caps@);
        }
    }

    /// Build a capability set from a fixed list of capabilities.
    pub fn from_caps(caps: &[Cap]) -> (r: Self)
        ensures
            r.wf(),
            forall|c: Cap| r.spec_has(c) == caps@.contains(c),
    {
        let mut r = Self::empty();
        r.add_all(caps);
        r
    }

    /// Returns an iterator over all of the capabilities in this set.
    pub fn iter(&self) -> (r: CapSetIterator)
        ensures
            r.set_bits() == self.bits(),
            r.cursor() == 0,
            r.wf(),
    {
        CapSetIterator { set: *self, i: 0 }
    }

    /// Returns the union of this set and another capability set: all the
    /// capabilities that are in either set.
    pub fn union(&self, other: Self) -> (r: Self)
        ensures
            r.bits() == self.bits() | other.bits(),
            self.wf() && other.wf() ==> r.wf(),
            forall|c: Cap| r.spec_has(c) == (self.spec_has(c) || other.spec_has(c)),
    {
        proof {
            lemma_mask_closure(self.bits(), other.bits(), 0);
            assert forall|c: Cap|
                bit_set(self.bits() | other.bits(), c.spec_index()) == (bit_set(
                    self.bits(),
                    c.spec_index(),
                ) || bit_set(other.bits(), c.spec_index())) by {
                lemma_cap_at_index(c);
                lemma_bit_or(self.bits(), other.bits(), c.spec_index());
            }
        }
        Self { bits: self.bits | other.bits }
    }

    /// Returns the intersection of this set and another capability set: all
    /// the capabilities that are in both sets.
    pub fn intersection(&self, other: Self) -> (r: Self)
        ensures
            r.bits() == self.bits() & other.bits(),
            self.wf() && other.wf() ==> r.wf(),
            forall|c: Cap| r.spec_has(c) == (self.spec_has(c) && other.spec_has(c)),
    {
        proof {
            lemma_mask_closure(self.bits(), other.bits(), 0);
            assert forall|c: Cap|
                bit_set(self.bits() & other.bits(), c.spec_index()) == (bit_set(
                    self.bits(),
                    c.spec_index(),
                ) && bit_set(other.bits(), c.spec_index())) by {
                lemma_cap_at_index(c);
                lemma_bit_and(self.bits(), other.bits(), c.spec_index());
            }
        }
        Self { bits: self.bits & other.bits }
    }

    /// Returns the complement of this set, truncated to the valid capability
    /// positions: the complement of the full set is the empty set, never a
    /// set with ones in unused high bits.
    pub fn complement(&self) -> (r: Self)
        ensures
            r.bits() == !self.bits() & CAP_BITMASK,
            r.wf(),
            forall|c: Cap| r.spec_has(c) == !self.spec_has(c),
    {
        proof {
            lemma_mask_closure(self.bits(), 0, 0);
            assert forall|c: Cap|
                bit_set(!self.bits() & CAP_BITMASK, c.spec_index()) == !bit_set(
                    self.bits(),
                    c.spec_index(),
                ) by {
                lemma_cap_at_index(c);
                lemma_bit_complement(self.bits(), c.spec_index());
            }
        }
        Self { bits: !self.bits & CAP_BITMASK }
    }

    /// Returns the symmetric difference of this set and another capability
    /// set: all the capabilities that are in exactly one of the two.
    pub fn xor(&self, other: Self) -> (r: Self)
        ensures
            r.bits() == self.bits() ^ other.bits(),
            self.wf() && other.wf() ==> r.wf(),
            forall|c: Cap| r.spec_has(c) == (self.spec_has(c) != other.spec_has(c)),
    {
        proof {
            lemma_mask_closure(self.bits(), other.bits(), 0);
            assert forall|c: Cap|
                bit_set(self.bits() ^ other.bits(), c.spec_index()) == (bit_set(
                    self.bits(),
                    c.spec_index(),
                ) != bit_set(other.bits(), c.spec_index())) by {
                lemma_cap_at_index(c);
                lemma_bit_xor(self.bits(), other.bits(), c.spec_index());
            }
        }
        Self { bits: self.bits ^ other.bits }
    }

    /// Returns the set difference of this set and another capability set:
    /// all the capabilities that are in this set but not in the other.
    pub fn difference(&self, other: Self) -> (r: Self)
        ensures
            r.bits() == self.bits() & !other.bits(),
            self.wf() ==> r.wf(),
            forall|c: Cap| r.spec_has(c) == (self.spec_has(c) && !other.spec_has(c)),
    {
        proof {
            lemma_mask_closure(self.bits(), other.bits(), 0);
            assert forall|c: Cap|
                bit_set(self.bits() & !other.bits(), c.spec_index()) == (bit_set(
                    self.bits(),
                    c.spec_index(),
                ) && !bit_set(other.bits(), c.spec_index())) by {
                lemma_cap_at_index(c);
                lemma_bit_andnot(self.bits(), other.bits(), c.spec_index());
            }
        }
        Self { bits: self.bits & !other.bits }
    }

    /// Build a capability set from a raw bitmask, silently discarding any
    /// bit outside the valid capability positions. Truncation rather than
    /// rejection keeps forward compatibility with kernels that expose more
    /// capabilities than this catalog knows.
    pub fn from_bitmask_truncate(bitmask: u64) -> (r: Self)
        ensures
            r.bits() == bitmask & CAP_BITMASK,
            r.wf(),
            forall|c: Cap| r.spec_has(c) == bit_set(bitmask, c.spec_index()),
    {
        proof {
            lemma_mask_closure(bitmask, 0, 0);
            assert forall|c: Cap|
                bit_set(bitmask & CAP_BITMASK, c.spec_index()) == bit_set(
                    bitmask,
                    c.spec_index(),
                ) by {
                lemma_cap_at_index(c);
                lemma_bit_masked(bitmask, c.spec_index());
            }
        }
        Self { bits: bitmask & CAP_BITMASK }
    }

    /// Build a capability set from the low and high 32-bit words of its
    /// bitmask, truncating invalid positions.
    pub(crate) fn from_bitmasks_u32(lower: u32, upper: u32) -> (r: Self)
        ensures
            r.bits() == (((upper as u64) << 32u64) | (lower as u64)) & CAP_BITMASK,
            r.wf(),
    {
        Self::from_bitmask_truncate(((upper as u64) << 32u64) | (lower as u64))
    }

    /// Render this set in set notation: `{}` for the empty set, otherwise
    /// the member names in ascending bit-position order, separated by a
    /// comma and a space, between braces.
    pub fn render(&self) -> (r: String)
        ensures
            r@ == render_spec(self.bits()),
    {
        let mut s = String::from_str("{");
        let mut first: bool = true;
        let mut j: u8 = 0;
        while j < NUM_CAPS
            invariant
                0 <= j as int <= 41,
                s@ + (if first {
                    render_first(self.bits(), j as int)
                } else {
                    render_rest(self.bits(), j as int)
                }) == "{"@ + render_first(self.bits(), 0),
            decreases 41 - j as int,
        {
            if self.bits & (1u64 << (j as u64)) != 0 {
                let cap = Cap::from_u8(j).unwrap();
                let ghost pre = s@;
                if first {
                    s.append(cap.name());
                    first = false;
                    proof {
                        assert((pre + cap.spec_name()) + render_rest(self.bits(), j as int + 1)
                            =~= pre + (cap.spec_name() + render_rest(
                            self.bits(),
                            j as int + 1,
                        )));
                    }
                } else {
                    s.append(", ");
                    s.append(cap.name());
                    proof {
                        assert(((pre + ", "@) + cap.spec_name()) + render_rest(
                            self.bits(),
                            j as int + 1,
                        ) =~= pre + ((", "@ + cap.spec_name()) + render_rest(
                            self.bits(),
                            j as int + 1,
                        )));
                    }
                }
            }
            j += 1;
        }
        proof {
            assert(s@ + Seq::<char>::empty() =~= s@);
        }
        s.append("}");
        s
    }

    /// The backing bitmask, as an executable value.
    pub(crate) fn bitmask(&self) -> (r: u64)
        ensures
            r == self.bits(),
    {
        self.bits
    }
}

impl Default for CapSet {
    /// The default capability set is empty.
    fn default() -> (r: Self)
        ensures
            r.bits() == 0,
            r.wf(),
    {
        Self::empty()
    }
}

/// Taking one more element of a sequence adds exactly that element to what
/// the prefix contains.
proof fn lemma_take_one_more(s: Seq<Cap>, k: int, c: Cap)
    requires
        0 <= k < s.len(),
    ensures
        s.take(k + 1).contains(c) == (s.take(k).contains(c) || c == s[k]),
{
    let pre = s.take(k);
    let post = s.take(k + 1);
    if pre.contains(c) {
        let w = choose|w: int| 0 <= w < pre.len() && pre[w] == c;
        assert(post[w] == c);
    }
    if c == s[k] {
        assert(post[k] == c);
    }
    if post.contains(c) {
        let w = choose|w: int| 0 <= w < post.len() && post[w] == c;
        if w < k {
            assert(pre[w] == c);
        } else {
            assert(c == s[k]);
        }
    }
}

/// The members of the set whose bitmask is `bits`, in ascending bit-position
/// order, starting from position `from`.
pub open spec fn members_from(bits: u64, from: int) -> Seq<Cap>
    decreases 41 - from,
{
    if !(0 <= from < 41) {
        Seq::empty()
    } else if bit_set(bits, from as u64) {
        seq![cap_at(from as u64)] + members_from(bits, from + 1)
    } else {
        members_from(bits, from + 1)
    }
}

/// A range of positions with no set bit contributes no members.
pub proof fn lemma_members_none(bits: u64, from: int)
    requires
        forall|k: u64| from <= k as int && k < 41 ==> !(#[trigger] bit_set(bits, k)),
    ensures
        members_from(bits, from).len() == 0,
    decreases 41 - from,
{
    if 0 <= from < 41 {
        lemma_members_none(bits, from + 1);
    }
}

/// The last member yielded by iteration from `from` is the member at the
/// highest set bit position at or above `from`.
pub proof fn lemma_members_last(bits: u64, from: int, h: int)
    requires
        0 <= from <= h < 41,
        bit_set(bits, h as u64),
        forall|k: u64| h < k as int && k < 41 ==> !(#[trigger] bit_set(bits, k)),
    ensures
        members_from(bits, from).len() > 0,
        members_from(bits, from).last() == cap_at(h as u64),
    decreases h - from,
{
    if from == h {
        lemma_members_none(bits, h + 1);
        assert(members_from(bits, from) =~= seq![cap_at(h as u64)]);
    } else {
        lemma_members_last(bits, from + 1, h);
    }
}

impl Cap {
    /// Returns an iterator over every capability in the catalog, in
    /// ascending bit-position order.
    pub fn iter() -> (r: CapSetIterator)
        ensures
            r.set_bits() == CAP_BITMASK,
            r.cursor() == 0,
            r.wf(),
    {
        let full = CapSet { bits: CAP_BITMASK };
        full.iter()
    }
}

/// An iterator over all the capabilities in a `CapSet`, in ascending
/// bit-position order. It is restartable: cloning it at any point yields an
/// independent traversal from the same position.
///
/// This is constructed by [`CapSet::iter()`].
#[derive(Clone)]
pub struct CapSetIterator {
    set: CapSet,
    i: u8,
}

impl CapSetIterator {
    /// The bitmask of the set being traversed.
    pub closed spec fn set_bits(self) -> u64 {
        self.set.bits()
    }

    /// The current cursor position: members below it have been yielded.
    pub closed spec fn cursor(self) -> int {
        self.i as int
    }

    /// The cursor never runs past the catalog.
    pub open spec fn wf(self) -> bool {
        0 <= self.cursor() <= 41
    }

    /// The members not yet yielded, in ascending bit-position order.
    pub open spec fn remaining(self) -> Seq<Cap> {
        members_from(self.set_bits(), self.cursor())
    }

    /// Yields the next member at or above the cursor, advancing the cursor
    /// just past it; yields nothing when no set bit remains.
    pub fn next(&mut self) -> (r: Option<Cap>)
        requires
            old(self).wf(),
        ensures
            final(self).set_bits() == old(self).set_bits(),
            final(self).wf(),
            old(self).remaining().len() > 0 ==> {
                &&& r == Some(old(self).remaining()[0])
                &&& final(self).remaining() == old(self).remaining().drop_first()
            },
            old(self).remaining().len() == 0 ==> r is None && final(self).remaining().len()
                == 0,
    {
        let ghost start = self.i as int;
        let mut j: u8 = self.i;
        while j < NUM_CAPS
            invariant
                start == old(self).cursor(),
                start <= j as int <= 41,
                self == old(self),
                members_from(self.set_bits(), start) == members_from(self.set_bits(), j as int),
            decreases 41 - j as int,
        {
            if self.set.bits & (1u64 << (j as u64)) != 0 {
                let cap = Cap::from_u8(j).unwrap();
                proof {
                    let bits = self.set_bits();
                    assert(members_from(bits, j as int) == seq![cap_at(j as u64)]
                        + members_from(bits, j as int + 1));
                    assert(members_from(bits, start)[0] == cap_at(j as u64));
                    assert(members_from(bits, start).drop_first() =~= members_from(
                        bits,
                        j as int + 1,
                    ));
                }
                self.i = j + 1;
                return Some(cap);
            }
            j += 1;
        }
        proof {
            assert(members_from(self.set_bits(), 41).len() == 0);
        }
        self.i = NUM_CAPS;
        None
    }

    /// Without scanning to the end, yields the member at the highest set bit
    /// position at or above the cursor: the element a full traversal from
    /// here would yield last. Yields nothing when no set bit remains.
    pub fn last(self) -> (r: Option<Cap>)
        requires
            self.wf(),
        ensures
            self.remaining().len() > 0 ==> r == Some(self.remaining().last()),
            self.remaining().len() == 0 ==> r is None,
    {
        let mut j: u8 = NUM_CAPS;
        while j > self.i
            invariant
                self.i as int <= j as int <= 41,
                forall|k: u64| j <= k && k < 41 ==> !(#[trigger] bit_set(self.set_bits(), k)),
            decreases j as int,
        {
            j -= 1;
            if self.set.bits & (1u64 << (j as u64)) != 0 {
                proof {
                    lemma_members_last(self.set_bits(), self.i as int, j as int);
                }
                return Some(Cap::from_u8(j).unwrap());
            }
        }
        proof {
            lemma_members_none(self.set_bits(), self.i as int);
        }
        None
    }

    /// The number of members not yet yielded, computed without a full scan.
    pub fn len(&self) -> (r: usize)
        requires
            self.wf(),
        ensures
            r == self.remaining().len(),
    {
        let mut count: usize = 0;
        let mut j: u8 = self.i;
        while j < NUM_CAPS
            invariant
                self.i as int <= j as int <= 41,
                count <= j,
                count + members_from(self.set_bits(), j as int).len() == self.remaining().len(),
            decreases 41 - j as int,
        {
            if self.set.bits & (1u64 << (j as u64)) != 0 {
                count += 1;
            }
            j += 1;
        }
        count
    }

    /// The exact number of members a full traversal from here would yield.
    pub fn count(self) -> (r: usize)
        requires
            self.wf(),
        ensures
            r == self.remaining().len(),
    {
        self.len()
    }

    /// The exact lower and upper bounds on the number of members remaining:
    /// both equal [`CapSetIterator::len`].
    pub fn size_hint(&self) -> (r: (usize, Option<usize>))
        requires
            self.wf(),
        ensures
            r.0 == self.remaining().len(),
            r.1 == Some(self.remaining().len() as usize),
    {
        let len = self.len();
        (len, Some(len))
    }
}

/// The rendering of the members at or above position `from`, each preceded
/// by a comma-space separator.
pub open spec fn render_rest(bits: u64, from: int) -> Seq<char>
    decreases 41 - from,
{
    if !(0 <= from < 41) {
        Seq::empty()
    } else if bit_set(bits, from as u64) {
        ", "@ + cap_at(from as u64).spec_name() + render_rest(bits, from + 1)
    } else {
        render_rest(bits, from + 1)
    }
}

/// The rendering of the members at or above position `from`: the first bare,
/// later ones each preceded by a comma-space separator.
pub open spec fn render_first(bits: u64, from: int) -> Seq<char>
    decreases 41 - from,
{
    if !(0 <= from < 41) {
        Seq::empty()
    } else if bit_set(bits, from as u64) {
        cap_at(from as u64).spec_name() + render_rest(bits, from + 1)
    } else {
        render_first(bits, from + 1)
    }
}

/// The set-notation rendering of the set whose bitmask is `bits`: the member
/// names in ascending bit-position order, separated by a comma and a space,
/// between braces.
pub open spec fn render_spec(bits: u64) -> Seq<char> {
    "{"@ + render_first(bits, 0) + "}"@
}

/// Law: an empty set contains no capability.
pub proof fn lemma_empty_has_none(s: CapSet, c: Cap)
    requires
        s.bits() == 0,
    ensures
        !s.spec_has(c),
{
    lemma_cap_at_index(c);
    lemma_bit_zero(c.spec_index());
}

/// Law: adding a capability a set lacks and then dropping it restores the
/// set's bitmask exactly; in particular adding then dropping any capability
/// on the empty set yields the empty set again.
pub proof fn lemma_add_then_drop(s: CapSet, c: Cap)
    requires
        !s.spec_has(c),
    ensures
        (s.bits() | (1u64 << c.spec_index())) & !(1u64 << c.spec_index()) == s.bits(),
{
    lemma_cap_at_index(c);
    let a = s.bits();
    let i = c.spec_index();
    assert(a & (1u64 << i) == 0 ==> (a | (1u64 << i)) & !(1u64 << i) == a) by (bit_vector)
        requires i < 64;
}

/// Law: the union of a set and its truncated complement is the full set.
pub proof fn lemma_union_complement_full(s: CapSet)
    requires
        s.wf(),
    ensures
        s.bits() | (!s.bits() & CAP_BITMASK) == CAP_BITMASK,
{
    let a = s.bits();
    assert(a & 0x1FF_FFFF_FFFFu64 == a ==> (a | (!a & 0x1FF_FFFF_FFFFu64))
        == 0x1FF_FFFF_FFFFu64) by (bit_vector);
}

/// Law: the intersection of a set and its truncated complement is empty.
pub proof fn lemma_intersection_complement_empty(s: CapSet)
    ensures
        s.bits() & (!s.bits() & CAP_BITMASK) == 0,
{
    let a = s.bits();
    assert(a & (!a & 0x1FF_FFFF_FFFFu64) == 0) by (bit_vector);
}

/// Law: set difference equals intersection with the truncated complement,
/// `a - b == a & !b`.
pub proof fn lemma_difference_is_intersection_complement(a: CapSet, b: CapSet)
    requires
        a.wf(),
    ensures
        a.bits() & !b.bits() == a.bits() & (!b.bits() & CAP_BITMASK),
{
    let x = a.bits();
    let y = b.bits();
    assert(x & 0x1FF_FFFF_FFFFu64 == x ==> x & !y == x & (!y & 0x1FF_FFFF_FFFFu64))
        by (bit_vector);
}

} // verus!
