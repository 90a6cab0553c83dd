//! Seals and the codec between a set of seals and the kernel's bitmask.

use vstd::prelude::*;

verus! {

/// Kernel bit of the seal that forbids any further sealing.
pub const F_SEAL_SEAL: u32 = 0x0001;

/// Kernel bit of the seal that forbids shrinking.
pub const F_SEAL_SHRINK: u32 = 0x0002;

/// Kernel bit of the seal that forbids growing.
pub const F_SEAL_GROW: u32 = 0x0004;

/// Kernel bit of the seal that forbids writing.
pub const F_SEAL_WRITE: u32 = 0x0008;

/// All four seal bits together.
pub const F_SEAL_ALL: u32 = 0x000f;

/// Seal that can be applied to a memfd.
#[derive(Clone, Copy, Debug, Eq, Hash, PartialEq, Structural)]
pub enum FileSeal {
    /// File cannot be reduced in size (`F_SEAL_SHRINK`).
    SealShrink,
    /// File cannot be grown in size (`F_SEAL_GROW`).
    SealGrow,
    /// File cannot be written (`F_SEAL_WRITE`).
    SealWrite,
    /// File sealing cannot be further manipulated (`F_SEAL_SEAL`).
    SealSeal,
}

impl FileSeal {
    /// The kernel bit that stands for this seal.
    pub open spec fn bit(self) -> u32 {
        match self {
            FileSeal::SealSeal => F_SEAL_SEAL,
            FileSeal::SealShrink => F_SEAL_SHRINK,
            FileSeal::SealGrow => F_SEAL_GROW,
            FileSeal::SealWrite => F_SEAL_WRITE,
        }
    }

    /// Return the bit-wise flag value of this seal.
    pub fn bitflags(self) -> (r: u32)
        ensures
            r == self.bit(),
    {
        match self {
            FileSeal::SealSeal => F_SEAL_SEAL,
            FileSeal::SealShrink => F_SEAL_SHRINK,
            FileSeal::SealGrow => F_SEAL_GROW,
            FileSeal::SealWrite => F_SEAL_WRITE,
        }
    }
}

/// `bit` if `present`, else no bit at all.
pub open spec fn bit_if(present: bool, bit: u32) -> u32 {
    if present {
        bit
    } else {
        0
    }
}

/// The bitmask of a set of seals: the bit-wise OR of the bits of its members.
pub open spec fn encode(seals: Set<FileSeal>) -> u32 {
    bit_if(seals.contains(FileSeal::SealSeal), F_SEAL_SEAL) | bit_if(
        seals.contains(FileSeal::SealShrink),
        F_SEAL_SHRINK,
    ) | bit_if(seals.contains(FileSeal::SealGrow), F_SEAL_GROW) | bit_if(
        seals.contains(FileSeal::SealWrite),
        F_SEAL_WRITE,
    )
}

/// The set of seals of a bitmask: each seal whose bit is set. Bits that stand
/// for no seal are ignored.
pub open spec fn decode(bits: u32) -> Set<FileSeal> {
    Set::new(|seal: FileSeal| bits & seal.bit() != 0)
}

/// Convert a set of seals into a bitflags value.
pub fn seals_to_bitflags(seals: &SealSet) -> (r: u32)
    ensures
        r == encode(seals@),
{
    let mut bits: u32 = 0;
    if seals.contains(FileSeal::SealSeal) {
        bits = bits | FileSeal::SealSeal.bitflags();
    }
    let b1: u32 = bits;
    if seals.contains(FileSeal::SealShrink) {
        bits = bits | FileSeal::SealShrink.bitflags();
    }
    let b2: u32 = bits;
    if seals.contains(FileSeal::SealGrow) {
        bits = bits | FileSeal::SealGrow.bitflags();
    }
    let b3: u32 = bits;
    if seals.contains(FileSeal::SealWrite) {
        bits = bits | FileSeal::SealWrite.bitflags();
    }
    proof {
        let s1 = bit_if(seals@.contains(FileSeal::SealSeal), F_SEAL_SEAL);
        let s2 = bit_if(seals@.contains(FileSeal::SealShrink), F_SEAL_SHRINK);
        let s3 = bit_if(seals@.contains(FileSeal::SealGrow), F_SEAL_GROW);
        let s4 = bit_if(seals@.contains(FileSeal::SealWrite), F_SEAL_WRITE);
        assert(b1 == s1) by {
            assert(0u32 | 1u32 == 1u32) by (bit_vector);
        }
        assert(b2 == s1 | s2) by {
            assert(b1 | 0u32 == b1) by (bit_vector);
        }
        assert(b3 == s1 | s2 | s3) by {
            assert(b2 | 0u32 == b2) by (bit_vector);
        }
        assert(bits == s1 | s2 | s3 | s4) by {
            assert(b3 | 0u32 == b3) by (bit_vector);
        }
    }
    bits
}

/// Convert a bitflags value to a set of seals.
pub fn bitflags_to_seals(bitflags: u32) -> (r: SealSet)
    ensures
        r@ == decode(bitflags),
{
    let mut sset = SealSet::new();
    if bitflags & F_SEAL_SEAL != 0 {
        let _ = sset.insert(FileSeal::SealSeal);
    }
    if bitflags & F_SEAL_SHRINK != 0 {
        let _ = sset.insert(FileSeal::SealShrink);
    }
    if bitflags & F_SEAL_GROW != 0 {
        let _ = sset.insert(FileSeal::SealGrow);
    }
    if bitflags & F_SEAL_WRITE != 0 {
        let _ = sset.insert(FileSeal::SealWrite);
    }
    assert(sset@ =~= decode(bitflags));
    sset
}

/// Decoding what was encoded gives the set back: the four bits are
/// independent of each other.
pub proof fn lemma_decode_encode(seals: Set<FileSeal>)
    ensures
        decode(encode(seals)) == seals,
{
    let s1 = bit_if(seals.contains(FileSeal::SealSeal), F_SEAL_SEAL);
    let s2 = bit_if(seals.contains(FileSeal::SealShrink), F_SEAL_SHRINK);
    let s3 = bit_if(seals.contains(FileSeal::SealGrow), F_SEAL_GROW);
    let s4 = bit_if(seals.contains(FileSeal::SealWrite), F_SEAL_WRITE);
    assert(((s1 | s2 | s3 | s4) & 1 != 0) == (s1 != 0) && ((s1 | s2 | s3 | s4) & 2 != 0) == (s2
        != 0) && ((s1 | s2 | s3 | s4) & 4 != 0) == (s3 != 0) && ((s1 | s2 | s3 | s4) & 8 != 0) == (
    s4 != 0)) by (bit_vector)
        requires
            s1 == 0 || s1 == 1,
            s2 == 0 || s2 == 2,
            s3 == 0 || s3 == 4,
            s4 == 0 || s4 == 8,
    ;
    assert forall|seal: FileSeal| #[trigger]
        decode(encode(seals)).contains(seal) == seals.contains(seal) by {
        match seal {
            FileSeal::SealSeal => {},
            FileSeal::SealShrink => {},
            FileSeal::SealGrow => {},
            FileSeal::SealWrite => {},
        }
    }
    assert(decode(encode(seals)) =~= seals);
}

/// Encoding what was decoded gives the four seal bits of the bitmask back,
/// and drops every other bit.
pub proof fn lemma_encode_decode(bits: u32)
    ensures
        encode(decode(bits)) == bits & F_SEAL_ALL,
{
    let s1 = bit_if(bits & 1 != 0, 1);
    let s2 = bit_if(bits & 2 != 0, 2);
    let s3 = bit_if(bits & 4 != 0, 4);
    let s4 = bit_if(bits & 8 != 0, 8);
    assert(decode(bits).contains(FileSeal::SealSeal) == (bits & 1 != 0));
    assert(decode(bits).contains(FileSeal::SealShrink) == (bits & 2 != 0));
    assert(decode(bits).contains(FileSeal::SealGrow) == (bits & 4 != 0));
    assert(decode(bits).contains(FileSeal::SealWrite) == (bits & 8 != 0));
    assert(bits & 1 == 0 || bits & 1 == 1) by (bit_vector);
    assert(bits & 2 == 0 || bits & 2 == 2) by (bit_vector);
    assert(bits & 4 == 0 || bits & 4 == 4) by (bit_vector);
    assert(bits & 8 == 0 || bits & 8 == 8) by (bit_vector);
    assert(s1 | s2 | s3 | s4 == bits & 0xf) by (bit_vector)
        requires
            s1 == bits & 1,
            s2 == bits & 2,
            s3 == bits & 4,
            s4 == bits & 8,
    ;
}

/// Bits that stand for no seal are ignored: two bitmasks that agree on the
/// four seal bits decode to the same set.
pub proof fn lemma_decode_ignores_other_bits(a: u32, b: u32)
    requires
        a & F_SEAL_ALL == b & F_SEAL_ALL,
    ensures
        decode(a) == decode(b),
{
    lemma_encode_decode(a);
    lemma_encode_decode(b);
    lemma_decode_encode(decode(a));
    lemma_decode_encode(decode(b));
}

/// The bitmask of a union is the bit-wise OR of the two bitmasks: adding
/// seals that are already there changes nothing.
pub proof fn lemma_encode_union(a: Set<FileSeal>, b: Set<FileSeal>)
    ensures
        encode(a.union(b)) == encode(a) | encode(b),
{
    let a1 = bit_if(a.contains(FileSeal::SealSeal), F_SEAL_SEAL);
    let a2 = bit_if(a.contains(FileSeal::SealShrink), F_SEAL_SHRINK);
    let a3 = bit_if(a.contains(FileSeal::SealGrow), F_SEAL_GROW);
    let a4 = bit_if(a.contains(FileSeal::SealWrite), F_SEAL_WRITE);
    let b1 = bit_if(b.contains(FileSeal::SealSeal), F_SEAL_SEAL);
    let b2 = bit_if(b.contains(FileSeal::SealShrink), F_SEAL_SHRINK);
    let b3 = bit_if(b.contains(FileSeal::SealGrow), F_SEAL_GROW);
    let b4 = bit_if(b.contains(FileSeal::SealWrite), F_SEAL_WRITE);
    let u = a.union(b);
    let u1 = bit_if(u.contains(FileSeal::SealSeal), F_SEAL_SEAL);
    let u2 = bit_if(u.contains(FileSeal::SealShrink), F_SEAL_SHRINK);
    let u3 = bit_if(u.contains(FileSeal::SealGrow), F_SEAL_GROW);
    let u4 = bit_if(u.contains(FileSeal::SealWrite), F_SEAL_WRITE);
    assert(u1 == a1 | b1 && u2 == a2 | b2 && u3 == a3 | b3 && u4 == a4 | b4) by {
        assert(0u32 | 0u32 == 0u32 && 0u32 | 1u32 == 1u32 && 1u32 | 0u32 == 1u32 && 1u32 | 1u32
            == 1u32) by (bit_vector);
        assert(0u32 | 2u32 == 2u32 && 2u32 | 0u32 == 2u32 && 2u32 | 2u32 == 2u32) by (bit_vector);
        assert(0u32 | 4u32 == 4u32 && 4u32 | 0u32 == 4u32 && 4u32 | 4u32 == 4u32) by (bit_vector);
        assert(0u32 | 8u32 == 8u32 && 8u32 | 0u32 == 8u32 && 8u32 | 8u32 == 8u32) by (bit_vector);
    }
    assert((a1 | b1) | (a2 | b2) | (a3 | b3) | (a4 | b4) == (a1 | a2 | a3 | a4) | (b1 | b2 | b3
        | b4)) by (bit_vector);
}

/// Two sets of seals with the same members are the same value: a set holds
/// no order and no seal twice.
pub proof fn lemma_same_members(a: SealSet, b: SealSet)
    requires
        a@ == b@,
    ensures
        a == b,
{
    a.lemma_members_known();
    b.lemma_members_known();
}

/// What the codec's two functions do one after the other: the set that
/// `bitflags_to_seals` gives for the bitmask that `seals_to_bitflags` gives
/// for `seals` is `seals`.
pub proof fn lemma_codec_round_trip(seals: SealSet, back: SealSet)
    requires
        back@ == decode(encode(seals@)),
    ensures
        back == seals,
{
    lemma_decode_encode(seals@);
    lemma_same_members(back, seals);
}

/// A set of seals: each seal is in it or not, and in no order.
#[derive(Clone, Copy, Debug, Eq, Hash, PartialEq, Structural)]
pub struct SealSet {
    shrink: bool,
    grow: bool,
    write: bool,
    seal: bool,
}

impl View for SealSet {
    type V = Set<FileSeal>;

    closed spec fn view(&self) -> Set<FileSeal> {
        Set::new(
            |seal: FileSeal|
                match seal {
                    FileSeal::SealShrink => self.shrink,
                    FileSeal::SealGrow => self.grow,
                    FileSeal::SealWrite => self.write,
                    FileSeal::SealSeal => self.seal,
                },
        )
    }
}

impl SealSet {
    /// The empty set.
    pub fn new() -> (r: SealSet)
        ensures
            r@ == Set::<FileSeal>::empty(),
    {
        let r = SealSet { shrink: false, grow: false, write: false, seal: false };
        assert(r@ =~= Set::<FileSeal>::empty());
        r
    }

    /// Whether `seal` is in the set.
    pub fn contains(&self, seal: FileSeal) -> (r: bool)
        ensures
            r == self@.contains(seal),
    {
        match seal {
            FileSeal::SealShrink => self.shrink,
            FileSeal::SealGrow => self.grow,
            FileSeal::SealWrite => self.write,
            FileSeal::SealSeal => self.seal,
        }
    }

    /// Put `seal` into the set. Returns whether it was new to the set.
    pub fn insert(&mut self, seal: FileSeal) -> (r: bool)
        ensures
            final(self)@ == old(self)@.insert(seal),
            r == !old(self)@.contains(seal),
    {
        let was = self.contains(seal);
        match seal {
            FileSeal::SealShrink => {
                self.shrink = true;
            },
            FileSeal::SealGrow => {
                self.grow = true;
            },
            FileSeal::SealWrite => {
                self.write = true;
            },
            FileSeal::SealSeal => {
                self.seal = true;
            },
        }
        assert(self@ =~= old(self)@.insert(seal));
        !was
    }

    /// Whether the set holds no seal.
    pub fn is_empty(&self) -> (r: bool)
        ensures
            r == (self@ == Set::<FileSeal>::empty()),
    {
        let r = !self.shrink && !self.grow && !self.write && !self.seal;
        proof {
            if r {
                assert(self@ =~= Set::<FileSeal>::empty());
            } else {
                assert(self@.contains(FileSeal::SealShrink) || self@.contains(FileSeal::SealGrow)
                    || self@.contains(FileSeal::SealWrite) || self@.contains(FileSeal::SealSeal));
            }
        }
        r
    }

    /// The number of seals in the set.
    pub fn len(&self) -> (r: usize)
        ensures
            r == self@.len(),
            self@.finite(),
            r <= 4,
    {
        proof {
            self.lemma_as_inserts();
        }
        let mut n: usize = 0;
        if self.shrink {
            n = n + 1;
        }
        if self.grow {
            n = n + 1;
        }
        if self.write {
            n = n + 1;
        }
        if self.seal {
            n = n + 1;
        }
        n
    }

    /// The set that holds exactly the seals of `seals`, however often and in
    /// whatever order they stand there.
    pub fn from_slice(seals: &[FileSeal]) -> (r: SealSet)
        ensures
            r@ == seals@.to_set(),
    {
        let mut set = SealSet::new();
        let mut i: usize = 0;
        while i < seals.len()
            invariant
                i <= seals.len(),
                set@ == seals@.take(i as int).to_set(),
            decreases seals.len() - i,
        {
            let _ = set.insert(seals[i]);
            proof {
                let next = seals@.take(i + 1);
                assert(next.drop_last() =~= seals@.take(i as int));
                assert(next.last() == seals@[i as int]);
                assert(next.to_set() =~= seals@.take(i as int).to_set().insert(seals@[i as int])) by {
                    assert forall|k: FileSeal| #[trigger]
                        next.to_set().contains(k) <==> (k == seals@[i as int] || seals@.take(
                            i as int,
                        ).to_set().contains(k)) by {
                        if next.contains(k) {
                            let j = choose|j: int| 0 <= j < next.len() && next[j] == k;
                            if j < i {
                                assert(seals@.take(i as int)[j] == k);
                            }
                        }
                        if seals@.take(i as int).contains(k) {
                            let j = choose|j: int|
                                0 <= j < seals@.take(i as int).len() && seals@.take(i as int)[j]
                                    == k;
                            assert(next[j] == k);
                        }
                        if k == seals@[i as int] {
                            assert(next[i as int] == k);
                        }
                    }
                }
            }
            i = i + 1;
        }
        assert(seals@.take(i as int) =~= seals@);
        set
    }

    /// The seals of the set, each once, in the order shrink, grow, write, seal.
    pub fn to_vec(&self) -> (r: Vec<FileSeal>)
        ensures
            r@.no_duplicates(),
            r@.to_set() == self@,
            r@ == members(self@),
    {
        let mut out: Vec<FileSeal> = Vec::new();
        if self.shrink {
            out.push(FileSeal::SealShrink);
        }
        if self.grow {
            out.push(FileSeal::SealGrow);
        }
        if self.write {
            out.push(FileSeal::SealWrite);
        }
        if self.seal {
            out.push(FileSeal::SealSeal);
        }
        proof {
            lemma_members(self@);
            assert(out@ =~= members(self@));
        }
        out
    }

    /// Each field says whether its seal is in the set.
    proof fn lemma_members_known(self)
        ensures
            self.shrink == self@.contains(FileSeal::SealShrink),
            self.grow == self@.contains(FileSeal::SealGrow),
            self.write == self@.contains(FileSeal::SealWrite),
            self.seal == self@.contains(FileSeal::SealSeal),
    {
    }

    /// The set is what remains after putting its members, one by one, into
    /// the empty set; so it is finite, and its size is their number.
    proof fn lemma_as_inserts(self)
        ensures
            self@.finite(),
            self@.len() == (if self.shrink {
                1nat
            } else {
                0
            }) + (if self.grow {
                1nat
            } else {
                0
            }) + (if self.write {
                1nat
            } else {
                0
            }) + (if self.seal {
                1nat
            } else {
                0
            }),
    {
        lemma_members(self@);
        let m = members(self@);
        m.unique_seq_to_set();
        vstd::seq_lib::seq_to_set_is_finite(m);
    }
}

/// `one` if `present`, else nothing.
pub open spec fn seq_if(present: bool, one: FileSeal) -> Seq<FileSeal> {
    if present {
        seq![one]
    } else {
        Seq::<FileSeal>::empty()
    }
}

/// The members of a set of seals in the order shrink, grow, write, seal.
pub open spec fn members(seals: Set<FileSeal>) -> Seq<FileSeal> {
    seq_if(seals.contains(FileSeal::SealShrink), FileSeal::SealShrink) + seq_if(
        seals.contains(FileSeal::SealGrow),
        FileSeal::SealGrow,
    ) + seq_if(seals.contains(FileSeal::SealWrite), FileSeal::SealWrite) + seq_if(
        seals.contains(FileSeal::SealSeal),
        FileSeal::SealSeal,
    )
}

/// `members` lists each member of the set once and nothing else.
pub proof fn lemma_members(seals: Set<FileSeal>)
    ensures
        members(seals).no_duplicates(),
        members(seals).to_set() == seals,
        members(seals).len() <= 4,
{
    let m = members(seals);
    assert forall|k: FileSeal| #[trigger] m.to_set().contains(k) <==> seals.contains(k) by {
        if seals.contains(k) {
            let a = seq_if(seals.contains(FileSeal::SealShrink), FileSeal::SealShrink);
            let b = seq_if(seals.contains(FileSeal::SealGrow), FileSeal::SealGrow);
            let c = seq_if(seals.contains(FileSeal::SealWrite), FileSeal::SealWrite);
            let d = seq_if(seals.contains(FileSeal::SealSeal), FileSeal::SealSeal);
            let j: int = match k {
                FileSeal::SealShrink => 0,
                FileSeal::SealGrow => a.len() as int,
                FileSeal::SealWrite => (a.len() + b.len()) as int,
                FileSeal::SealSeal => (a.len() + b.len() + c.len()) as int,
            };
            assert(m[j] == k);
        }
    }
    assert(m.to_set() =~= seals);
}

} // verus!
