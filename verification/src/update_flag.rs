//! The flags by which producers tell the renderer what changed.

use vstd::prelude::*;

verus! {

/// A category of viewer state whose change asks for new render resources.
#[derive(Clone, Copy, Debug, PartialEq, Eq, Structural)]
pub enum Flag {
    /// Width or height of the slice.
    SliceSize,
    /// Position or rotation of the slice.
    SlicePos,
    /// Number or positions of the sources.
    SourcePos,
    /// Amplitude or phase of a source.
    SourceDrive,
    /// Colour scale or slice opacity.
    ColorMap,
    /// Wavelength.
    Wavenum,
    /// Camera pose or projection.
    CameraPos,
    /// Opacity of the source markers.
    SourceAlpha,
}

impl Flag {
    /// The single bit that stands for this flag.
    pub open spec fn bit_spec(self) -> u8 {
        match self {
            Flag::SliceSize => 0x01,
            Flag::SlicePos => 0x02,
            Flag::SourcePos => 0x04,
            Flag::SourceDrive => 0x08,
            Flag::ColorMap => 0x10,
            Flag::Wavenum => 0x20,
            Flag::CameraPos => 0x40,
            Flag::SourceAlpha => 0x80,
        }
    }

    /// The single bit that stands for this flag.
    #[verifier::when_used_as_spec(bit_spec)]
    pub fn bit(self) -> (b: u8)
        ensures
            b == self.bit_spec(),
    {
        match self {
            Flag::SliceSize => 0x01,
            Flag::SlicePos => 0x02,
            Flag::SourcePos => 0x04,
            Flag::SourceDrive => 0x08,
            Flag::ColorMap => 0x10,
            Flag::Wavenum => 0x20,
            Flag::CameraPos => 0x40,
            Flag::SourceAlpha => 0x80,
        }
    }
}

/// Whether `b` has exactly one bit set.
pub open spec fn single_bit(b: u8) -> bool {
    b == 0x01 || b == 0x02 || b == 0x04 || b == 0x08 || b == 0x10 || b == 0x20 || b == 0x40
        || b == 0x80
}

/// A set of flags, kept as one byte.
#[derive(Clone, Copy, Debug, PartialEq, Eq, Structural)]
pub struct UpdateFlag {
    bits: u8,
}

impl View for UpdateFlag {
    type V = Set<Flag>;

    closed spec fn view(&self) -> Set<Flag> {
        Set::new(|f: Flag| self.bits & f.bit_spec() != 0)
    }
}

impl UpdateFlag {
    /// The byte that holds the set.
    pub closed spec fn bits_spec(self) -> u8 {
        self.bits
    }

    /// A flag is in the set exactly when its bit is set in the byte.
    pub proof fn lemma_view_bits(self, f: Flag)
        ensures
            #[trigger] self@.contains(f) <==> self.bits_spec() & f.bit_spec() != 0,
    {
    }

    /// Two sets with the same flags are the same value.
    pub proof fn lemma_view_injective(self, other: UpdateFlag)
        requires
            self@ == other@,
        ensures
            self == other,
    {
        let a = self.bits;
        let b = other.bits;
        self.lemma_view_bits(Flag::SliceSize);
        self.lemma_view_bits(Flag::SlicePos);
        self.lemma_view_bits(Flag::SourcePos);
        self.lemma_view_bits(Flag::SourceDrive);
        self.lemma_view_bits(Flag::ColorMap);
        self.lemma_view_bits(Flag::Wavenum);
        self.lemma_view_bits(Flag::CameraPos);
        self.lemma_view_bits(Flag::SourceAlpha);
        other.lemma_view_bits(Flag::SliceSize);
        other.lemma_view_bits(Flag::SlicePos);
        other.lemma_view_bits(Flag::SourcePos);
        other.lemma_view_bits(Flag::SourceDrive);
        other.lemma_view_bits(Flag::ColorMap);
        other.lemma_view_bits(Flag::Wavenum);
        other.lemma_view_bits(Flag::CameraPos);
        other.lemma_view_bits(Flag::SourceAlpha);
        assert(a == b) by (bit_vector)
            requires
                (a & 0x01 != 0) == (b & 0x01 != 0),
                (a & 0x02 != 0) == (b & 0x02 != 0),
                (a & 0x04 != 0) == (b & 0x04 != 0),
                (a & 0x08 != 0) == (b & 0x08 != 0),
                (a & 0x10 != 0) == (b & 0x10 != 0),
                (a & 0x20 != 0) == (b & 0x20 != 0),
                (a & 0x40 != 0) == (b & 0x40 != 0),
                (a & 0x80 != 0) == (b & 0x80 != 0),
        ;
    }

    /// The set with no flag.
    pub fn empty() -> (r: UpdateFlag)
        ensures
            r@ == Set::<Flag>::empty(),
            r.bits_spec() == 0,
    {
        let r = UpdateFlag { bits: 0 };
        proof {
            assert forall|f: Flag| !r@.contains(f) by {
                let b = f.bit_spec();
                assert(0u8 & b == 0) by (bit_vector);
            }
            assert(r@ =~= Set::<Flag>::empty());
        }
        r
    }

    /// The set with every flag: what a fresh viewer starts from.
    pub fn all() -> (r: UpdateFlag)
        ensures
            r@ == Set::<Flag>::full(),
            r.bits_spec() == 0xff,
    {
        let r = UpdateFlag { bits: 0xff };
        proof {
            assert forall|f: Flag| r@.contains(f) by {
                let b = f.bit_spec();
                assert(single_bit(b));
                assert(0xffu8 & b != 0) by (bit_vector)
                    requires
                        b == 0x01 || b == 0x02 || b == 0x04 || b == 0x08 || b == 0x10 || b == 0x20
                            || b == 0x40 || b == 0x80,
                ;
            }
            assert(r@ =~= Set::<Flag>::full());
        }
        r
    }

    /// The set that holds `flag` alone.
    pub fn of(flag: Flag) -> (r: UpdateFlag)
        ensures
            r@ == Set::<Flag>::empty().insert(flag),
            r.bits_spec() == flag.bit_spec(),
    {
        let mut r = UpdateFlag::empty();
        r.insert(flag);
        proof {
            let b = flag.bit_spec();
            assert(0u8 | b == b) by (bit_vector);
        }
        r
    }

    /// The byte that holds the set.
    pub fn bits(&self) -> (b: u8)
        ensures
            b == self.bits_spec(),
            forall|f: Flag| #[trigger] self@.contains(f) <==> b & f.bit_spec() != 0,
    {
        self.bits
    }

    /// The set that a byte holds; every byte is one.
    pub fn from_bits(bits: u8) -> (r: UpdateFlag)
        ensures
            r.bits_spec() == bits,
            forall|f: Flag| #[trigger] r@.contains(f) <==> bits & f.bit_spec() != 0,
    {
        UpdateFlag { bits }
    }

    /// Whether `flag` is in the set.
    pub fn contains(&self, flag: Flag) -> (r: bool)
        ensures
            r == self@.contains(flag),
    {
        self.bits & flag.bit() != 0
    }

    /// Whether no flag is in the set.
    pub fn is_empty(&self) -> (r: bool)
        ensures
            r == (self@ == Set::<Flag>::empty()),
    {
        proof {
            let e = UpdateFlag { bits: 0 };
            assert(e@ =~= Set::<Flag>::empty()) by {
                assert forall|f: Flag| !e@.contains(f) by {
                    let b = f.bit_spec();
                    assert(0u8 & b == 0) by (bit_vector);
                }
            }
            if self@ == Set::<Flag>::empty() {
                self.lemma_view_injective(e);
            }
        }
        self.bits == 0
    }

    /// Puts `flag` into the set.
    pub fn insert(&mut self, flag: Flag)
        ensures
            final(self)@ == old(self)@.insert(flag),
            final(self).bits_spec() == old(self).bits_spec() | flag.bit_spec(),
    {
        let ghost a = self.bits;
        let ghost b = flag.bit_spec();
        self.bits = self.bits | flag.bit();
        proof {
            assert forall|f: Flag| self@.contains(f) == old(self)@.insert(flag).contains(f) by {
                let c = f.bit_spec();
                assert(f == flag <==> c == b);
                assert(((a | b) & c != 0) == ((a & c != 0) || b == c)) by (bit_vector)
                    requires
                        b == 0x01 || b == 0x02 || b == 0x04 || b == 0x08 || b == 0x10 || b == 0x20
                            || b == 0x40 || b == 0x80,
                        c == 0x01 || c == 0x02 || c == 0x04 || c == 0x08 || c == 0x10 || c == 0x20
                            || c == 0x40 || c == 0x80,
                ;
            }
            assert(self@ =~= old(self)@.insert(flag));
        }
    }

    /// Takes `flag` out of the set.
    pub fn remove(&mut self, flag: Flag)
        ensures
            final(self)@ == old(self)@.remove(flag),
            final(self).bits_spec() == old(self).bits_spec() & !flag.bit_spec(),
    {
        let ghost a = self.bits;
        let ghost b = flag.bit_spec();
        self.bits = self.bits & !flag.bit();
        proof {
            assert forall|f: Flag| self@.contains(f) == old(self)@.remove(flag).contains(f) by {
                let c = f.bit_spec();
                assert(f == flag <==> c == b);
                assert(((a & !b) & c != 0) == ((a & c != 0) && b != c)) by (bit_vector)
                    requires
                        b == 0x01 || b == 0x02 || b == 0x04 || b == 0x08 || b == 0x10 || b == 0x20
                            || b == 0x40 || b == 0x80,
                        c == 0x01 || c == 0x02 || c == 0x04 || c == 0x08 || c == 0x10 || c == 0x20
                            || c == 0x40 || c == 0x80,
                ;
            }
            assert(self@ =~= old(self)@.remove(flag));
        }
    }

    /// The flags of both sets.
    pub fn union(self, other: UpdateFlag) -> (r: UpdateFlag)
        ensures
            r@ == self@.union(other@),
            r.bits_spec() == self.bits_spec() | other.bits_spec(),
    {
        let r = UpdateFlag { bits: self.bits | other.bits };
        proof {
            let a = self.bits;
            let b = other.bits;
            assert forall|f: Flag| r@.contains(f) == self@.union(other@).contains(f) by {
                let c = f.bit_spec();
                assert(((a | b) & c != 0) == ((a & c != 0) || (b & c != 0))) by (bit_vector);
            }
            assert(r@ =~= self@.union(other@));
        }
        r
    }
}

} // verus!
