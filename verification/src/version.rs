//! Packed API version numbers.
//!
//! A version is a triple `(major, minor, patch)` held in one 32-bit integer:
//! ten bits of major, ten bits of minor, twelve bits of patch, the major
//! component in the most significant bits. Because the fields do not overlap
//! and the most significant one comes first, the order of the packed integers
//! is the lexicographic order of the triples.

use core::cmp::Ordering;
use vstd::prelude::*;
use vstd::std_specs::cmp::PartialOrdSpecImpl;

verus! {

/// An API version, packed.
#[derive(Clone, Copy, Debug, PartialEq, Eq, Structural)]
pub struct Version {
    repr: u32,
}

/// The packed integer that stands for `(major, minor, patch)`.
pub open spec fn pack(major: int, minor: int, patch: int) -> int {
    major * 0x40_0000 + minor * 0x1000 + patch
}

/// The major component of a packed integer.
pub open spec fn major_of(repr: int) -> int {
    repr / 0x40_0000
}

/// The minor component of a packed integer.
pub open spec fn minor_of(repr: int) -> int {
    (repr / 0x1000) % 0x400
}

/// The patch component of a packed integer.
pub open spec fn patch_of(repr: int) -> int {
    repr % 0x1000
}

/// Whether a packed integer lies in the window of versions that the driver
/// serves: from 1.0.0 up to 1.0.4095, both ends included.
pub open spec fn supported(repr: int) -> bool {
    pack(1, 0, 0) <= repr <= pack(1, 0, 0xfff)
}

/// Whether the triple of `a` comes before the triple of `b` when the triples
/// are compared component by component, major first.
pub open spec fn triple_less(a: int, b: int) -> bool {
    ||| major_of(a) < major_of(b)
    ||| major_of(a) == major_of(b) && minor_of(a) < minor_of(b)
    ||| major_of(a) == major_of(b) && minor_of(a) == minor_of(b) && patch_of(a) < patch_of(b)
}

impl View for Version {
    type V = int;

    /// The packed integer.
    closed spec fn view(&self) -> int {
        self.repr as int
    }
}

impl Version {
    /// Packs a triple. Each component has to fit its bit field: ten bits for
    /// major and for minor, twelve for patch.
    pub fn new(major: u16, minor: u16, patch: u16) -> (v: Version)
        requires
            major < 0x400,
            minor < 0x400,
            patch < 0x1000,
        ensures
            v@ == pack(major as int, minor as int, patch as int),
            major_of(v@) == major,
            minor_of(v@) == minor,
            patch_of(v@) == patch,
    {
        let hi: u32 = (major as u32) << 22;
        let mid: u32 = (minor as u32) << 12;
        let lo: u32 = patch as u32;
        assert(hi | mid | lo == major * 0x40_0000 + minor * 0x1000 + patch) by (bit_vector)
            requires
                major < 0x400,
                minor < 0x400,
                patch < 0x1000,
                hi == (major as u32) << 22,
                mid == (minor as u32) << 12,
                lo == patch as u32,
        ;
        Version { repr: hi | mid | lo }
    }

    /// Wraps a packed integer as it is: every 32-bit integer is a version.
    pub fn from_repr(repr: u32) -> (v: Version)
        ensures
            v@ == repr,
    {
        Version { repr }
    }

    /// The triple `(major, minor, patch)`.
    pub fn get(&self) -> (t: (u32, u32, u32))
        ensures
            t.0 == major_of(self@),
            t.1 == minor_of(self@),
            t.2 == patch_of(self@),
    {
        let repr = self.repr;
        assert((repr >> 22) & 0x3ff == repr / 0x40_0000) by (bit_vector);
        assert((repr >> 12) & 0x3ff == (repr / 0x1000) % 0x400) by (bit_vector);
        assert(repr & 0xfff == repr % 0x1000) by (bit_vector);
        ((repr >> 22) & 0x3ff, (repr >> 12) & 0x3ff, repr & 0xfff)
    }

    /// The packed integer.
    pub fn repr(&self) -> (r: u32)
        ensures
            r == self@,
    {
        self.repr
    }

    /// Whether the driver serves this version.
    pub fn is_supported(&self) -> (r: bool)
        ensures
            r == supported(self@),
    {
        let lowest = Version::new(1, 0, 0);
        let highest = Version::new(1, 0, 0xfff);
        !(lowest > *self || *self > highest)
    }
}

impl PartialOrd for Version {
    /// Versions are ordered as their packed integers are.
    fn partial_cmp(&self, other: &Version) -> (r: Option<Ordering>) {
        if self.repr < other.repr {
            Some(Ordering::Less)
        } else if self.repr == other.repr {
            Some(Ordering::Equal)
        } else {
            Some(Ordering::Greater)
        }
    }
}

impl PartialOrdSpecImpl for Version {
    open spec fn obeys_partial_cmp_spec() -> bool {
        true
    }

    open spec fn partial_cmp_spec(&self, other: &Version) -> Option<Ordering> {
        if self@ < other@ {
            Some(Ordering::Less)
        } else if self@ == other@ {
            Some(Ordering::Equal)
        } else {
            Some(Ordering::Greater)
        }
    }
}

/// Unpacking a packed triple gives the triple back, for every triple whose
/// components fit their bit fields.
pub proof fn lemma_pack_round_trip(major: int, minor: int, patch: int)
    requires
        0 <= major < 0x400,
        0 <= minor < 0x400,
        0 <= patch < 0x1000,
    ensures
        0 <= pack(major, minor, patch) <= u32::MAX,
        major_of(pack(major, minor, patch)) == major,
        minor_of(pack(major, minor, patch)) == minor,
        patch_of(pack(major, minor, patch)) == patch,
{
}

/// Packing the components of a 32-bit integer gives the integer back, and
/// each component fits its bit field.
pub proof fn lemma_unpack_round_trip(repr: int)
    requires
        0 <= repr <= u32::MAX,
    ensures
        0 <= major_of(repr) < 0x400,
        0 <= minor_of(repr) < 0x400,
        0 <= patch_of(repr) < 0x1000,
        pack(major_of(repr), minor_of(repr), patch_of(repr)) == repr,
{
}

/// The order of the packed integers is the component-wise order of the
/// triples, and it is total.
pub proof fn lemma_order_is_componentwise(a: int, b: int)
    requires
        0 <= a <= u32::MAX,
        0 <= b <= u32::MAX,
    ensures
        a < b <==> triple_less(a, b),
        a == b <==> major_of(a) == major_of(b) && minor_of(a) == minor_of(b) && patch_of(a)
            == patch_of(b),
        a < b || a == b || b < a,
{
    lemma_unpack_round_trip(a);
    lemma_unpack_round_trip(b);
}

/// The supported window holds exactly the versions 1.0.x: major 1, minor 0,
/// any patch.
pub proof fn lemma_supported_window(repr: int)
    requires
        0 <= repr <= u32::MAX,
    ensures
        supported(repr) <==> major_of(repr) == 1 && minor_of(repr) == 0,
{
    lemma_unpack_round_trip(repr);
}

} // verus!
