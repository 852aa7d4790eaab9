//! The wire-protocol versions that a node knows, their order, and the rule by
//! which two nodes agree on one.

use vstd::prelude::*;

verus! {

/// A version of the wire protocol. `Unknown` stands for any number that this
/// build does not know; it is never the version of an open connection.
#[derive(Clone, Copy, Debug, PartialEq, Eq, Structural, PartialOrd, Ord, Hash)]
pub enum ProtocolVersion {
    Unknown,
    V1,
}

/// The oldest version that this build still speaks.
pub const MIN_SUPPORTED_PROTOCOL_VERSION: ProtocolVersion = ProtocolVersion::V1;

/// The newest version that this build speaks.
pub const CURRENT_PROTOCOL_VERSION: ProtocolVersion = ProtocolVersion::V1;

impl ProtocolVersion {
    /// The number that stands for this version on the wire.
    pub open spec fn number(self) -> int {
        match self {
            ProtocolVersion::Unknown => 0,
            ProtocolVersion::V1 => 1,
        }
    }

    /// The version that a number stands for; `Unknown` for every number that
    /// names none.
    pub open spec fn of_number(n: int) -> ProtocolVersion {
        if n == 1 {
            ProtocolVersion::V1
        } else {
            ProtocolVersion::Unknown
        }
    }

    /// Whether a connection may run under this version.
    pub open spec fn is_usable(self) -> bool {
        self != ProtocolVersion::Unknown
    }

    /// The number that stands for this version on the wire.
    pub fn as_i32(self) -> (n: i32)
        ensures
            n == self.number(),
    {
        match self {
            ProtocolVersion::Unknown => 0,
            ProtocolVersion::V1 => 1,
        }
    }

    /// Reads a version from its number on the wire.
    pub fn from_i32(n: i32) -> (version: ProtocolVersion)
        ensures
            version == Self::of_number(n as int),
    {
        if n == 1 {
            ProtocolVersion::V1
        } else {
            ProtocolVersion::Unknown
        }
    }

    /// Whether this version is one of the known ones.
    pub fn is_known(self) -> (known: bool)
        ensures
            known == self.is_usable(),
    {
        match self {
            ProtocolVersion::Unknown => false,
            ProtocolVersion::V1 => true,
        }
    }
}

/// The versions that one side of a handshake offers, both ends included.
#[derive(Clone, Copy, Debug, PartialEq, Eq, Structural)]
pub struct VersionRange {
    pub min: i32,
    pub max: i32,
}

/// The larger of two version numbers.
pub open spec fn max_of(a: int, b: int) -> int {
    if a >= b {
        a
    } else {
        b
    }
}

/// The smaller of two version numbers.
pub open spec fn min_of(a: int, b: int) -> int {
    if a <= b {
        a
    } else {
        b
    }
}

/// The versions that this build offers: from the oldest supported one to the
/// current one.
pub open spec fn supported_versions() -> VersionRange {
    VersionRange {
        min: MIN_SUPPORTED_PROTOCOL_VERSION.number() as i32,
        max: CURRENT_PROTOCOL_VERSION.number() as i32,
    }
}

impl VersionRange {
    /// Whether `n` is one of the offered versions.
    pub open spec fn contains(self, n: int) -> bool {
        self.min <= n <= self.max
    }

    /// The lowest version that both ranges could hold.
    pub open spec fn common_low(self, other: VersionRange) -> int {
        max_of(self.min as int, other.min as int)
    }

    /// The highest version that both ranges could hold.
    pub open spec fn common_high(self, other: VersionRange) -> int {
        min_of(self.max as int, other.max as int)
    }

    /// Whether the two ranges share a version.
    pub open spec fn overlaps(self, other: VersionRange) -> bool {
        self.common_low(other) <= self.common_high(other)
    }

    pub fn new(min: i32, max: i32) -> (range: Self)
        ensures
            range.min == min,
            range.max == max,
    {
        VersionRange { min, max }
    }

    /// The range that this build offers.
    pub fn supported() -> (range: Self)
        ensures
            range == supported_versions(),
    {
        VersionRange {
            min: MIN_SUPPORTED_PROTOCOL_VERSION.as_i32(),
            max: CURRENT_PROTOCOL_VERSION.as_i32(),
        }
    }

    /// Picks the version for a connection between a side that offers `self`
    /// and one that offers `other`: the highest version that both offer, or
    /// nothing where they share none.
    pub fn negotiate(self, other: VersionRange) -> (chosen: Option<i32>)
        ensures
            self.overlaps(other) ==> chosen == Some(self.common_high(other) as i32),
            !self.overlaps(other) ==> chosen == None::<i32>,
    {
        let low: i32 = if self.min >= other.min { self.min } else { other.min };
        let high: i32 = if self.max <= other.max { self.max } else { other.max };
        if low <= high {
            Some(high)
        } else {
            None
        }
    }
}

/// Negotiation picks the smaller of the two upper bounds exactly when it is
/// not below the larger of the two lower bounds, and fails otherwise. The
/// chosen version lies in both ranges and no common version is higher.
pub proof fn lemma_negotiation_picks_highest_common(a: VersionRange, b: VersionRange)
    ensures
        a.overlaps(b) <==> min_of(a.max as int, b.max as int) >= max_of(a.min as int, b.min as int),
        a.overlaps(b) ==> a.contains(a.common_high(b)) && b.contains(a.common_high(b)),
        a.overlaps(b) ==> forall|n: int| a.contains(n) && b.contains(n) ==> n <= a.common_high(b),
        !a.overlaps(b) ==> forall|n: int| !(a.contains(n) && b.contains(n)),
        a.overlaps(b) <==> exists|n: int| a.contains(n) && b.contains(n),
{
    if a.overlaps(b) {
        let h = a.common_high(b);
        assert(a.contains(h) && b.contains(h));
    }
}

/// Negotiation does not depend on which side is asked.
pub proof fn lemma_negotiation_symmetric(a: VersionRange, b: VersionRange)
    ensures
        a.overlaps(b) == b.overlaps(a),
        a.common_high(b) == b.common_high(a),
        a.common_low(b) == b.common_low(a),
{
}

} // verus!
