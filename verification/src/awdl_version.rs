//! The AWDL protocol version: a major and a minor number packed four bits
//! each into one byte.
use vstd::prelude::*;

verus! {

/// A version in AWDL format: major in the upper four bits of the wire byte,
/// minor in the lower four.
#[derive(Debug, Clone, Copy, PartialEq, Eq, Hash, Structural)]
pub struct AWDLVersion {
    /// The major version.
    pub major: u8,
    /// The minor version.
    pub minor: u8,
}

impl AWDLVersion {
    /// The version encoded by the given byte.
    pub open spec fn spec_from_bits(value: u8) -> AWDLVersion {
        AWDLVersion { major: (value / 16) as u8, minor: (value % 16) as u8 }
    }

    /// The wire byte of this version.
    pub open spec fn spec_into_bits(self) -> u8 {
        (self.major * 16 + self.minor) as u8
    }

    /// Both halves fit their four bits.
    pub open spec fn wf(self) -> bool {
        self.major < 16 && self.minor < 16
    }

    /// Unpacks a version byte into its major and minor halves.
    pub fn from_bits(value: u8) -> (r: AWDLVersion)
        ensures
            r == Self::spec_from_bits(value),
            r.wf(),
    {
        AWDLVersion { major: value / 16, minor: value % 16 }
    }

    /// Packs the major and minor halves into one byte.
    pub fn into_bits(self) -> (r: u8)
        requires
            self.wf(),
        ensures
            r == self.spec_into_bits(),
    {
        self.major * 16 + self.minor
    }
}

/// Packing a well-formed version and unpacking the byte recovers it, and
/// unpacked bytes pack back to themselves.
pub proof fn lemma_version_round_trip(v: AWDLVersion, b: u8)
    ensures
        v.wf() ==> AWDLVersion::spec_from_bits(v.spec_into_bits()) == v,
        AWDLVersion::spec_from_bits(b).spec_into_bits() == b,
{
    if v.wf() {
        assert((v.major * 16 + v.minor) / 16 == v.major) by (nonlinear_arith)
            requires
                v.minor < 16,
        ;
        assert((v.major * 16 + v.minor) % 16 == v.minor) by (nonlinear_arith)
            requires
                v.minor < 16,
        ;
    }
}

impl Default for AWDLVersion {
    /// The default version is `0.0`.
    fn default() -> (r: Self)
        ensures
            r == (AWDLVersion { major: 0, minor: 0 }),
    {
        AWDLVersion { major: 0, minor: 0 }
    }
}

impl PartialOrd for AWDLVersion {
    /// Versions order lexicographically: by major version, then by minor.
    fn partial_cmp(&self, other: &Self) -> (r: Option<core::cmp::Ordering>)
        ensures
            r == Some(self.cmp_spec(other)),
    {
        if self.major < other.major {
            Some(core::cmp::Ordering::Less)
        } else if self.major == other.major && self.minor < other.minor {
            Some(core::cmp::Ordering::Less)
        } else if self.major == other.major && self.minor == other.minor {
            Some(core::cmp::Ordering::Equal)
        } else {
            Some(core::cmp::Ordering::Greater)
        }
    }
}

impl AWDLVersion {
    /// The lexicographic comparison of two versions.
    pub open spec fn cmp_spec(&self, other: &Self) -> core::cmp::Ordering {
        if self.major < other.major || (self.major == other.major && self.minor < other.minor) {
            core::cmp::Ordering::Less
        } else if self.major == other.major && self.minor == other.minor {
            core::cmp::Ordering::Equal
        } else {
            core::cmp::Ordering::Greater
        }
    }
}

impl vstd::std_specs::cmp::PartialOrdSpecImpl for AWDLVersion {
    open spec fn obeys_partial_cmp_spec() -> bool {
        true
    }

    open spec fn partial_cmp_spec(&self, other: &Self) -> Option<core::cmp::Ordering> {
        Some(self.cmp_spec(other))
    }
}

} // verus!
