//! The version number of the tooling interface.

use vstd::prelude::*;

verus! {

/// The bits of a packed version that hold the major number.
pub const VERSION_MASK_MAJOR: u32 = 0x0FFF0000;

/// The bits of a packed version that hold the minor number.
pub const VERSION_MASK_MINOR: u32 = 0x0000FF00;

/// The bits of a packed version that hold the micro number.
pub const VERSION_MASK_MICRO: u32 = 0x000000FF;

#[derive(Clone, Copy, Debug, PartialEq, Eq, Structural)]
pub struct VersionNumber {
    pub major_version: u16,
    pub minor_version: u8,
    pub micro_version: u8,
}

impl VersionNumber {
    /// The parts of a packed version: major in bits 16 to 27, minor in bits
    /// 8 to 15, micro in bits 0 to 7.
    pub open spec fn unpacked(version: u32) -> VersionNumber {
        VersionNumber {
            major_version: ((version & VERSION_MASK_MAJOR) >> 16) as u16,
            minor_version: ((version & VERSION_MASK_MINOR) >> 8) as u8,
            micro_version: (version & VERSION_MASK_MICRO) as u8,
        }
    }

    /// Splits a packed version into its parts.
    pub fn from_u32(version: &u32) -> (number: VersionNumber)
        ensures
            number == VersionNumber::unpacked(*version),
            number.major_version <= 0x0FFF,
    {
        let packed: u32 = *version;
        let major: u32 = (packed & VERSION_MASK_MAJOR) >> 16;
        let minor: u32 = (packed & VERSION_MASK_MINOR) >> 8;
        let micro: u32 = packed & VERSION_MASK_MICRO;
        assert(major <= 0x0FFF) by (bit_vector)
            requires
                major == (packed & 0x0FFF0000u32) >> 16,
        ;
        assert(minor <= 0xFF) by (bit_vector)
            requires
                minor == (packed & 0x0000FF00u32) >> 8,
        ;
        assert(micro <= 0xFF) by (bit_vector)
            requires
                micro == packed & 0x000000FFu32,
        ;
        VersionNumber {
            major_version: major as u16,
            minor_version: minor as u8,
            micro_version: micro as u8,
        }
    }

    /// The version reported where none can be asked for.
    pub open spec fn spec_unknown() -> VersionNumber {
        VersionNumber { major_version: 0x7FFF, minor_version: 0x8F, micro_version: 0x8F }
    }

    /// The version reported where none can be asked for.
    pub fn unknown() -> (number: VersionNumber)
        ensures
            number == VersionNumber::spec_unknown(),
    {
        VersionNumber { major_version: 0x7FFF, minor_version: 0x8F, micro_version: 0x8F }
    }
}

} // verus!
