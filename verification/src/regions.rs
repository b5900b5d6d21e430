//! The region selector of a directory query.

use vstd::prelude::*;

verus! {

/// The geographic regions the directory can be asked about, plus the
/// wildcard that selects every region.
#[derive(Clone, Copy, PartialEq, Eq, Structural, Debug)]
pub enum Region {
    NAE,
    NAW,
    SA,
    EU,
    AS,
    AU,
    ME,
    AF,
    EVERYWHERE,
}

impl Region {
    /// The 8-bit wire code of the region.
    pub open spec fn spec_value(self) -> u8 {
        match self {
            Region::NAE => 0x00,
            Region::NAW => 0x01,
            Region::SA => 0x02,
            Region::EU => 0x03,
            Region::AS => 0x04,
            Region::AU => 0x05,
            Region::ME => 0x06,
            Region::AF => 0x07,
            Region::EVERYWHERE => 0xFF,
        }
    }

    /// The 8-bit wire code of the region, as a directory query carries it.
    pub fn value(&self) -> (r: u8)
        ensures
            r == self.spec_value(),
    {
        match *self {
            Region::NAE => 0x00,
            Region::NAW => 0x01,
            Region::SA => 0x02,
            Region::EU => 0x03,
            Region::AS => 0x04,
            Region::AU => 0x05,
            Region::ME => 0x06,
            Region::AF => 0x07,
            Region::EVERYWHERE => 0xFF,
        }
    }
}

} // verus!
