//! The configuration a discovery pass runs with: a region selector and a
//! filter text. Loaded once at startup by the surrounding application;
//! never mutated by the core.

use vstd::prelude::*;

verus! {

/// The two knobs of discovery: the filter text the directory matches
/// servers against, and the 8-bit region selector.
#[derive(Debug)]
pub struct Settings {
    pub filter: String,
    pub region: u8,
}

impl Settings {
    pub fn new(filter: String, region: u8) -> (r: Settings)
        ensures
            r.filter == filter,
            r.region == region,
    {
        Settings { filter, region }
    }

    /// The documented defaults, used whenever no stored configuration
    /// exists or the stored one cannot be read.
    pub fn default() -> (r: Settings)
        ensures
            r.filter@ == "\\appid\\730\\"@,
            r.region == 0x02,
    {
        Settings { filter: "\\appid\\730\\".to_owned(), region: 0x02 }
    }
}

} // verus!
