//! On-tag date encoding.
//!
//! A tag stores a date as one big-endian `u16`: the day in the low five
//! bits, the month in the next four, and the year minus 2000 in the top
//! seven.

use vstd::prelude::*;

verus! {

/// What the low five bits of a packed date hold.
pub open spec fn spec_date_day(v: u16) -> u8 {
    (v & 0x1f) as u8
}

/// What the month bits of a packed date hold.
pub open spec fn spec_date_month(v: u16) -> u8 {
    ((v >> 5) & 0xf) as u8
}

/// What the year bits of a packed date hold, rebased to a calendar year.
pub open spec fn spec_date_year(v: u16) -> u16 {
    ((v >> 9) + 2000) as u16
}

/// A packed on-tag date.
#[derive(Clone, Copy, PartialEq, Eq, Structural, Debug)]
pub struct Date {
    pub val: u16,
}

impl Date {
    /// Packs a date; the fields are recovered exactly by the getters.
    pub fn new(year: u16, month: u8, day: u8) -> (r: Self)
        requires
            2000 <= year < 2128,
            month < 16,
            day < 32,
        ensures
            spec_date_year(r.val) == year,
            spec_date_month(r.val) == month,
            spec_date_day(r.val) == day,
            r.val == (((year - 2000) as u16) << 9) | ((month as u16) << 5) | (day as u16),
    {
        let packed: u16 = ((year - 2000) << 9) | ((month as u16) << 5) | (day as u16);
        proof {
            let y: u16 = (year - 2000) as u16;
            let m: u16 = month as u16;
            let d: u16 = day as u16;
            assert(((((y << 9) | (m << 5) | d) >> 9) + 2000) as u16 == (y + 2000) as u16
                && ((((y << 9) | (m << 5) | d) >> 5) & 0xf) as u16 == m
                && (((y << 9) | (m << 5) | d) & 0x1f) as u16 == d) by (bit_vector)
                requires
                    y < 128,
                    m < 16,
                    d < 32,
            ;
        }
        Date { val: packed }
    }

    pub fn get_day(&self) -> (r: u8)
        ensures
            r == spec_date_day(self.val),
    {
        (self.val & 0x1f) as u8
    }

    pub fn get_month(&self) -> (r: u8)
        ensures
            r == spec_date_month(self.val),
    {
        ((self.val >> 5) & 0xf) as u8
    }

    pub fn get_year(&self) -> (r: u16)
        ensures
            r == spec_date_year(self.val),
    {
        proof {
            let v = self.val;
            assert((v >> 9) < 128) by (bit_vector);
        }
        (self.val >> 9) + 2000
    }
}

} // verus!
