//! A plain-value date-time with a fixed UTC offset, as carried by
//! `EXT-X-PROGRAM-DATE-TIME` and `EXT-X-DATERANGE` tags, together with its
//! RFC 3339 rendering.

use vstd::prelude::*;
use vstd::string::StringExecFns;
use crate::text::{lemma_add_assoc, push_zero_pad, spec_zero_pad};

verus! {

/// A date and time of day in some fixed UTC offset.
///
/// Values render as RFC 3339 text, e.g. `2010-02-19T14:54:23.031+08:00`:
/// fractional seconds appear with three, six or nine digits depending on
/// the precision of `nanosecond`, and not at all when it is zero.
#[derive(Debug, Clone, Copy)]
pub struct DateTime {
    /// Year, `0` through `9999`.
    pub year: u16,
    /// Month of the year, `1` through `12`.
    pub month: u8,
    /// Day of the month, `1` through `31`.
    pub day: u8,
    /// Hour of the day, `0` through `23`.
    pub hour: u8,
    /// Minute of the hour, `0` through `59`.
    pub minute: u8,
    /// Second of the minute, `0` through `59`.
    pub second: u8,
    /// Fraction of the second in nanoseconds, below one billion.
    pub nanosecond: u32,
    /// Offset from UTC in minutes, negative west of Greenwich; magnitude
    /// below one day.
    pub offset_minutes: i16,
}

impl DateTime {
    /// The calendar date, through the `T` separator.
    pub open spec fn spec_date_chars(&self) -> Seq<char> {
        spec_zero_pad(self.year as nat, 4) + "-"@ + spec_zero_pad(self.month as nat, 2) + "-"@
            + spec_zero_pad(self.day as nat, 2) + "T"@
    }

    /// The time of day, without any fraction.
    pub open spec fn spec_time_chars(&self) -> Seq<char> {
        spec_zero_pad(self.hour as nat, 2) + ":"@ + spec_zero_pad(self.minute as nat, 2) + ":"@
            + spec_zero_pad(self.second as nat, 2)
    }

    /// The fractional-seconds field: empty for a whole second, else a dot
    /// and the fewest of three, six or nine digits that render the
    /// nanosecond exactly.
    pub open spec fn spec_frac_chars(&self) -> Seq<char> {
        if self.nanosecond == 0 {
            Seq::<char>::empty()
        } else if self.nanosecond % 1_000_000 == 0 {
            "."@ + spec_zero_pad((self.nanosecond / 1_000_000) as nat, 3)
        } else if self.nanosecond % 1_000 == 0 {
            "."@ + spec_zero_pad((self.nanosecond / 1_000) as nat, 6)
        } else {
            "."@ + spec_zero_pad(self.nanosecond as nat, 9)
        }
    }

    /// The `+HH:MM` or `-HH:MM` offset field.
    pub open spec fn spec_offset_chars(&self) -> Seq<char> {
        (if self.offset_minutes < 0 {
            "-"@
        } else {
            "+"@
        }) + spec_zero_pad((abs_minutes(self.offset_minutes) / 60) as nat, 2) + ":"@
            + spec_zero_pad((abs_minutes(self.offset_minutes) % 60) as nat, 2)
    }

    /// The full RFC 3339 rendering.
    pub open spec fn spec_chars(&self) -> Seq<char> {
        self.spec_date_chars() + self.spec_time_chars() + self.spec_frac_chars()
            + self.spec_offset_chars()
    }

    fn push_date(&self, output: &mut String)
        ensures
            final(output)@ == old(output)@ + self.spec_date_chars(),
    {
        broadcast use lemma_add_assoc;

        push_zero_pad(output, self.year as u64, 4);
        output.append("-");
        push_zero_pad(output, self.month as u64, 2);
        output.append("-");
        push_zero_pad(output, self.day as u64, 2);
        output.append("T");
    }

    fn push_time(&self, output: &mut String)
        ensures
            final(output)@ == old(output)@ + self.spec_time_chars(),
    {
        broadcast use lemma_add_assoc;

        push_zero_pad(output, self.hour as u64, 2);
        output.append(":");
        push_zero_pad(output, self.minute as u64, 2);
        output.append(":");
        push_zero_pad(output, self.second as u64, 2);
    }

    fn push_frac(&self, output: &mut String)
        ensures
            final(output)@ == old(output)@ + self.spec_frac_chars(),
    {
        broadcast use lemma_add_assoc;

        if self.nanosecond != 0 {
            output.append(".");
            if self.nanosecond % 1_000_000 == 0 {
                push_zero_pad(output, (self.nanosecond / 1_000_000) as u64, 3);
            } else if self.nanosecond % 1_000 == 0 {
                push_zero_pad(output, (self.nanosecond / 1_000) as u64, 6);
            } else {
                push_zero_pad(output, self.nanosecond as u64, 9);
            }
        }
    }

    fn push_offset(&self, output: &mut String)
        ensures
            final(output)@ == old(output)@ + self.spec_offset_chars(),
    {
        broadcast use lemma_add_assoc;

        let abs: u16 = if self.offset_minutes < 0 {
            output.append("-");
            (-(self.offset_minutes as i32)) as u16
        } else {
            output.append("+");
            self.offset_minutes as u16
        };
        proof {
            assert(abs == abs_minutes(self.offset_minutes));
        }
        push_zero_pad(output, (abs / 60) as u64, 2);
        output.append(":");
        push_zero_pad(output, (abs % 60) as u64, 2);
    }

    pub fn serialize(&self, output: &mut String)
        ensures
            final(output)@ == old(output)@ + self.spec_chars(),
    {
        broadcast use lemma_add_assoc;

        self.push_date(output);
        self.push_time(output);
        self.push_frac(output);
        self.push_offset(output);
    }
}

/// The magnitude of an offset, in minutes.
pub open spec fn abs_minutes(m: i16) -> nat {
    if m < 0 {
        (-(m as int)) as nat
    } else {
        m as nat
    }
}

} // verus!
