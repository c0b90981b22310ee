//! The typed relational value model: what the store emits for a column and
//! accepts for a bind parameter.

use vstd::prelude::*;

verus! {

/// A relational column or parameter value. Floating-point kinds are carried
/// by their IEEE-754 bit patterns; the time-of-day kind is carried but
/// intentionally not decoded.
pub enum RelationalValue {
    Null,
    Int(i64),
    UInt(u64),
    /// The bits of a 32-bit floating-point value.
    Single(u32),
    /// The bits of a 64-bit floating-point value.
    Double(u64),
    Bytes(Vec<u8>),
    Date { year: u16, month: u8, day: u8, hour: u8, minute: u8, second: u8, micro: u32 },
    Time { negative: bool, days: u32, hours: u8, minutes: u8, seconds: u8, micro: u32 },
}

/// The mathematical shape of a `RelationalValue`: byte strings become
/// sequences of bytes.
pub enum RelSpec {
    Null,
    Int(i64),
    UInt(u64),
    Single(u32),
    Double(u64),
    Bytes(Seq<u8>),
    Date { year: u16, month: u8, day: u8, hour: u8, minute: u8, second: u8, micro: u32 },
    Time { negative: bool, days: u32, hours: u8, minutes: u8, seconds: u8, micro: u32 },
}

impl View for RelationalValue {
    type V = RelSpec;

    open spec fn view(&self) -> RelSpec {
        match self {
            RelationalValue::Null => RelSpec::Null,
            RelationalValue::Int(i) => RelSpec::Int(*i),
            RelationalValue::UInt(u) => RelSpec::UInt(*u),
            RelationalValue::Single(bits) => RelSpec::Single(*bits),
            RelationalValue::Double(bits) => RelSpec::Double(*bits),
            RelationalValue::Bytes(b) => RelSpec::Bytes(b@),
            RelationalValue::Date { year, month, day, hour, minute, second, micro } => (
                RelSpec::Date {
                    year: *year,
                    month: *month,
                    day: *day,
                    hour: *hour,
                    minute: *minute,
                    second: *second,
                    micro: *micro,
                }
            ),
            RelationalValue::Time { negative, days, hours, minutes, seconds, micro } => (
                RelSpec::Time {
                    negative: *negative,
                    days: *days,
                    hours: *hours,
                    minutes: *minutes,
                    seconds: *seconds,
                    micro: *micro,
                }
            ),
        }
    }
}

} // verus!
