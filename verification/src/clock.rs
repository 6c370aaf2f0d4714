use vstd::prelude::*;

verus! {

/// A wall-clock time of day, split into plain fields at microsecond
/// resolution.
#[derive(Clone, Copy, Debug, PartialEq, Eq)]
pub struct Timestamp {
    pub hour: u8,
    pub minute: u8,
    pub second: u8,
    pub microsecond: u32,
}

impl Timestamp {
    /// Each field lies within its calendar range.
    pub open spec fn wf(self) -> bool {
        self.hour < 24 && self.minute < 60 && self.second < 60 && self.microsecond < 1000000
    }
}

/// The whole-seconds bound on a UTC offset: twenty-five hours, fifty-nine
/// minutes and fifty-nine seconds.
pub const OFFSET_SECONDS_BOUND: i32 = 93599;

/// Relies on time::UtcOffset::current_local_offset and whole_seconds: the
/// process's local UTC offset in whole seconds, always within plus or minus
/// 25:59:59, or nothing when the platform cannot determine it.
#[verifier::external_body]
pub(crate) fn probe_local_offset_seconds() -> (r: Option<i32>)
    ensures
        r matches Some(s) ==> -OFFSET_SECONDS_BOUND <= s <= OFFSET_SECONDS_BOUND,
{
    match time::UtcOffset::current_local_offset() {
        Ok(offset) => Option::Some(offset.whole_seconds()),
        Err(_) => Option::None,
    }
}

/// Relies on time::OffsetDateTime::now_utc and checked_to_offset, and the
/// time::Time accessors hour, minute, second and microsecond: the current
/// wall-clock time of day shifted by the given offset (unshifted when the
/// offset is out of range or the shift would leave the supported date
/// range), each field within its documented calendar range.
#[verifier::external_body]
pub(crate) fn now_timestamp(offset_seconds: i32) -> (r: Timestamp)
    ensures
        r.wf(),
{
    let offset = time::UtcOffset::from_whole_seconds(offset_seconds).unwrap_or(time::UtcOffset::UTC);
    let now = time::OffsetDateTime::now_utc();
    let t = now.checked_to_offset(offset).unwrap_or(now).time();
    Timestamp { hour: t.hour(), minute: t.minute(), second: t.second(), microsecond: t.microsecond() }
}

} // verus!
