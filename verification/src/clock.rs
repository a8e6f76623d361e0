//! Points in time: their range, their RFC 3339 text, and the current one.
use vstd::prelude::*;

verus! {

/// Whether seconds since the epoch and nanoseconds name a point in time: the
/// years from -262143 to 262142, with a nanosecond part of more than a second
/// only in the last second of a minute (a leap second).
pub open spec fn timestamp_in_range(seconds: int, nanos: int) -> bool {
    &&& -8334601228800 <= seconds <= 8210266876799
    &&& 0 <= nanos < 2_000_000_000
    &&& nanos < 1_000_000_000 || seconds % 60 == 59
}

/// A point in time: seconds since the epoch, and nanoseconds.
#[derive(Clone, Copy, Debug, PartialEq, Eq, Structural)]
pub struct Timestamp {
    seconds: i64,
    nanos: u32,
}

/// The RFC 3339 text of a point in time, in UTC.
pub uninterp spec fn rfc3339(seconds: i64, nanos: u32) -> Seq<char>;

/// `chrono::DateTime::to_rfc3339` of the point in time that
/// `chrono::DateTime::from_timestamp` makes of the two numbers. The text is a
/// function of the numbers: it is given in UTC.
#[verifier::external_body]
fn write_rfc3339(seconds: i64, nanos: u32) -> (text: String)
    requires
        timestamp_in_range(seconds as int, nanos as int),
    ensures
        text@ == rfc3339(seconds, nanos),
{
    chrono::DateTime::<chrono::Utc>::from_timestamp(seconds, nanos).unwrap().to_rfc3339()
}

/// `chrono::Utc::now` and `DateTime::timestamp_millis`: the milliseconds since
/// the epoch. Nothing is promised of the number but that it is not negative:
/// `chrono` does not read a clock that stands before the epoch.
#[verifier::external_body]
fn read_clock() -> (millis: i64)
    ensures
        millis >= 0,
{
    chrono::Utc::now().timestamp_millis()
}

/// `chrono::Utc::now` with its seconds since the epoch and its nanoseconds. They
/// name a point in time, which is not before the epoch.
#[verifier::external_body]
fn read_moment() -> (moment: (i64, u32))
    ensures
        timestamp_in_range(moment.0 as int, moment.1 as int),
        moment.0 >= 0,
{
    let now = chrono::Utc::now();
    (now.timestamp(), now.timestamp_subsec_nanos())
}

impl Timestamp {
    #[verifier::type_invariant]
    spec fn in_range(self) -> bool {
        timestamp_in_range(self.seconds as int, self.nanos as int)
    }

    /// The seconds since the epoch.
    pub closed spec fn spec_seconds(self) -> i64 {
        self.seconds
    }

    /// The nanoseconds.
    pub closed spec fn spec_nanos(self) -> u32 {
        self.nanos
    }

    /// The point in time, where the numbers name one.
    pub fn new(seconds: i64, nanos: u32) -> (timestamp: Option<Timestamp>)
        ensures
            match timestamp {
                Some(t) => timestamp_in_range(seconds as int, nanos as int) && t.spec_seconds()
                    == seconds && t.spec_nanos() == nanos,
                None => !timestamp_in_range(seconds as int, nanos as int),
            },
    {
        if seconds < -8334601228800 || seconds > 8210266876799 || nanos >= 2_000_000_000 {
            return None;
        }
        if nanos >= 1_000_000_000 {
            // The range of a minute starts at a multiple of sixty seconds, below zero too.
            let shifted: i64 = seconds + 8334601228800;
            if shifted % 60 != 59 {
                return None;
            }
        }
        Some(Timestamp { seconds, nanos })
    }

    /// The current point in time, which is not before the epoch.
    pub fn now() -> (timestamp: Timestamp)
        ensures
            timestamp_in_range(
                timestamp.spec_seconds() as int,
                timestamp.spec_nanos() as int,
            ),
            timestamp.spec_seconds() >= 0,
    {
        let (seconds, nanos): (i64, u32) = read_moment();
        Timestamp { seconds, nanos }
    }

    /// The seconds since the epoch.
    pub fn seconds(&self) -> (seconds: i64)
        ensures
            seconds == self.spec_seconds(),
    {
        self.seconds
    }

    /// The nanoseconds.
    pub fn nanos(&self) -> (nanos: u32)
        ensures
            nanos == self.spec_nanos(),
    {
        self.nanos
    }

    /// The RFC 3339 text, in UTC.
    pub fn to_rfc3339(&self) -> (text: String)
        ensures
            text@ == rfc3339(self.spec_seconds(), self.spec_nanos()),
    {
        proof {
            use_type_invariant(self);
        }
        write_rfc3339(self.seconds, self.nanos)
    }
}

/// A number for a new row: the current milliseconds since the epoch.
pub fn now_id() -> (id: i64)
    ensures
        id >= 0,
{
    read_clock()
}

/// Every second from the year one to the year 9999 can be named, with any nanosecond in it.
/// The range ends with the year 262142 and starts with the year -262143. A nanosecond part
/// of a second and more stands for a leap second, at the end of a minute only.
pub proof fn lemma_range_of_time(seconds: int, nanos: int)
    ensures
        -62135596800 <= seconds <= 253402300799 && 0 <= nanos <= 999_999_999 ==> timestamp_in_range(
            seconds,
            nanos,
        ),
        timestamp_in_range(8210266876799, 999_999_999),
        !timestamp_in_range(8210266876800, 0),
        timestamp_in_range(-8334601228800, 0),
        !timestamp_in_range(-8334601228801, 0),
        nanos < 0 || nanos >= 2_000_000_000 ==> !timestamp_in_range(seconds, nanos),
        1_000_000_000 <= nanos < 2_000_000_000 && -62135596800 <= seconds <= 253402300799 ==> (
        timestamp_in_range(seconds, nanos) <==> seconds % 60 == 59),
{
}

} // verus!
