//! Spans of time and readings of the system clock, to the nanosecond.
use vstd::prelude::*;

verus! {

pub const NANOS_PER_SEC: i128 = 1_000_000_000;

/// A span of time: whole seconds and the nanoseconds beyond them.
#[derive(Clone, Copy, Debug, PartialEq, Eq, Structural)]
pub struct Duration {
    pub secs: u64,
    pub nanos: u32,
}

impl View for Duration {
    type V = int;

    /// The length of the span in nanoseconds.
    open spec fn view(&self) -> int {
        self.secs * 1_000_000_000 + self.nanos
    }
}

impl Duration {
    /// A span of `secs` seconds.
    pub fn from_secs(secs: u64) -> (span: Duration)
        ensures
            span@ == secs * 1_000_000_000,
            span == (Duration { secs, nanos: 0 }),
    {
        Duration { secs, nanos: 0 }
    }

    /// A span of `nanos` nanoseconds.
    pub fn from_nanos(nanos: u64) -> (span: Duration)
        ensures
            span@ == nanos,
            span.nanos < 1_000_000_000,
    {
        Duration { secs: nanos / 1_000_000_000, nanos: (nanos % 1_000_000_000) as u32 }
    }

    /// The length of the span in nanoseconds.
    pub fn as_nanos(&self) -> (nanos: i128)
        ensures
            nanos == self@,
    {
        self.secs as i128 * NANOS_PER_SEC + self.nanos as i128
    }

    /// The span in a unit that suits it, rounded to two digits after the point.
    pub fn rounded(&self) -> (text: String)
        requires
            self.nanos < 1_000_000_000,
        ensures
            text@ == rounded_text(self.secs, self.nanos),
    {
        format_rounded(self.secs, self.nanos)
    }
}

/// How a span of `secs` seconds and `nanos` nanoseconds is written with two
/// digits after the point.
pub uninterp spec fn rounded_text(secs: u64, nanos: u32) -> Seq<char>;

/// The `Debug` formatting of a `std::time::Duration` with a precision of two.
/// What is claimed is only that the text depends on the seconds and nanoseconds
/// alone; which unit it picks and how it rounds is left unsaid.
#[verifier::external_body]
fn format_rounded(secs: u64, nanos: u32) -> (text: String)
    requires
        nanos < 1_000_000_000,
    ensures
        text@ == rounded_text(secs, nanos),
{
    format!("{:.2?}", std::time::Duration::new(secs, nanos))
}

/// An instant of the system clock, told by its distance from the Unix epoch.
#[derive(Clone, Copy, Debug, PartialEq, Eq, Structural)]
pub struct Timestamp {
    pub before_epoch: bool,
    pub distance: Duration,
}

impl View for Timestamp {
    type V = int;

    /// Nanoseconds since the Unix epoch, negative before it.
    open spec fn view(&self) -> int {
        if self.before_epoch {
            -self.distance@
        } else {
            self.distance@
        }
    }
}

impl Timestamp {
    /// The instant `secs` seconds and `nanos` nanoseconds after the Unix epoch.
    pub fn since_epoch(secs: u64, nanos: u32) -> (stamp: Timestamp)
        ensures
            stamp@ == secs * 1_000_000_000 + nanos,
    {
        Timestamp { before_epoch: false, distance: Duration { secs, nanos } }
    }

    /// The instant that a clock reading stands for: `Ok` holds the seconds and
    /// nanoseconds since the Unix epoch, `Err` those until it.
    pub fn from_reading(reading: Result<(u64, u32), (u64, u32)>) -> (stamp: Timestamp)
        ensures
            stamp@ == (match reading {
                Ok((secs, nanos)) => secs * 1_000_000_000 + nanos,
                Err((secs, nanos)) => -(secs * 1_000_000_000 + nanos),
            }),
            stamp.distance == (match reading {
                Ok((secs, nanos)) => Duration { secs, nanos },
                Err((secs, nanos)) => Duration { secs, nanos },
            }),
    {
        match reading {
            Ok((secs, nanos)) => Timestamp {
                before_epoch: false,
                distance: Duration { secs, nanos },
            },
            Err((secs, nanos)) => Timestamp {
                before_epoch: true,
                distance: Duration { secs, nanos },
            },
        }
    }

    /// The instant that the clock shows when it is called. The clock may be set
    /// forward or back between two calls.
    pub fn now() -> (stamp: Timestamp)
        ensures
            stamp.distance.nanos < 1_000_000_000,
            exists|reading: Result<(u64, u32), (u64, u32)>| #[trigger]
                clock_gave(reading) && stamp@ == (match reading {
                    Ok((secs, nanos)) => secs * 1_000_000_000 + nanos,
                    Err((secs, nanos)) => -(secs * 1_000_000_000 + nanos),
                }),
    {
        let reading = read_clock();
        assert(clock_gave(reading));
        Timestamp::from_reading(reading)
    }

    /// The instant that the clock shows to a caller that acts on `state`. The
    /// reading is taken for that state: none that was taken for an earlier one
    /// and kept can stand in for it.
    pub fn now_in<S>(state: &S) -> (stamp: Timestamp)
        ensures
            call_ensures(Timestamp::now, (), stamp),
    {
        Timestamp::now()
    }

    /// Nanoseconds since the Unix epoch, negative before it.
    pub fn as_nanos(&self) -> (nanos: i128)
        ensures
            nanos == self@,
    {
        let distance: i128 = self.distance.as_nanos();
        if self.before_epoch {
            -distance
        } else {
            distance
        }
    }

    /// Whether this instant lies before `other`.
    pub fn is_before(&self, other: &Timestamp) -> (before: bool)
        ensures
            before == (self@ < other@),
    {
        self.as_nanos() < other.as_nanos()
    }

    /// Whether less than `span` has passed from this instant until `now`.
    pub fn is_within(&self, span: &Duration, now: &Timestamp) -> (within: bool)
        ensures
            within == (now@ - self@ < span@),
    {
        now.as_nanos() - self.as_nanos() < span.as_nanos()
    }
}

/// Whether the clock gave `reading` when it was read.
pub closed spec fn clock_gave(reading: Result<(u64, u32), (u64, u32)>) -> bool {
    call_ensures(read_clock, (), reading)
}

/// `std::time::SystemTime::elapsed` of `std::time::UNIX_EPOCH`: the time from
/// the Unix epoch until the clock's present reading, or, as `Err`, from that
/// reading until the epoch, in seconds and nanoseconds. What is claimed is only
/// that the nanoseconds stay below one second; the reading itself is open.
#[verifier::external_body]
fn read_clock() -> (reading: Result<(u64, u32), (u64, u32)>)
    ensures
        match reading {
            Ok((_, nanos)) => nanos < 1_000_000_000,
            Err((_, nanos)) => nanos < 1_000_000_000,
        },
{
    match std::time::UNIX_EPOCH.elapsed() {
        Ok(d) => Ok((d.as_secs(), d.subsec_nanos())),
        Err(e) => Err((e.duration().as_secs(), e.duration().subsec_nanos())),
    }
}

/// A span is as long as its seconds and its nanoseconds together.
pub proof fn law_spans_count_seconds_and_nanoseconds(span: Duration)
    ensures
        span@ == span.secs * 1_000_000_000 + span.nanos,
{
}

/// An instant lies as far from the epoch as its distance says, on the side that
/// it says.
pub proof fn law_instants_lie_at_their_distance(stamp: Timestamp)
    ensures
        stamp.before_epoch ==> stamp@ == -(stamp.distance.secs * 1_000_000_000
            + stamp.distance.nanos),
        !stamp.before_epoch ==> stamp@ == stamp.distance.secs * 1_000_000_000
            + stamp.distance.nanos,
{
}

/// Reading a span, or how two instants lie, goes by their nanoseconds alone.
pub proof fn law_ages_are_told_to_the_nanosecond(
    stamp: &Timestamp,
    span: &Duration,
    now: &Timestamp,
    within: bool,
    before: bool,
)
    requires
        call_ensures(Timestamp::is_within, (stamp, span, now), within),
        call_ensures(Timestamp::is_before, (stamp, now), before),
    ensures
        within <==> now@ - stamp@ < span.secs * 1_000_000_000 + span.nanos,
        before <==> stamp@ < now@,
{
}

/// The instant that `Timestamp::now` gives is the one of a reading that the clock
/// gave, neither earlier nor later.
proof fn law_now_is_what_the_clock_gave(stamp: Timestamp)
    requires
        call_ensures(Timestamp::now, (), stamp),
    ensures
        exists|reading: Result<(u64, u32), (u64, u32)>| #[trigger]
            call_ensures(read_clock, (), reading) && stamp@ == (match reading {
                Ok((secs, nanos)) => secs * 1_000_000_000 + nanos,
                Err((secs, nanos)) => -(secs * 1_000_000_000 + nanos),
            }),
{
    let reading = choose|reading: Result<(u64, u32), (u64, u32)>| #[trigger]
        clock_gave(reading) && stamp@ == (match reading {
            Ok((secs, nanos)) => secs * 1_000_000_000 + nanos,
            Err((secs, nanos)) => -(secs * 1_000_000_000 + nanos),
        });
    assert(call_ensures(read_clock, (), reading));
}

} // verus!
