//! The load generator: which requests it sends, in which batches, and what it
//! makes of their outcomes.
use crate::error::join;
use crate::text::{decimal, decimal_text, law_decimal_is_injective};
use crate::time::{rounded_text, Duration};
use vstd::arithmetic::div_mod::{
    lemma_div_is_ordered, lemma_div_multiples_vanish, lemma_fundamental_div_mod,
    lemma_hoist_over_denominator,
};
use vstd::prelude::*;

verus! {

/// How many requests go out together.
pub const BATCH_SIZE: usize = 1000;

/// How long the generator rests after a batch, in nanoseconds.
pub const BATCH_REST_NANOS: u32 = 50_000_000;

/// Where requests go unless told otherwise.
pub const DEFAULT_SERVER_URL: &'static str = "http://cache-server:8080";

/// What a load test does.
#[derive(Clone, Copy, Debug, PartialEq, Eq, Structural)]
pub enum TestOperation {
    Read,
    Write,
}

/// The HTTP method of a request.
#[derive(Clone, Copy, Debug, PartialEq, Eq, Structural)]
pub enum Method {
    Get,
    Put,
}

/// A request to the service.
#[derive(Debug, PartialEq, Eq)]
pub struct Request {
    pub method: Method,
    pub url: String,
    pub body: Option<String>,
    pub timeout: Duration,
}

/// What a `Request` stands for.
#[verifier::ext_equal]
pub struct RequestView {
    pub method: Method,
    pub url: Seq<char>,
    pub body: Option<Seq<char>>,
    pub timeout: int,
}

impl View for Request {
    type V = RequestView;

    open spec fn view(&self) -> RequestView {
        RequestView {
            method: self.method,
            url: self.url@,
            body: match self.body {
                Some(text) => Some(text@),
                None => None,
            },
            timeout: self.timeout@,
        }
    }
}

/// The address of `key` at the server `url`.
pub open spec fn key_url(url: Seq<char>, key: Seq<char>) -> Seq<char> {
    url + "/cache/"@ + key
}

/// The key that request number `i` is about, of `concurrent` keys in all.
pub open spec fn test_key(i: nat, concurrent: nat) -> Seq<char> {
    "test_key_"@ + decimal(i % concurrent)
}

/// The value that request number `i` writes.
pub open spec fn test_value(i: nat) -> Seq<char> {
    "test_"@ + decimal(i)
}

/// A write of `value` under `key`.
pub open spec fn write_request(url: Seq<char>, key: Seq<char>, value: Seq<char>) -> RequestView {
    RequestView {
        method: Method::Put,
        url: key_url(url, key),
        body: Some(value),
        timeout: 5_000_000_000,
    }
}

/// A read of `key`.
pub open spec fn read_request(url: Seq<char>, key: Seq<char>) -> RequestView {
    RequestView {
        method: Method::Get,
        url: key_url(url, key),
        body: None,
        timeout: 5_000_000_000,
    }
}

/// Request number `i` of a load test.
pub open spec fn test_request(
    operation: TestOperation,
    url: Seq<char>,
    i: nat,
    concurrent: nat,
) -> RequestView {
    match operation {
        TestOperation::Write => write_request(url, test_key(i, concurrent), test_value(i)),
        TestOperation::Read => read_request(url, test_key(i, concurrent)),
    }
}

fn address(url: &str, key: &str) -> (text: String)
    ensures
        text@ == key_url(url@, key@),
{
    let mut text: String = join(url, "/cache/");
    text.append(key);
    text
}

/// A write of `value` under `key` at the server `url`.
pub fn write_test(url: &str, key: &str, value: &str) -> (request: Request)
    ensures
        request@ == write_request(url@, key@, value@),
        request.timeout == (Duration { secs: 5, nanos: 0 }),
{
    Request {
        method: Method::Put,
        url: address(url, key),
        body: Some(value.to_owned()),
        timeout: Duration::from_secs(5),
    }
}

/// A read of `key` at the server `url`.
pub fn read_test(url: &str, key: &str) -> (request: Request)
    ensures
        request@ == read_request(url@, key@),
        request.timeout == (Duration { secs: 5, nanos: 0 }),
{
    Request {
        method: Method::Get,
        url: address(url, key),
        body: None,
        timeout: Duration::from_secs(5),
    }
}

/// How a request came out: how long it took, or that it failed.
#[derive(Clone, Copy, Debug, PartialEq, Eq, Structural)]
pub enum Outcome {
    Success(Duration),
    Failure,
}

/// How a request came out that was answered with `status`, or not in time, after
/// `latency`: an error of the client or of the server is a failure, and so is no
/// answer.
pub fn outcome(status: Option<u16>, latency: Duration) -> (outcome: Outcome)
    ensures
        outcome == (match status {
            Some(code) => if 400 <= code <= 599 {
                Outcome::Failure
            } else {
                Outcome::Success(latency)
            },
            None => Outcome::Failure,
        }),
{
    match status {
        Some(code) => if 400 <= code && code <= 599 {
            Outcome::Failure
        } else {
            Outcome::Success(latency)
        },
        None => Outcome::Failure,
    }
}

/// What is due in a load test: to wait for requests that are under way, to rest
/// after a batch, to send the next one, or nothing more.
#[derive(Clone, Copy, Debug, PartialEq, Eq, Structural)]
pub enum LoadAction {
    Wait,
    Rest(Duration),
    Send,
    Done,
}

/// What a load test has come to.
#[derive(Clone, Copy, Debug, PartialEq, Eq, Structural)]
pub struct TestResults {
    pub requests: usize,
    pub failures: usize,
    pub total_time: Duration,
    pub avg_latency: Duration,
}

/// The nanoseconds of each duration.
pub open spec fn nanos_of(durations: Seq<Duration>) -> Seq<int> {
    durations.map_values(|d: Duration| d@)
}

/// The sum of latencies.
pub open spec fn total_latency(latencies: Seq<int>) -> int
    decreases latencies.len(),
{
    if latencies.len() == 0 {
        0
    } else {
        total_latency(latencies.drop_last()) + latencies.last()
    }
}

/// The mean latency in whole nanoseconds, rounded down and held in 64 bits; zero
/// where there is none.
pub open spec fn average_latency(latencies: Seq<int>) -> int {
    if latencies.len() == 0 {
        0
    } else {
        (total_latency(latencies) / (latencies.len() as int)) % 0x1_0000_0000_0000_0000
    }
}

/// What a `LoadTest` stands for: what it does, how many requests it has handed
/// out, the latencies of those that succeeded, the number of those that failed,
/// and whether a rest is due after the last batch.
#[verifier::ext_equal]
pub struct LoadView {
    pub operation: TestOperation,
    pub url: Seq<char>,
    pub num_requests: nat,
    pub concurrent_requests: nat,
    pub issued: nat,
    pub latencies: Seq<int>,
    pub failures: nat,
    pub rest_due: bool,
}

impl LoadView {
    /// How many requests have come out one way or the other.
    pub open spec fn answered(self) -> nat {
        self.latencies.len() + self.failures
    }

    /// How many requests the next batch has.
    pub open spec fn batch_len(self) -> int {
        next_len(self.issued as int, self.num_requests as int)
    }

    /// Whether no request comes out that was not handed out, and none is handed
    /// out beyond the number asked for.
    pub open spec fn is_balanced(self) -> bool {
        self.answered() <= self.issued <= self.num_requests
    }
}

/// How many requests follow in one batch on the first `issued` of `total`.
pub open spec fn next_len(issued: int, total: int) -> int {
    if total - issued < BATCH_SIZE {
        total - issued
    } else {
        BATCH_SIZE as int
    }
}

/// A load test under way.
pub struct LoadTest {
    operation: TestOperation,
    url: String,
    num_requests: usize,
    concurrent_requests: usize,
    issued: usize,
    durations: Vec<Duration>,
    failures: usize,
    rest_due: bool,
}

impl View for LoadTest {
    type V = LoadView;

    closed spec fn view(&self) -> LoadView {
        LoadView {
            operation: self.operation,
            url: self.url@,
            num_requests: self.num_requests as nat,
            concurrent_requests: self.concurrent_requests as nat,
            issued: self.issued as nat,
            latencies: nanos_of(self.durations@),
            failures: self.failures as nat,
            rest_due: self.rest_due,
        }
    }
}

impl LoadTest {
    #[verifier::type_invariant]
    spec fn inv(self) -> bool {
        &&& self.durations@.len() + self.failures <= self.issued <= self.num_requests
        &&& self.concurrent_requests > 0 || self.num_requests == 0
    }

    /// A load test of `num_requests` requests about `concurrent_requests` keys,
    /// at the server `url` or else at the default one.
    pub fn new(
        operation: TestOperation,
        url: Option<String>,
        num_requests: usize,
        concurrent_requests: usize,
    ) -> (test: LoadTest)
        requires
            concurrent_requests > 0 || num_requests == 0,
        ensures
            test@ == (LoadView {
                operation,
                url: match url {
                    Some(url) => url@,
                    None => DEFAULT_SERVER_URL@,
                },
                num_requests: num_requests as nat,
                concurrent_requests: concurrent_requests as nat,
                issued: 0,
                latencies: Seq::empty(),
                failures: 0,
                rest_due: false,
            }),
    {
        let url: String = match url {
            Some(url) => url,
            None => DEFAULT_SERVER_URL.to_owned(),
        };
        let test = LoadTest {
            operation,
            url,
            num_requests,
            concurrent_requests,
            issued: 0,
            durations: Vec::new(),
            failures: 0,
            rest_due: false,
        };
        assert(test@.latencies =~= Seq::<int>::empty());
        test
    }

    /// Request number `i`.
    fn request(&self, i: usize) -> (request: Request)
        requires
            self@.concurrent_requests > 0,
        ensures
            request@ == test_request(self@.operation, self@.url, i as nat, self@.concurrent_requests),
            request.timeout == (Duration { secs: 5, nanos: 0 }),
    {
        let key: String = join(
            "test_key_",
            decimal_text((i % self.concurrent_requests) as u64).as_str(),
        );
        match self.operation {
            TestOperation::Write => {
                let value: String = join("test_", decimal_text(i as u64).as_str());
                write_test(self.url.as_str(), key.as_str(), value.as_str())
            },
            TestOperation::Read => read_test(self.url.as_str(), key.as_str()),
        }
    }

    /// How many requests may be under way at once.
    pub fn permits(&self) -> (permits: usize)
        ensures
            permits == self@.concurrent_requests,
    {
        self.concurrent_requests
    }

    /// What is due: a batch is sent only once all requests before it have come
    /// out and the rest after them has been taken.
    pub fn next_action(&self) -> (action: LoadAction)
        ensures
            match action {
                LoadAction::Wait => self@.answered() < self@.issued,
                LoadAction::Rest(span) => {
                    &&& self@.answered() == self@.issued
                    &&& self@.rest_due
                    &&& span == (Duration { secs: 0, nanos: BATCH_REST_NANOS })
                },
                LoadAction::Send => {
                    &&& self@.answered() == self@.issued
                    &&& !self@.rest_due
                    &&& self@.issued < self@.num_requests
                },
                LoadAction::Done => {
                    &&& self@.answered() == self@.issued
                    &&& !self@.rest_due
                    &&& self@.issued == self@.num_requests
                },
            },
    {
        if self.outstanding() > 0 {
            LoadAction::Wait
        } else if self.rest_due {
            LoadAction::Rest(Duration { secs: 0, nanos: BATCH_REST_NANOS })
        } else if self.issued < self.num_requests {
            LoadAction::Send
        } else {
            LoadAction::Done
        }
    }

    /// The requests of the next batch, or `None` once all have been handed out.
    /// All requests before it have come out, and the rest after them is over.
    pub fn next_batch(&mut self) -> (batch: Option<Vec<Request>>)
        requires
            old(self)@.answered() == old(self)@.issued,
            !old(self)@.rest_due,
        ensures
            final(self)@.is_balanced(),
            match batch {
                None => old(self)@.issued == old(self)@.num_requests && final(self)@ == old(self)@,
                Some(requests) => {
                    &&& old(self)@.issued < old(self)@.num_requests
                    &&& requests@.len() == old(self)@.batch_len()
                    &&& forall|i: int|
                        0 <= i < requests@.len() ==> (#[trigger] requests@[i])@ == test_request(
                            old(self)@.operation,
                            old(self)@.url,
                            (old(self)@.issued + i) as nat,
                            old(self)@.concurrent_requests,
                        ) && requests@[i].timeout == (Duration { secs: 5, nanos: 0 })
                    &&& final(self)@ == (LoadView {
                        issued: (old(self)@.issued + requests@.len()) as nat,
                        rest_due: true,
                        ..old(self)@
                    })
                },
            },
    {
        proof {
            use_type_invariant(&*self);
        }
        if self.issued == self.num_requests {
            return None;
        }
        let left: usize = self.num_requests - self.issued;
        let len: usize = if left < BATCH_SIZE {
            left
        } else {
            BATCH_SIZE
        };
        let mut requests: Vec<Request> = Vec::with_capacity(len);
        let start: usize = self.issued;
        let mut i: usize = 0;
        while i < len
            invariant
                i <= len,
                start + len <= usize::MAX,
                self@ == old(self)@,
                start == self@.issued,
                self@.concurrent_requests > 0,
                requests@.len() == i,
                forall|j: int|
                    0 <= j < i ==> (#[trigger] requests@[j])@ == test_request(
                        self@.operation,
                        self@.url,
                        (start + j) as nat,
                        self@.concurrent_requests,
                    ) && requests@[j].timeout == (Duration { secs: 5, nanos: 0 }),
            decreases len - i,
        {
            requests.push(self.request(start + i));
            i = i + 1;
        }
        proof {
            use_type_invariant(&*self);
        }
        self.issued = start + len;
        self.rest_due = true;
        Some(requests)
    }

    /// Takes note that the rest after a batch is over.
    pub fn rested(&mut self)
        requires
            old(self)@.answered() == old(self)@.issued,
        ensures
            final(self)@ == (LoadView { rest_due: false, ..old(self)@ }),
            final(self)@.is_balanced(),
    {
        proof {
            use_type_invariant(&*self);
        }
        self.rest_due = false;
    }

    /// How many of the requests handed out have not come out yet.
    pub fn outstanding(&self) -> (count: usize)
        ensures
            count == self@.issued - self@.answered(),
            self@.is_balanced(),
    {
        proof {
            use_type_invariant(self);
        }
        self.issued - (self.durations.len() + self.failures)
    }

    /// Takes note of how a request came out.
    pub fn record(&mut self, outcome: Outcome)
        requires
            old(self)@.answered() < old(self)@.issued,
        ensures
            final(self)@ == (match outcome {
                Outcome::Success(latency) => LoadView {
                    latencies: old(self)@.latencies.push(latency@),
                    ..old(self)@
                },
                Outcome::Failure => LoadView { failures: old(self)@.failures + 1, ..old(self)@ },
            }),
            final(self)@.is_balanced(),
    {
        proof {
            use_type_invariant(&*self);
        }
        let ghost before = self@;
        match outcome {
            Outcome::Success(latency) => {
                let mut durations: Vec<Duration> = Vec::new();
                std::mem::swap(&mut durations, &mut self.durations);
                durations.push(latency);
                self.durations = durations;
                assert(self@.latencies =~= before.latencies.push(latency@));
            },
            Outcome::Failure => {
                self.failures = self.failures + 1;
            },
        }
    }

    /// What the load test has come to after `total_time`.
    pub fn finish(&self, total_time: Duration) -> (results: TestResults)
        ensures
            results.requests == self@.latencies.len(),
            results.failures == self@.failures,
            results.total_time == total_time,
            results.avg_latency@ == average_latency(self@.latencies),
            results.avg_latency.nanos < 1_000_000_000,
            self@.is_balanced(),
    {
        proof {
            use_type_invariant(self);
        }
        TestResults {
            requests: self.durations.len(),
            failures: self.failures,
            total_time,
            avg_latency: mean(&self.durations),
        }
    }
}

/// The mean of durations, in whole nanoseconds held in 64 bits. Seconds and
/// nanoseconds are summed apart, so that no sum can overflow.
pub fn mean(durations: &Vec<Duration>) -> (average: Duration)
    ensures
        average@ == average_latency(nanos_of(durations@)),
        average.nanos < 1_000_000_000,
{
    let n: usize = durations.len();
    if n == 0 {
        return Duration::from_secs(0);
    }
    let mut secs: u128 = 0;
    let mut nanos: u128 = 0;
    let mut i: usize = 0;
    let ghost all = nanos_of(durations@);
    assert(all.take(0) =~= Seq::<int>::empty());
    while i < n
        invariant
            n == durations@.len(),
            i <= n,
            all == nanos_of(durations@),
            secs <= i * u64::MAX,
            nanos <= i * u32::MAX,
            secs * 1_000_000_000 + nanos == total_latency(all.take(i as int)),
        decreases n - i,
    {
        assert(all.take(i + 1).drop_last() =~= all.take(i as int));
        assert(all.take(i + 1).last() == durations@[i as int]@);
        secs = secs + durations[i].secs as u128;
        nanos = nanos + durations[i].nanos as u128;
        i = i + 1;
    }
    assert(all.take(n as int) =~= all);
    let count: u128 = n as u128;
    let quotient: u128 = secs / count;
    let rest: u128 = secs % count;
    proof {
        lemma_fundamental_div_mod(secs as int, count as int);
        assert(quotient <= u64::MAX) by (nonlinear_arith)
            requires
                secs == count * quotient + rest,
                secs <= count * u64::MAX,
                count > 0,
                rest >= 0,
        ;
    }
    let remainder: u128 = rest * 1_000_000_000 + nanos;
    let value: u128 = quotient * 1_000_000_000 + remainder / count;
    proof {
        let total = total_latency(all);
        assert(total == (quotient * 1_000_000_000) * count + remainder) by (nonlinear_arith)
            requires
                secs == count * quotient + rest,
                total == secs * 1_000_000_000 + nanos,
                remainder == rest * 1_000_000_000 + nanos,
        ;
        lemma_hoist_over_denominator(remainder as int, quotient * 1_000_000_000, count as nat);
        assert(value == total / (n as int));
    }
    Duration::from_nanos((value % 0x1_0000_0000_0000_0000) as u64)
}

/// The lines of a report, but for the two rates: its heading, the two counts and
/// the two times, given as texts.
pub fn report_lines(
    operation: &str,
    requests: usize,
    failures: usize,
    total_time: &str,
    avg_latency: &str,
) -> (lines: Vec<String>)
    ensures
        lines@.len() == 5,
        lines@[0]@ == "\n"@ + operation@ + " Test Results:"@,
        lines@[1]@ == "Total Requests: "@ + decimal(requests as nat),
        lines@[2]@ == "Failed Requests: "@ + decimal(failures as nat),
        lines@[3]@ == "Total Time: "@ + total_time@,
        lines@[4]@ == "Average Latency: "@ + avg_latency@,
{
    let mut heading: String = join("\n", operation);
    heading.append(" Test Results:");
    let mut lines: Vec<String> = Vec::new();
    lines.push(heading);
    lines.push(join("Total Requests: ", decimal_text(requests as u64).as_str()));
    lines.push(join("Failed Requests: ", decimal_text(failures as u64).as_str()));
    lines.push(join("Total Time: ", total_time));
    lines.push(join("Average Latency: ", avg_latency));
    lines
}

/// The lines of a report on `results`, but for the two rates.
pub fn result_lines(operation: &str, results: &TestResults) -> (lines: Vec<String>)
    requires
        results.total_time.nanos < 1_000_000_000,
        results.avg_latency.nanos < 1_000_000_000,
    ensures
        lines@.len() == 5,
        lines@[0]@ == "\n"@ + operation@ + " Test Results:"@,
        lines@[1]@ == "Total Requests: "@ + decimal(results.requests as nat),
        lines@[2]@ == "Failed Requests: "@ + decimal(results.failures as nat),
        lines@[3]@ == "Total Time: "@ + rounded_text(
            results.total_time.secs,
            results.total_time.nanos,
        ),
        lines@[4]@ == "Average Latency: "@ + rounded_text(
            results.avg_latency.secs,
            results.avg_latency.nanos,
        ),
{
    report_lines(
        operation,
        results.requests,
        results.failures,
        results.total_time.rounded().as_str(),
        results.avg_latency.rounded().as_str(),
    )
}

/// How many of `total` requests have been handed out after `batches` batches.
pub open spec fn issued_after(batches: nat, total: nat) -> int
    decreases batches,
{
    if batches == 0 {
        0
    } else {
        let before = issued_after((batches - 1) as nat, total);
        before + next_len(before, total as int)
    }
}

/// Every batch but the last is of full size, none goes beyond the number of
/// requests, and they end exactly when all requests have been handed out.
pub proof fn law_batches_cover_all_requests(batches: nat, total: nat)
    ensures
        issued_after(batches, total) == (if batches * BATCH_SIZE < total {
            batches * BATCH_SIZE
        } else {
            total as int
        }),
        issued_after(batches, total) == total <==> batches * BATCH_SIZE >= total,
    decreases batches,
{
    if batches > 0 {
        law_batches_cover_all_requests((batches - 1) as nat, total);
    }
}

/// Two requests are about the same key if and only if their numbers leave the
/// same remainder by the number of keys.
pub proof fn law_keys_repeat_in_turn(i: nat, j: nat, concurrent: nat)
    requires
        concurrent > 0,
    ensures
        test_key(i, concurrent) == test_key(j, concurrent) <==> i % concurrent == j % concurrent,
{
    if test_key(i, concurrent) == test_key(j, concurrent) {
        lemma_same_rest("test_key_"@, decimal(i % concurrent), decimal(j % concurrent));
        law_decimal_is_injective(i % concurrent, j % concurrent);
    }
}

/// No two requests write the same value.
pub proof fn law_values_differ(i: nat, j: nat)
    requires
        i != j,
    ensures
        test_value(i) != test_value(j),
{
    if test_value(i) == test_value(j) {
        lemma_same_rest("test_"@, decimal(i), decimal(j));
        law_decimal_is_injective(i, j);
    }
}

/// A read asks for the address that the write of the same number wrote to.
pub proof fn law_reads_follow_writes(url: Seq<char>, i: nat, concurrent: nat)
    ensures
        test_request(TestOperation::Read, url, i, concurrent).url == test_request(
            TestOperation::Write,
            url,
            i,
            concurrent,
        ).url,
{
}

/// The mean latency lies between any bounds on the latencies that fit in 64
/// bits.
pub proof fn law_mean_lies_between_the_extremes(latencies: Seq<int>, low: int, high: int)
    requires
        latencies.len() > 0,
        forall|i: int| 0 <= i < latencies.len() ==> low <= #[trigger] latencies[i] <= high,
        0 <= low,
        high <= u64::MAX,
    ensures
        low <= average_latency(latencies) <= high,
{
    let n = latencies.len() as int;
    lemma_total_bounds(latencies, low, high);
    lemma_div_is_ordered(low * n, total_latency(latencies), n);
    lemma_div_is_ordered(total_latency(latencies), high * n, n);
    lemma_div_multiples_vanish(low, n);
    lemma_div_multiples_vanish(high, n);
    assert(low * n == n * low && high * n == n * high) by (nonlinear_arith);
}

proof fn lemma_total_bounds(latencies: Seq<int>, low: int, high: int)
    requires
        forall|i: int| 0 <= i < latencies.len() ==> low <= #[trigger] latencies[i] <= high,
    ensures
        low * latencies.len() <= total_latency(latencies) <= high * latencies.len(),
    decreases latencies.len(),
{
    if latencies.len() > 0 {
        let rest = latencies.drop_last();
        assert forall|i: int| 0 <= i < rest.len() implies low <= #[trigger] rest[i] <= high by {
            assert(rest[i] == latencies[i]);
        }
        lemma_total_bounds(rest, low, high);
        let n = latencies.len() as int;
        assert(low * n == low * (n - 1) + low && high * n == high * (n - 1) + high)
            by (nonlinear_arith);
        assert(latencies.last() == latencies[n - 1]);
    } else {
        assert(low * 0 == 0 && high * 0 == 0) by (nonlinear_arith);
    }
}

/// Two texts with a common beginning are the same only if the rest is.
proof fn lemma_same_rest(prefix: Seq<char>, one: Seq<char>, other: Seq<char>)
    requires
        prefix + one == prefix + other,
    ensures
        one == other,
{
    assert(one =~= (prefix + one).skip(prefix.len() as int));
    assert(other =~= (prefix + other).skip(prefix.len() as int));
}

/// Every duration counts with its seconds and its nanoseconds, in its place.
pub proof fn law_every_duration_counts(durations: Seq<Duration>)
    ensures
        nanos_of(durations).len() == durations.len(),
        forall|i: int|
            0 <= i < durations.len() ==> #[trigger] nanos_of(durations)[i] == durations[i].secs
                * 1_000_000_000 + durations[i].nanos,
{
}

/// The mean is the sum of all latencies, whatever their number, by that number,
/// in 64 bits: times their number it is the sum again, up to what is left over
/// where that does not divide, as long as no latency is beyond 64 bits.
pub proof fn law_mean_times_number_is_the_sum(latencies: Seq<int>)
    requires
        latencies.len() > 0,
    ensures
        ({
            let sum = latencies.fold_left(0, |sum: int, latency: int| sum + latency);
            let n = latencies.len() as int;
            &&& average_latency(latencies) == (sum / n) % 0x1_0000_0000_0000_0000
            &&& (forall|i: int|
                0 <= i < latencies.len() ==> 0 <= #[trigger] latencies[i] <= u64::MAX)
                ==> average_latency(latencies) * n <= sum < (average_latency(latencies) + 1) * n
        }),
{
    let n = latencies.len() as int;
    let total = total_latency(latencies);
    let quotient = total / n;
    lemma_total_is_fold(latencies);
    if forall|i: int| 0 <= i < latencies.len() ==> 0 <= #[trigger] latencies[i] <= u64::MAX {
        lemma_total_bounds(latencies, 0, u64::MAX as int);
        lemma_fundamental_div_mod(total, n);
        assert(0 <= quotient <= u64::MAX) by (nonlinear_arith)
            requires
                total == n * quotient + total % n,
                0 <= total <= u64::MAX * n,
                n > 0,
                0 <= total % n < n,
        ;
        assert(quotient * n <= total < (quotient + 1) * n) by (nonlinear_arith)
            requires
                total == n * quotient + total % n,
                n > 0,
                0 <= total % n < n,
        ;
    }
}

proof fn lemma_total_is_fold(latencies: Seq<int>)
    ensures
        total_latency(latencies) == latencies.fold_left(
            0,
            |sum: int, latency: int| sum + latency,
        ),
    decreases latencies.len(),
{
    if latencies.len() > 0 {
        lemma_total_is_fold(latencies.drop_last());
    }
}

/// `mean` takes in every duration: it is the sum of all of them by their number,
/// in 64 bits of nanoseconds, and times their number it is that sum again, up to
/// what is left over, as long as no duration is beyond 64 bits; of no duration it
/// is zero.
pub proof fn law_mean_takes_in_every_duration(durations: &Vec<Duration>, average: Duration)
    requires
        call_ensures(mean, (durations,), average),
    ensures
        average.nanos < 1_000_000_000,
        ({
            let spans = durations@.map_values(|d: Duration| d.secs * 1_000_000_000 + d.nanos);
            let sum = spans.fold_left(0, |sum: int, latency: int| sum + latency);
            let n = durations@.len() as int;
            let nanos = average.secs * 1_000_000_000 + average.nanos;
            &&& n == 0 ==> nanos == 0
            &&& n > 0 ==> nanos == (sum / n) % 0x1_0000_0000_0000_0000
            &&& n > 0 && (forall|i: int| 0 <= i < n ==> #[trigger] spans[i] <= u64::MAX) ==> nanos
                * n <= sum < (nanos + 1) * n
        }),
{
    let spans = durations@.map_values(|d: Duration| d.secs * 1_000_000_000 + d.nanos);
    assert(nanos_of(durations@) =~= spans);
    if durations@.len() > 0 {
        assert forall|i: int| 0 <= i < spans.len() implies 0 <= #[trigger] spans[i] by {}
        law_mean_times_number_is_the_sum(spans);
    }
}

/// A report counts every request that came out, and its mean takes in the latency
/// of every one that succeeded.
pub proof fn law_reports_count_every_request(
    test: &LoadTest,
    total_time: Duration,
    results: TestResults,
)
    requires
        call_ensures(LoadTest::finish, (test, total_time), results),
    ensures
        results.requests == test@.latencies.len(),
        results.failures == test@.failures,
        results.total_time == total_time,
        results.avg_latency.nanos < 1_000_000_000,
        ({
            let sum = test@.latencies.fold_left(0, |sum: int, latency: int| sum + latency);
            let n = test@.latencies.len() as int;
            let nanos = results.avg_latency.secs * 1_000_000_000 + results.avg_latency.nanos;
            &&& n == 0 ==> nanos == 0
            &&& n > 0 ==> nanos == (sum / n) % 0x1_0000_0000_0000_0000
            &&& n > 0 && (forall|i: int|
                0 <= i < n ==> 0 <= #[trigger] test@.latencies[i] <= u64::MAX) ==> nanos * n <= sum
                < (nanos + 1) * n
        }),
{
    if test@.latencies.len() > 0 {
        law_mean_times_number_is_the_sum(test@.latencies);
    }
}

/// An outcome is counted once: a success with its latency after all others, a
/// failure as one more.
pub proof fn law_outcomes_are_counted_once(test: &mut LoadTest, outcome: Outcome)
    requires
        call_ensures(LoadTest::record, (test, outcome), ()),
    ensures
        match outcome {
            Outcome::Success(latency) => {
                &&& final(test)@.latencies.len() == old(test)@.latencies.len() + 1
                &&& final(test)@.latencies.drop_last() == old(test)@.latencies
                &&& final(test)@.latencies.last() == latency.secs * 1_000_000_000 + latency.nanos
                &&& final(test)@.failures == old(test)@.failures
            },
            Outcome::Failure => {
                &&& final(test)@.latencies == old(test)@.latencies
                &&& final(test)@.failures == old(test)@.failures + 1
            },
        },
        final(test)@.issued == old(test)@.issued,
        final(test)@.num_requests == old(test)@.num_requests,
        final(test)@.concurrent_requests == old(test)@.concurrent_requests,
        final(test)@.url == old(test)@.url,
        final(test)@.operation == old(test)@.operation,
        final(test)@.rest_due == old(test)@.rest_due,
{
    if let Outcome::Success(latency) = outcome {
        assert(final(test)@.latencies.drop_last() =~= old(test)@.latencies);
    }
}

/// A write puts the whole value to the address of the whole key, a read gets that
/// address, and both wait five seconds.
pub proof fn law_requests_name_key_and_value(
    url: &str,
    key: &str,
    value: &str,
    write: Request,
    read: Request,
)
    requires
        call_ensures(write_test, (url, key, value), write),
        call_ensures(read_test, (url, key), read),
    ensures
        write.method is Put,
        write.url@ == url@ + "/cache/"@ + key@,
        write.body matches Some(body) && body@ == value@,
        write.timeout == (Duration { secs: 5, nanos: 0 }),
        read.method is Get,
        read.url@ == url@ + "/cache/"@ + key@,
        read.body is None,
        read.timeout == (Duration { secs: 5, nanos: 0 }),
{
}

/// A load test goes to the server that it was given, or else to the default one,
/// and begins with nothing handed out.
pub proof fn law_tests_go_to_their_server(
    operation: TestOperation,
    url: Option<String>,
    num_requests: usize,
    concurrent_requests: usize,
    test: LoadTest,
)
    requires
        call_ensures(LoadTest::new, (operation, url, num_requests, concurrent_requests), test),
    ensures
        url matches Some(server) ==> test@.url == server@,
        url is None ==> test@.url == "http://cache-server:8080"@,
        test@.operation == operation,
        test@.num_requests == num_requests,
        test@.concurrent_requests == concurrent_requests,
        test@.issued == 0,
        test@.latencies.len() == 0,
        test@.failures == 0,
        !test@.rest_due,
{
}

/// A batch has the next thousand requests, or all that are left, each about the key
/// of its number by the number of keys and, in a write, with a value of that
/// number; there is none if and only if all have been handed out.
pub proof fn law_batches_hand_out_the_next_requests(
    test: &mut LoadTest,
    batch: Option<Vec<Request>>,
)
    requires
        call_ensures(LoadTest::next_batch, (test,), batch),
    ensures
        batch is None <==> old(test)@.issued == old(test)@.num_requests,
        batch is None ==> final(test)@ == old(test)@,
        batch matches Some(requests) ==> {
            &&& requests@.len() == (if old(test)@.num_requests - old(test)@.issued < 1000 {
                old(test)@.num_requests - old(test)@.issued
            } else {
                1000
            })
            &&& final(test)@.issued == old(test)@.issued + requests@.len()
            &&& final(test)@.rest_due
            &&& final(test)@.latencies == old(test)@.latencies
            &&& final(test)@.failures == old(test)@.failures
            &&& final(test)@.num_requests == old(test)@.num_requests
            &&& final(test)@.concurrent_requests == old(test)@.concurrent_requests
            &&& final(test)@.url == old(test)@.url
            &&& final(test)@.operation == old(test)@.operation
            &&& forall|i: int|
                0 <= i < requests@.len() ==> (#[trigger] requests@[i]).url@ == old(test)@.url
                    + "/cache/"@ + ("test_key_"@ + decimal(
                    (old(test)@.issued + i) as nat % old(test)@.concurrent_requests,
                ))
            &&& old(test)@.operation is Write ==> forall|i: int|
                0 <= i < requests@.len() ==> (#[trigger] requests@[i]).method is Put && (
                requests@[i].body matches Some(body) && body@ == "test_"@ + decimal(
                    (old(test)@.issued + i) as nat,
                ))
            &&& old(test)@.operation is Read ==> forall|i: int|
                0 <= i < requests@.len() ==> (#[trigger] requests@[i]).method is Get
                    && requests@[i].body is None
            &&& forall|i: int|
                0 <= i < requests@.len() ==> (#[trigger] requests@[i]).timeout == (Duration {
                    secs: 5,
                    nanos: 0,
                })
        },
{
    if let Some(requests) = batch {
        assert forall|i: int| 0 <= i < requests@.len() implies (#[trigger] requests@[i])@
            == test_request(
            old(test)@.operation,
            old(test)@.url,
            (old(test)@.issued + i) as nat,
            old(test)@.concurrent_requests,
        ) by {}
    }
}

/// A test waits as long as a request is under way, then rests for 50 milliseconds
/// if a batch has come out since the last rest, then sends what is left, and is
/// done once nothing is.
pub proof fn law_actions_follow_what_came_out(test: &LoadTest, action: LoadAction)
    requires
        call_ensures(LoadTest::next_action, (test,), action),
    ensures
        match action {
            LoadAction::Wait => test@.latencies.len() + test@.failures < test@.issued,
            LoadAction::Rest(span) => {
                &&& test@.latencies.len() + test@.failures == test@.issued
                &&& test@.rest_due
                &&& span.secs == 0
                &&& span.nanos == 50_000_000
            },
            LoadAction::Send => {
                &&& test@.latencies.len() + test@.failures == test@.issued
                &&& !test@.rest_due
                &&& test@.issued < test@.num_requests
            },
            LoadAction::Done => {
                &&& test@.latencies.len() + test@.failures == test@.issued
                &&& !test@.rest_due
                &&& test@.issued == test@.num_requests
            },
        },
{
}

/// What is under way is what was handed out and has not come out either way.
pub proof fn law_requests_come_out_or_are_under_way(test: &LoadTest, count: usize)
    requires
        call_ensures(LoadTest::outstanding, (test,), count),
    ensures
        count + test@.latencies.len() + test@.failures == test@.issued,
        test@.issued <= test@.num_requests,
{
}

} // verus!
