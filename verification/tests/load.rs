use tiered_cache::load::{
    mean, outcome, read_test, report_lines, result_lines, write_test, LoadAction, LoadTest, Method,
    Outcome, Request, TestOperation, TestResults, DEFAULT_SERVER_URL,
};
use tiered_cache::time::Duration;

fn all_requests(test: &mut LoadTest) -> Vec<Vec<Request>> {
    let mut batches = vec![];
    while let Some(batch) = test.next_batch() {
        for _ in &batch {
            test.record(Outcome::Failure);
        }
        test.rested();
        batches.push(batch);
    }
    batches
}

#[test]
fn requests_of_each_kind() {
    let write = write_test("http://h:1", "k", "v");
    assert_eq!(write.method, Method::Put);
    assert_eq!(write.url, "http://h:1/cache/k");
    assert_eq!(write.body, Some("v".to_string()));
    assert_eq!(write.timeout, Duration::from_secs(5));
    let read = read_test("http://h:1", "k");
    assert_eq!(read.method, Method::Get);
    assert_eq!(read.url, "http://h:1/cache/k");
    assert_eq!(read.body, None);
    assert_eq!(read.timeout, Duration::from_secs(5));
}

#[test]
fn batches_cover_all_requests() {
    let mut test = LoadTest::new(TestOperation::Write, None, 2500, 500);
    let batches = all_requests(&mut test);
    let sizes: Vec<usize> = batches.iter().map(|b| b.len()).collect();
    assert_eq!(sizes, vec![1000, 1000, 500]);
    assert_eq!(test.outstanding(), 0);
    assert_eq!(test.finish(Duration::from_secs(1)).failures, 2500);
    let flat: Vec<&Request> = batches.iter().flatten().collect();
    for (i, request) in flat.iter().enumerate() {
        assert_eq!(request.url, format!("{}/cache/test_key_{}", DEFAULT_SERVER_URL, i % 500));
        assert_eq!(request.body, Some(format!("test_{}", i)));
    }
}

#[test]
fn full_batches_leave_no_empty_one() {
    let mut test = LoadTest::new(TestOperation::Read, Some("u".to_string()), 2000, 3);
    let sizes: Vec<usize> = all_requests(&mut test).iter().map(|b| b.len()).collect();
    assert_eq!(sizes, vec![1000, 1000]);
}

#[test]
fn reads_have_no_body() {
    let mut test = LoadTest::new(TestOperation::Read, Some("u".to_string()), 4, 3);
    let batches = all_requests(&mut test);
    let urls: Vec<&str> = batches[0].iter().map(|r| r.url.as_str()).collect();
    assert_eq!(
        urls,
        vec!["u/cache/test_key_0", "u/cache/test_key_1", "u/cache/test_key_2", "u/cache/test_key_0"]
    );
    assert!(batches[0].iter().all(|r| r.body.is_none()));
}

#[test]
fn no_requests_make_no_batch() {
    let mut test = LoadTest::new(TestOperation::Read, None, 0, 0);
    assert!(test.next_batch().is_none());
    let results = test.finish(Duration::from_secs(1));
    assert_eq!(results.requests, 0);
    assert_eq!(results.avg_latency, Duration::from_secs(0));
}

#[test]
fn outcomes_are_counted_and_averaged() {
    let mut test = LoadTest::new(TestOperation::Write, None, 4, 2);
    assert_eq!(test.next_batch().unwrap().len(), 4);
    test.record(Outcome::Success(Duration::from_nanos(5)));
    test.record(Outcome::Failure);
    test.record(Outcome::Success(Duration::from_nanos(8)));
    assert_eq!(test.outstanding(), 1);
    let results = test.finish(Duration::from_secs(9));
    assert_eq!(
        results,
        TestResults {
            requests: 2,
            failures: 1,
            total_time: Duration::from_secs(9),
            avg_latency: Duration::from_nanos(6),
        }
    );
}

#[test]
fn mean_of_durations() {
    assert_eq!(mean(&vec![]), Duration::from_secs(0));
    assert_eq!(mean(&vec![Duration { secs: 1, nanos: 0 }, Duration { secs: 2, nanos: 1 }]).as_nanos(), 1_500_000_000);
    let three = vec![Duration::from_secs(1), Duration::from_secs(1), Duration::from_secs(2)];
    assert_eq!(mean(&three).as_nanos(), 1_333_333_333);
}

#[test]
fn mean_is_held_in_sixty_four_bits() {
    let long = vec![Duration::from_secs(u64::MAX), Duration::from_secs(u64::MAX)];
    let expected = (u64::MAX as u128 * 1_000_000_000) as u64;
    assert_eq!(mean(&long), Duration::from_nanos(expected));
}

#[test]
fn report_on_results() {
    let results = TestResults {
        requests: 19990,
        failures: 10,
        total_time: Duration::from_secs(4),
        avg_latency: Duration::from_nanos(1),
    };
    assert_eq!(
        result_lines("Write", &results),
        vec![
            "\nWrite Test Results:",
            "Total Requests: 19990",
            "Failed Requests: 10",
            "Total Time: 4.00s",
            "Average Latency: 1.00ns",
        ]
    );
}

#[test]
fn report_with_given_times() {
    assert_eq!(
        report_lines("Read", 3, 0, "soon", "later"),
        vec![
            "\nRead Test Results:",
            "Total Requests: 3",
            "Failed Requests: 0",
            "Total Time: soon",
            "Average Latency: later",
        ]
    );
}

#[test]
fn status_decides_the_outcome() {
    let latency = Duration::from_nanos(7);
    for status in [100, 200, 204, 301, 399, 600, 999] {
        assert_eq!(outcome(Some(status), latency), Outcome::Success(latency));
    }
    for status in [400, 404, 499, 500, 503, 599] {
        assert_eq!(outcome(Some(status), latency), Outcome::Failure);
    }
    assert_eq!(outcome(None, latency), Outcome::Failure);
}

#[test]
fn permits_are_the_concurrent_requests() {
    let mut test = LoadTest::new(TestOperation::Write, None, 1500, 500);
    assert_eq!(test.permits(), 500);
    all_requests(&mut test);
    assert_eq!(test.permits(), 500);
    assert_eq!(LoadTest::new(TestOperation::Read, None, 0, 0).permits(), 0);
}

#[test]
fn mean_lies_between_the_extremes() {
    let durations = vec![
        Duration::from_nanos(17),
        Duration::from_nanos(4),
        Duration::from_nanos(90),
        Duration::from_nanos(33),
    ];
    let average = mean(&durations).as_nanos();
    assert_eq!(average, 36);
    assert!(4 <= average && average <= 90);
}

#[test]
fn reads_ask_for_what_writes_wrote() {
    let server = || Some("u".to_string());
    let mut writes = LoadTest::new(TestOperation::Write, server(), 7, 3);
    let mut reads = LoadTest::new(TestOperation::Read, server(), 7, 3);
    let written = all_requests(&mut writes).remove(0);
    let read = all_requests(&mut reads).remove(0);
    for i in 0..7 {
        assert_eq!(written[i].url, read[i].url);
        for j in 0..7 {
            assert_eq!(written[i].url == written[j].url, i % 3 == j % 3);
            assert_eq!(written[i].body == written[j].body, i == j);
        }
    }
}

#[test]
fn batch_waits_for_the_one_before() {
    let mut test = LoadTest::new(TestOperation::Write, None, 1500, 2);
    assert_eq!(test.next_action(), LoadAction::Send);
    assert_eq!(test.next_batch().unwrap().len(), 1000);
    for _ in 0..1000 {
        assert_eq!(test.next_action(), LoadAction::Wait);
        test.record(Outcome::Failure);
    }
    let rest = LoadAction::Rest(Duration::from_nanos(50_000_000));
    assert_eq!(test.next_action(), rest);
    test.rested();
    assert_eq!(test.next_action(), LoadAction::Send);
    assert_eq!(test.next_batch().unwrap().len(), 500);
    for _ in 0..500 {
        assert_eq!(test.next_action(), LoadAction::Wait);
        test.record(Outcome::Success(Duration::from_nanos(3)));
    }
    assert_eq!(test.next_action(), rest);
    test.rested();
    assert_eq!(test.next_action(), LoadAction::Done);
    assert!(test.next_batch().is_none());
}

#[test]
fn empty_test_is_done_at_once() {
    let test = LoadTest::new(TestOperation::Read, None, 0, 0);
    assert_eq!(test.next_action(), LoadAction::Done);
}
