use hyper::header::{HeaderMap, HeaderValue};
use std::time::Duration;
use twilight_core::ratelimiting::headers::{
    bool_value, header_bool, header_float, header_int, header_str, int_value, is_absent,
    millis_value, parse_map, read, text_value, HeaderParseError, Headers, RawHeader, RawHeaders,
    BUCKET, GLOBAL, LIMIT, REMAINING, RESET, RESET_AFTER,
};
use twilight_core::ratelimiting::in_memory::{
    GlobalLockPair, InMemoryRatelimiter, Pause, Step, Ticket,
};
use twilight_core::ratelimiting::text::{chars_of, digit, parse_bool, parse_int, parse_millis};
use twilight_core::ratelimiting::{Bucket, Ratelimiter};
use twilight_core::routing::Path;

fn map(pairs: &[(&'static str, &'static str)]) -> HeaderMap<HeaderValue> {
    let mut map = HeaderMap::new();
    for (name, value) in pairs {
        map.insert(*name, HeaderValue::from_static(value));
    }
    map
}

fn present_map() -> HeaderMap<HeaderValue> {
    map(&[
        ("x-ratelimit-bucket", "abcd1234"),
        ("x-ratelimit-limit", "10"),
        ("x-ratelimit-remaining", "9"),
        ("x-ratelimit-reset", "1470173023.123"),
        ("x-ratelimit-reset-after", "64.57"),
    ])
}

fn text(value: &str) -> RawHeader {
    RawHeader::Text(value.to_owned())
}

fn not_text() -> hyper::header::ToStrError {
    HeaderValue::from_bytes(&[0xff]).unwrap().to_str().unwrap_err()
}

fn opaque(value: &[u8]) -> RawHeader {
    RawHeader::Opaque { value: value.to_vec(), source: not_text() }
}

#[test]
fn whole_numbers_are_read() {
    assert_eq!(parse_int("0"), Some(0));
    assert_eq!(parse_int("10"), Some(10));
    assert_eq!(parse_int("+7"), Some(7));
    assert_eq!(parse_int("007"), Some(7));
    assert_eq!(parse_int("18446744073709551615"), Some(u64::MAX));
    assert_eq!(parse_int("18446744073709551616"), None);
    assert_eq!(parse_int("99999999999999999999999"), None);
    assert_eq!(parse_int(""), None);
    assert_eq!(parse_int("+"), None);
    assert_eq!(parse_int("-1"), None);
    assert_eq!(parse_int("1.5"), None);
    assert_eq!(parse_int(" 1"), None);
    assert_eq!(parse_int("1a"), None);
    assert_eq!(parse_int("１"), None);
}

#[test]
fn whole_numbers_are_read_as_std_reads_them() {
    for text in ["0", "10", "+7", "007", "", "+", "-1", "1.5", " 1", "1a", "18446744073709551615",
        "18446744073709551616", "++1", "1+"] {
        assert_eq!(parse_int(text), text.parse::<u64>().ok(), "{:?}", text);
    }
}

#[test]
fn flags_are_read() {
    assert_eq!(parse_bool("true"), Some(true));
    assert_eq!(parse_bool("false"), Some(false));
    assert_eq!(parse_bool("True"), None);
    assert_eq!(parse_bool("1"), None);
    assert_eq!(parse_bool(""), None);
    assert_eq!(parse_bool("truee"), None);
    assert_eq!(parse_bool("fals"), None);
}

#[test]
fn seconds_come_to_milliseconds_rounded_up() {
    assert_eq!(parse_millis("1"), Some(1000));
    assert_eq!(parse_millis("1.5"), Some(1500));
    assert_eq!(parse_millis("64.57"), Some(64570));
    assert_eq!(parse_millis("1470173023.123"), Some(1470173023123));
    assert_eq!(parse_millis("0.001"), Some(1));
    assert_eq!(parse_millis("0.0001"), Some(1));
    assert_eq!(parse_millis("0.0010"), Some(1));
    assert_eq!(parse_millis("0.0011"), Some(2));
    assert_eq!(parse_millis("4.35"), Some(4350));
    assert_eq!(parse_millis("0.9999"), Some(1000));
    assert_eq!(parse_millis("0"), Some(0));
    assert_eq!(parse_millis("0.000"), Some(0));
    assert_eq!(parse_millis("5."), Some(5000));
    assert_eq!(parse_millis(".5"), Some(500));
    assert_eq!(parse_millis("+2.25"), Some(2250));
    assert_eq!(parse_millis("0.5"), Some(500));
}

#[test]
fn seconds_beyond_the_range_are_clamped() {
    assert_eq!(parse_millis("-1"), Some(0));
    assert_eq!(parse_millis("-0.5"), Some(0));
    assert_eq!(parse_millis("-99999999999999999999999999"), Some(0));
    assert_eq!(parse_millis("18446744073709551.615"), Some(u64::MAX));
    assert_eq!(parse_millis("18446744073709551.614"), Some(u64::MAX - 1));
    assert_eq!(parse_millis("18446744073709551.6141"), Some(u64::MAX));
    assert_eq!(parse_millis("18446744073709552"), Some(u64::MAX));
    assert_eq!(parse_millis("99999999999999999999999999.5"), Some(u64::MAX));
}

#[test]
fn texts_that_write_no_decimal_number_give_nothing() {
    for text in ["", ".", "+", "-", "+.", "1.2.3", "1,5", "abc", "1e3", "inf", "NaN", " 1", "1 ",
        "--1", "1-"] {
        assert_eq!(parse_millis(text), None, "{:?}", text);
    }
}

#[test]
fn digits_and_characters_are_read() {
    assert_eq!(digit('0'), Some(0));
    assert_eq!(digit('9'), Some(9));
    assert_eq!(digit('a'), None);
    assert_eq!(digit('٣'), None);
    assert_eq!(chars_of("añb"), vec!['a', 'ñ', 'b']);
    assert!(chars_of("").is_empty());
}

#[test]
fn headers_of_a_bucket_are_present() {
    match Headers::try_from(&present_map()).unwrap() {
        Headers::Present { bucket, global, limit, remaining, reset, reset_after } => {
            assert_eq!(bucket, Some("abcd1234".to_owned()));
            assert!(!global);
            assert_eq!(limit, 10);
            assert_eq!(remaining, 9);
            assert_eq!(reset, 1470173023123);
            assert_eq!(reset_after, 64570);
        }
        other => panic!("{:?}", other),
    }
    let headers = Headers::try_from(&present_map()).unwrap();
    assert!(headers.is_present());
    assert!(!headers.is_none());
    assert!(!headers.is_global());
}

#[test]
fn headers_of_a_bucket_may_lack_name_and_flag() {
    let mut headers = present_map();
    headers.remove("x-ratelimit-bucket");
    headers.insert("x-ratelimit-global", HeaderValue::from_static("true"));
    match parse_map(&headers).unwrap() {
        Headers::Present { bucket, global, .. } => {
            assert_eq!(bucket, None);
            assert!(global);
        }
        other => panic!("{:?}", other),
    }
    assert!(Headers::try_from(&headers).unwrap().is_global());

    headers.insert("x-ratelimit-global", HeaderValue::from_static("yes"));
    match Headers::try_from(&headers).unwrap() {
        Headers::Present { global, .. } => assert!(!global),
        other => panic!("{:?}", other),
    }
}

#[test]
fn no_headers_mean_no_limit() {
    let headers = Headers::try_from(&map(&[("content-type", "application/json")])).unwrap();
    assert!(headers.is_none());
    assert!(!headers.is_present());
    assert!(!headers.is_global());
    assert!(Headers::try_from(&HeaderMap::new()).unwrap().is_none());
    assert!(Headers::try_from(&map(&[("x-ratelimit-reset-after", "5")])).unwrap().is_none());
}

#[test]
fn global_flag_alone_means_all_buckets_are_limited() {
    let headers = Headers::try_from(&map(&[
        ("x-ratelimit-global", "true"),
        ("x-ratelimit-reset-after", "0.5"),
    ]))
    .unwrap();
    match headers {
        Headers::GlobalLimited { reset_after } => assert_eq!(reset_after, 500),
        ref other => panic!("{:?}", other),
    }
    match Headers::try_from(&map(&[
        ("x-ratelimit-global", "true"),
        ("x-ratelimit-reset-after", "2"),
    ]))
    .unwrap()
    {
        Headers::GlobalLimited { reset_after } => assert_eq!(reset_after, 2000),
        other => panic!("{:?}", other),
    }
    assert!(headers.is_global());
    assert!(!headers.is_present());
    assert!(!headers.is_none());
}

#[test]
fn global_flag_without_reset_after_is_a_fault() {
    match Headers::try_from(&map(&[("x-ratelimit-global", "true")])) {
        Err(HeaderParseError::HeaderMissing { name }) => assert_eq!(name, "x-ratelimit-reset-after"),
        other => panic!("{:?}", other),
    }
    match Headers::try_from(&map(&[
        ("x-ratelimit-global", "true"),
        ("x-ratelimit-reset-after", "soon"),
    ])) {
        Err(HeaderParseError::ParsingFloatText { name, text }) => {
            assert_eq!(name, "x-ratelimit-reset-after");
            assert_eq!(text, "soon");
        }
        other => panic!("{:?}", other),
    }
}

#[test]
fn missing_sibling_is_a_fault() {
    let mut headers = present_map();
    headers.remove("x-ratelimit-remaining");
    match Headers::try_from(&headers) {
        Err(HeaderParseError::HeaderMissing { name }) => assert_eq!(name, "x-ratelimit-remaining"),
        other => panic!("{:?}", other),
    }
    match Headers::try_from(&map(&[("x-ratelimit-bucket", "abc")])) {
        Err(HeaderParseError::HeaderMissing { name }) => assert_eq!(name, "x-ratelimit-limit"),
        other => panic!("{:?}", other),
    }
}

#[test]
fn malformed_values_are_faults() {
    let mut headers = present_map();
    headers.insert("x-ratelimit-limit", HeaderValue::from_static("ten"));
    match Headers::try_from(&headers) {
        Err(HeaderParseError::ParsingIntText { name, text }) => {
            assert_eq!(name, "x-ratelimit-limit");
            assert_eq!(text, "ten");
        }
        other => panic!("{:?}", other),
    }

    let mut headers = present_map();
    headers.insert("x-ratelimit-reset", HeaderValue::from_static("soon"));
    match Headers::try_from(&headers) {
        Err(HeaderParseError::ParsingFloatText { name, text }) => {
            assert_eq!(name, "x-ratelimit-reset");
            assert_eq!(text, "soon");
        }
        other => panic!("{:?}", other),
    }

    let mut headers = present_map();
    headers.insert("x-ratelimit-reset-after", HeaderValue::from_bytes(&[0x31, 0xff]).unwrap());
    match Headers::try_from(&headers) {
        Err(HeaderParseError::HeaderNotUtf8 { name, value, .. }) => {
            assert_eq!(name, "x-ratelimit-reset-after");
            assert_eq!(value, vec![0x31, 0xff]);
        }
        other => panic!("{:?}", other),
    }
}

#[test]
fn single_headers_are_read_off_the_map() {
    let headers = map(&[
        ("x-ratelimit-global", "false"),
        ("x-ratelimit-limit", "12"),
        ("x-ratelimit-reset", "2.0005"),
        ("x-ratelimit-bucket", "name with\ttab"),
    ]);
    assert_eq!(header_bool(&headers, GLOBAL).unwrap(), false);
    assert_eq!(header_int(&headers, LIMIT).unwrap(), 12);
    assert_eq!(header_float(&headers, RESET).unwrap(), 2001);
    assert_eq!(header_str(&headers, BUCKET).unwrap(), "name with\ttab");
    assert!(matches!(read(&headers, "X-RateLimit-Limit"), RawHeader::Text(text) if text == "12"));
    assert!(matches!(read(&headers, REMAINING), RawHeader::Absent));

    match header_bool(&headers, LIMIT) {
        Err(HeaderParseError::ParsingBoolText { name, text }) => {
            assert_eq!(name, "x-ratelimit-limit");
            assert_eq!(text, "12");
        }
        other => panic!("{:?}", other),
    }
    match header_int(&headers, REMAINING) {
        Err(HeaderParseError::HeaderMissing { name }) => assert_eq!(name, "x-ratelimit-remaining"),
        other => panic!("{:?}", other),
    }
    assert!(header_float(&headers, RESET_AFTER).is_err());
    assert!(header_str(&headers, RESET_AFTER).is_err());
}

#[test]
fn opaque_values_are_handed_out_as_bytes() {
    let mut headers = HeaderMap::new();
    headers.insert("x-ratelimit-bucket", HeaderValue::from_bytes(b"caf\xc3\xa9").unwrap());
    assert!(matches!(
        read(&headers, BUCKET),
        RawHeader::Opaque { value, .. } if value == b"caf\xc3\xa9".to_vec()
    ));
    match header_str(&headers, BUCKET) {
        Err(HeaderParseError::HeaderNotUtf8 { name, value, .. }) => {
            assert_eq!(name, "x-ratelimit-bucket");
            assert_eq!(value, b"caf\xc3\xa9".to_vec());
        }
        other => panic!("{:?}", other),
    }
}

#[test]
fn raw_headers_are_classified() {
    let raw = || RawHeaders {
        bucket: opaque(&[0xff]),
        global: RawHeader::Absent,
        limit: text("5"),
        remaining: text("0"),
        reset: text("10"),
        reset_after: text("0.25"),
    };
    match Headers::from_raw(raw()).unwrap() {
        Headers::Present { bucket, global, limit, remaining, reset, reset_after } => {
            assert_eq!(bucket, None);
            assert!(!global);
            assert_eq!((limit, remaining, reset, reset_after), (5, 0, 10000, 250));
        }
        other => panic!("{:?}", other),
    }
    assert!(Headers::present(raw()).is_ok());

    let only_bucket = RawHeaders {
        bucket: opaque(&[0xff]),
        global: text("true"),
        limit: RawHeader::Absent,
        remaining: RawHeader::Absent,
        reset: RawHeader::Absent,
        reset_after: text("1"),
    };
    assert!(Headers::from_raw(only_bucket).is_err());
    assert!(matches!(RawHeaders::read(&present_map()).limit, RawHeader::Text(text) if text == "10"));
}

#[test]
fn raw_values_are_read_by_kind() {
    assert_eq!(int_value(LIMIT, text("3")).unwrap(), 3);
    assert_eq!(bool_value(GLOBAL, text("true")).unwrap(), true);
    assert_eq!(millis_value(RESET, text("0.0004")).unwrap(), 1);
    assert_eq!(text_value(BUCKET, text("b")).unwrap(), "b");
    assert!(int_value(LIMIT, RawHeader::Absent).is_err());
    assert!(bool_value(GLOBAL, opaque(&[1])).is_err());
    assert!(millis_value(RESET, text("x")).is_err());
    assert!(is_absent(&RawHeader::Absent));
    assert!(!is_absent(&text("")));
}

#[test]
fn bucket_reports_what_it_was_given() {
    let bucket = Bucket::new(10, 4, 1000, 5000);
    assert_eq!(bucket.limit(), 10);
    assert_eq!(bucket.remaining(), 4);
    assert_eq!(bucket.reset_after(), 1000);
    assert_eq!(bucket.started_at(), 5000);
}

#[test]
fn bucket_time_remaining_counts_down() {
    let bucket = Bucket::new(10, 4, 1000, 5000);
    assert_eq!(bucket.time_remaining_at(5000), Some(1000));
    assert_eq!(bucket.time_remaining_at(5400), Some(600));
    assert_eq!(bucket.time_remaining_at(6000), Some(0));
    assert_eq!(bucket.time_remaining_at(6001), None);
    assert_eq!(bucket.time_remaining_at(u64::MAX), None);
    assert_eq!(bucket.time_remaining_at(4000), Some(1000));
}

#[test]
fn bucket_time_remaining_uses_the_clock() {
    let started_in_the_future = Bucket::new(10, 4, 1500, u64::MAX);
    assert_eq!(started_in_the_future.time_remaining(), Some(Duration::from_millis(1500)));
    let long_refreshed = Bucket::new(10, 4, 1500, 0);
    assert_eq!(long_refreshed.time_remaining(), None);
}

#[test]
fn global_lock_pair_locks_and_unlocks() {
    let mut pair = GlobalLockPair::new();
    assert!(!pair.is_locked());
    pair.lock();
    assert!(pair.is_locked());
    pair.unlock();
    assert!(!pair.is_locked());
}

#[test]
fn tickets_are_signalled_in_the_order_requested() {
    let mut limiter = InMemoryRatelimiter::new();
    let path = Path::ChannelsIdMessages(1);
    let other = Path::ChannelsIdMessages(2);
    let (a, fresh_a) = limiter.request(path);
    let (x, fresh_x) = limiter.request(other);
    let (b, fresh_b) = limiter.request(path);
    let (c, _) = limiter.request(path);
    assert!(fresh_a && fresh_x && !fresh_b);
    assert_eq!((a, x, b, c), (Ticket(0), Ticket(1), Ticket(2), Ticket(3)));

    assert_eq!(limiter.next(&path), Step::Signal(a));
    assert_eq!(limiter.next(&other), Step::Signal(x));
    let (d, _) = limiter.request(path);
    assert_eq!(limiter.next(&path), Step::Signal(b));
    assert_eq!(limiter.next(&path), Step::Signal(c));
    assert_eq!(limiter.next(&path), Step::Signal(d));
    assert!(limiter.has_bucket(&path));
    assert_eq!(limiter.next(&path), Step::Exit);
    assert!(!limiter.has_bucket(&path));
    assert_eq!(limiter.next(&path), Step::Exit);
    assert!(limiter.has_bucket(&other));
}

#[test]
fn global_limit_holds_every_ticket_back() {
    let mut limiter = InMemoryRatelimiter::new();
    let first = Path::GuildsId(1);
    let second = Path::UsersId;
    let (a, _) = limiter.request(first);
    let (b, _) = limiter.request(second);
    assert_eq!(limiter.next(&first), Step::Signal(a));
    assert!(!limiter.is_globally_locked());

    let pause = limiter.report(&first, &Headers::GlobalLimited { reset_after: 500 }, 1_000);
    assert_eq!(pause, Pause { global: Some(500), bucket: None });
    assert!(limiter.is_globally_locked());
    assert_eq!(limiter.next(&second), Step::AwaitGlobal);
    assert_eq!(limiter.next(&second), Step::AwaitGlobal);
    let (c, _) = limiter.request(first);
    assert_eq!(limiter.next(&first), Step::AwaitGlobal);

    limiter.release_global();
    assert!(!limiter.is_globally_locked());
    assert_eq!(limiter.next(&second), Step::Signal(b));
    assert_eq!(limiter.next(&first), Step::Signal(c));
}

#[test]
fn reported_headers_become_the_buckets_limits() {
    let mut limiter = InMemoryRatelimiter::new();
    let path = Path::Gateway;
    assert!(limiter.bucket_info(&path).is_none());
    limiter.request(path);
    limiter.request(path);
    assert_eq!(limiter.bucket_info(&path), Some(Bucket::new(u64::MAX, u64::MAX, u64::MAX, 0)));
    assert!(matches!(limiter.next(&path), Step::Signal(_)));

    let pause = limiter.report(
        &path,
        &Headers::Present {
            bucket: Some("b".to_owned()),
            global: false,
            limit: 5,
            remaining: 0,
            reset: 9_000,
            reset_after: 750,
        },
        8_250,
    );
    assert_eq!(pause, Pause { global: None, bucket: Some(750) });
    assert_eq!(limiter.bucket_info(&path), Some(Bucket::new(5, 0, 750, 8_250)));

    let pause = limiter.report(
        &path,
        &Headers::Present {
            bucket: None,
            global: true,
            limit: 5,
            remaining: 2,
            reset: 9_000,
            reset_after: 100,
        },
        8_900,
    );
    assert_eq!(pause, Pause { global: Some(100), bucket: None });
    assert!(limiter.is_globally_locked());

    assert_eq!(limiter.report(&path, &Headers::Unlimited, 9_000), Pause { global: None, bucket: None });
    assert_eq!(limiter.bucket_info(&path), Some(Bucket::new(5, 2, 100, 8_900)));
    assert_eq!(
        limiter.report(
            &Path::VoiceRegions,
            &Headers::Present {
                bucket: None,
                global: false,
                limit: 1,
                remaining: 1,
                reset: 1,
                reset_after: 1,
            },
            1,
        ),
        Pause { global: None, bucket: None }
    );
    assert!(!limiter.has_bucket(&Path::VoiceRegions));
}

#[test]
fn limiter_serves_through_its_trait() {
    fn drive<R: Ratelimiter>(limiter: &mut R) -> (Ticket, bool, bool) {
        let ticket = limiter.ticket(Path::Guilds);
        (ticket, limiter.has(&Path::Guilds), limiter.globally_locked())
    }
    let mut limiter = InMemoryRatelimiter::new();
    assert!(!limiter.has(&Path::Guilds));
    assert!(limiter.bucket(&Path::Guilds).is_none());
    assert_eq!(drive(&mut limiter), (Ticket(0), true, false));
    assert!(limiter.bucket(&Path::Guilds).is_some());
    assert!(!limiter.entry(Path::Guilds, Ticket(77)));
    assert!(limiter.entry(Path::InvitesCode, Ticket(78)));
    assert_eq!(limiter.next(&Path::Guilds), Step::Signal(Ticket(0)));
    assert_eq!(limiter.next(&Path::Guilds), Step::Signal(Ticket(77)));
}

#[test]
fn fault_messages_name_the_header_and_quote_the_text() {
    assert_eq!(HeaderParseError::NoHeaders.message(), "No headers are present");
    assert_eq!(
        HeaderParseError::HeaderMissing { name: "x-ratelimit-limit" }.message(),
        format!("At least one header, {:?}, is missing", "x-ratelimit-limit")
    );
    let bytes = vec![0u8, 7, 10, 49, 99, 100, 109, 255];
    assert_eq!(
        HeaderParseError::HeaderNotUtf8 {
            name: "x-ratelimit-bucket",
            source: not_text(),
            value: bytes.clone(),
        }
            .message(),
        format!("The header {:?} has invalid UTF-16: {:?}", "x-ratelimit-bucket", bytes)
    );
    assert_eq!(
        HeaderParseError::HeaderNotUtf8 { name: "b", source: not_text(), value: Vec::new() }
            .message(),
        "The header \"b\" has invalid UTF-16: []"
    );
    assert_eq!(
        HeaderParseError::HeaderNotUtf8 { name: "b", source: not_text(), value: vec![5] }.message(),
        "The header \"b\" has invalid UTF-16: [5]"
    );
    let text = "a \"quoted\" \\ text\twith tab".to_owned();
    assert_eq!(
        HeaderParseError::ParsingBoolText { name: "x-ratelimit-global", text: text.clone() }
            .message(),
        format!("The header {:?} should be a bool but isn't: {:?}", "x-ratelimit-global", text)
    );
    assert_eq!(
        HeaderParseError::ParsingFloatText { name: "x-ratelimit-reset", text: "soon".to_owned() }
            .message(),
        "The header \"x-ratelimit-reset\" should be a float but isn't: \"soon\""
    );
    assert_eq!(
        HeaderParseError::ParsingIntText { name: "x-ratelimit-limit", text: "line\nbreak\r".to_owned() }
            .message(),
        format!("The header {:?} should be an integer but isn't: {:?}", "x-ratelimit-limit", "line\nbreak\r")
    );
}

#[test]
fn fault_of_a_map_has_a_message() {
    let mut headers = present_map();
    headers.insert("x-ratelimit-limit", HeaderValue::from_static("t\"en"));
    assert_eq!(
        Headers::try_from(&headers).unwrap_err().message(),
        "The header \"x-ratelimit-limit\" should be an integer but isn't: \"t\\\"en\""
    );
}

#[test]
fn bucket_time_remaining_follows_what_the_clock_gave() {
    let bucket = Bucket::new(10, 4, 1000, 5000);
    assert_eq!(bucket.time_remaining_by(None), None);
    assert_eq!(bucket.time_remaining_by(Some(5400)), Some(Duration::from_millis(600)));
    assert_eq!(bucket.time_remaining_by(Some(6000)), Some(Duration::from_millis(0)));
    assert_eq!(bucket.time_remaining_by(Some(6001)), None);
    assert_eq!(bucket.time_remaining_by(Some(0)), Some(Duration::from_millis(1000)));
}

#[test]
fn limiter_trait_tells_what_the_limiter_holds() {
    let mut limiter = InMemoryRatelimiter::new();
    let path = Path::ChannelsIdPins(3);
    assert_eq!(Ratelimiter::ticket(&mut limiter, path), Ticket(0));
    assert_eq!(Ratelimiter::ticket(&mut limiter, path), Ticket(1));
    assert!(Ratelimiter::has(&limiter, &path));
    assert!(!Ratelimiter::has(&limiter, &Path::ChannelsIdPins(4)));
    assert_eq!(
        Ratelimiter::bucket(&limiter, &path),
        Some(Bucket::new(u64::MAX, u64::MAX, u64::MAX, 0))
    );
    assert_eq!(Ratelimiter::bucket(&limiter, &Path::Gateway), None);
    assert!(!Ratelimiter::globally_locked(&limiter));
    limiter.report(&path, &Headers::GlobalLimited { reset_after: 5 }, 0);
    assert!(Ratelimiter::globally_locked(&limiter));
    assert_eq!(limiter.next(&path), Step::AwaitGlobal);
    limiter.release_global();
    assert_eq!(limiter.next(&path), Step::Signal(Ticket(0)));
    assert_eq!(limiter.next(&path), Step::Signal(Ticket(1)));
}

#[test]
fn fault_of_a_value_that_is_no_text_keeps_its_source() {
    let mut headers = present_map();
    headers.insert("x-ratelimit-limit", HeaderValue::from_bytes(&[0x31, 0x80]).unwrap());
    match Headers::try_from(&headers) {
        Err(HeaderParseError::HeaderNotUtf8 { name, source, value }) => {
            assert_eq!(name, "x-ratelimit-limit");
            assert_eq!(value, vec![0x31, 0x80]);
            assert_eq!(format!("{:?}", source), format!("{:?}", not_text()));
        }
        other => panic!("{:?}", other),
    }
}

#[test]
fn global_limit_with_a_bucket_header_is_a_fault() {
    let raw = RawHeaders {
        bucket: RawHeader::Absent,
        global: text("true"),
        limit: text("x"),
        remaining: RawHeader::Absent,
        reset: RawHeader::Absent,
        reset_after: text("1.5"),
    };
    match Headers::from_raw(raw) {
        Err(HeaderParseError::ParsingIntText { name, .. }) => assert_eq!(name, "x-ratelimit-limit"),
        other => panic!("{:?}", other),
    }
    let raw = RawHeaders {
        bucket: RawHeader::Absent,
        global: text("whatever"),
        limit: RawHeader::Absent,
        remaining: RawHeader::Absent,
        reset: RawHeader::Absent,
        reset_after: text("1.5"),
    };
    match Headers::from_raw(raw).unwrap() {
        Headers::GlobalLimited { reset_after } => assert_eq!(reset_after, 1500),
        other => panic!("{:?}", other),
    }
}

#[test]
fn default_latch_is_not_set() {
    assert!(!GlobalLockPair::default().is_locked());
}

#[test]
fn paths_have_numbers_of_their_own() {
    let paths = [
        Path::ChannelsId(0),
        Path::ChannelsId(1),
        Path::ChannelsId(u64::MAX),
        Path::ChannelsIdInvites(0),
        Path::ChannelsIdInvites(1),
        Path::Gateway,
        Path::GatewayBot,
        Path::Guilds,
        Path::GuildsId(1),
        Path::WebhooksId(1),
        Path::WebhooksId(u64::MAX),
        Path::VoiceRegions,
    ];
    for (i, a) in paths.iter().enumerate() {
        for (j, b) in paths.iter().enumerate() {
            assert_eq!(a.code() == b.code(), i == j);
        }
    }
    assert_eq!(Path::ChannelsId(7).code(), 7);
    assert_eq!(Path::ChannelsIdInvites(7).code(), (1u128 << 64) + 7);
}

#[test]
fn buckets_of_many_paths_are_kept_apart() {
    let mut limiter = InMemoryRatelimiter::new();
    for id in 0..50u64 {
        assert!(limiter.entry(Path::ChannelsIdMessages(id), Ticket(id)));
        assert!(limiter.entry(Path::ChannelsIdPins(id), Ticket(1000 + id)));
    }
    for id in 0..50u64 {
        assert!(!limiter.entry(Path::ChannelsIdMessages(id), Ticket(2000 + id)));
    }
    for id in 0..50u64 {
        assert_eq!(limiter.next(&Path::ChannelsIdMessages(id)), Step::Signal(Ticket(id)));
        assert_eq!(limiter.next(&Path::ChannelsIdMessages(id)), Step::Signal(Ticket(2000 + id)));
        assert_eq!(limiter.next(&Path::ChannelsIdMessages(id)), Step::Exit);
        assert!(!limiter.has_bucket(&Path::ChannelsIdMessages(id)));
        assert!(limiter.has_bucket(&Path::ChannelsIdPins(id)));
        assert_eq!(limiter.next(&Path::ChannelsIdPins(id)), Step::Signal(Ticket(1000 + id)));
    }
}
