use parallax::digest::sha256_hex_of;
use parallax::time::Timestamp;

#[test]
fn parse_reads_rfc3339() {
    let t = Timestamp::parse("2024-01-01T00:00:00Z").unwrap();
    assert_eq!(t.unix_seconds(), 1_704_067_200);
    assert_eq!(t.subsec_nanos(), 0);
    let t = Timestamp::parse("2024-01-01T01:00:00.5+01:00").unwrap();
    assert_eq!(t.unix_seconds(), 1_704_067_200);
    assert_eq!(t.subsec_nanos(), 500_000_000);
}

#[test]
fn parse_refuses_other_text() {
    assert!(Timestamp::parse("garbage").is_none());
    assert!(Timestamp::parse("").is_none());
    assert!(Timestamp::parse("2024-13-01T00:00:00Z").is_none());
    assert!(Timestamp::parse("2024-01-01").is_none());
}

#[test]
fn from_unix_checks_the_range() {
    assert!(Timestamp::from_unix(0, 0).is_some());
    assert!(Timestamp::from_unix(i64::MAX, 0).is_none());
    assert!(Timestamp::from_unix(i64::MIN, 0).is_none());
    assert!(Timestamp::from_unix(0, 2_000_000_000).is_none());
    assert!(Timestamp::from_unix(0, 1_500_000_000).is_none());
    assert!(Timestamp::from_unix(59, 1_500_000_000).is_some());
}

#[test]
fn writes_rfc3339() {
    let t = Timestamp::from_unix(1_704_067_200, 0).unwrap();
    assert_eq!(t.to_rfc3339(), "2024-01-01T00:00:00+00:00");
    let t = Timestamp::from_unix(1_704_067_201, 500_000_000).unwrap();
    assert_eq!(t.to_rfc3339(), "2024-01-01T00:00:01.500+00:00");
    let t = Timestamp::from_unix(1_704_067_201, 1).unwrap();
    assert_eq!(t.to_rfc3339(), "2024-01-01T00:00:01.000000001+00:00");
}

#[test]
fn writes_compact_stamp() {
    let t = Timestamp::from_unix(1_704_067_200, 0).unwrap();
    assert_eq!(t.to_compact(), "20240101000000");
    let t = Timestamp::from_unix(1_718_546_399, 999_999_999).unwrap();
    assert_eq!(t.to_compact(), "20240616135959");
}

#[test]
fn rfc3339_round_trip() {
    let t = Timestamp::from_unix(1_718_546_399, 123_456_789).unwrap();
    assert_eq!(Timestamp::parse(&t.to_rfc3339()), Some(t));
}

#[test]
fn orders_instants() {
    let a = Timestamp::from_unix(100, 5).unwrap();
    let b = Timestamp::from_unix(100, 6).unwrap();
    let c = Timestamp::from_unix(101, 0).unwrap();
    assert!(a.is_before(&b));
    assert!(b.is_before(&c));
    assert!(a.is_before(&c));
    assert!(!b.is_before(&a));
    assert!(!a.is_before(&a));
}

#[test]
fn days_are_added_by_the_calendar() {
    let start = Timestamp::from_unix(1_000, 500).unwrap();
    let day = 86_400;
    assert_eq!(start.plus_days(7), Timestamp::from_unix(1_000 + 7 * day, 500));
    assert_eq!(start.plus_days(0), Some(start));
    assert_eq!(start.plus_days(-1), Timestamp::from_unix(1_000 - day, 500));
    assert_eq!(start.plus_days(i64::MAX), None);
    assert_eq!(start.plus_days(i64::MIN), None);
    assert_eq!(start.plus_days(200_000_000), None);
    assert!(Timestamp::from_unix(1_000 + 7 * day, 499).unwrap().is_before(&start.plus_days(7).unwrap()));
    assert!(!Timestamp::from_unix(1_000 + 7 * day, 500).unwrap().is_before(&start.plus_days(7).unwrap()));
}

#[test]
fn the_later_of_two_instants() {
    let a = Timestamp::from_unix(100, 5).unwrap();
    let b = Timestamp::from_unix(100, 6).unwrap();
    assert_eq!(a.later_of(&b), b);
    assert_eq!(b.later_of(&a), b);
    assert_eq!(a.later_of(&a), a);
}

#[test]
fn now_is_after_2020() {
    let now = Timestamp::now();
    assert!(Timestamp::from_unix(1_577_836_800, 0).unwrap().is_before(&now));
}

#[test]
fn sha256_hex_of_abc() {
    assert_eq!(
        sha256_hex_of(b"abc"),
        "ba7816bf8f01cfea414140de5dae2223b00361a396177a9cb410ff61f20015ad"
    );
    assert_eq!(
        sha256_hex_of(b""),
        "e3b0c44298fc1c149afbf4c8996fb92427ae41e4649b934ca495991b7852b855"
    );
}

#[test]
fn now_can_be_rebuilt_and_written() {
    let now = Timestamp::now();
    assert_eq!(Timestamp::from_unix(now.unix_seconds(), now.subsec_nanos()), Some(now));
    assert_eq!(Timestamp::parse(&now.to_rfc3339()), Some(now));
}
