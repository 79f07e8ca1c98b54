use m_core::bridge::{PlatformInfo, PlatformLimited};
use m_core::metadata::Platform;
use m_core::text::{copy_opt, decimal, eq_ignoring_case, join2, join3, same_opt};
use m_core::time::{current_stamp, Timestamp};

#[test]
fn decimal_numerals() {
    assert_eq!(decimal(0), "0");
    assert_eq!(decimal(5), "5");
    assert_eq!(decimal(9), "9");
    assert_eq!(decimal(10), "10");
    assert_eq!(decimal(409), "409");
    assert_eq!(decimal(u32::MAX), "4294967295");
}

#[test]
fn joins() {
    assert_eq!(join2("a", "b"), "ab");
    assert_eq!(join2("", ""), "");
    assert_eq!(join3("a", "", "c"), "ac");
    assert_eq!(join3("-p", "中文", "!"), "-p中文!");
}

#[test]
fn comparison_ignores_ascii_case_only() {
    assert!(eq_ignoring_case("zip", "ZIP"));
    assert!(eq_ignoring_case("ZiP", "zIp"));
    assert!(eq_ignoring_case("", ""));
    assert!(eq_ignoring_case("7z", "7Z"));
    assert!(!eq_ignoring_case("zip", "zi"));
    assert!(!eq_ignoring_case("zip", "zap"));
    assert!(!eq_ignoring_case("é", "É"));
    assert!(eq_ignoring_case("éa", "éA"));
    assert!(!eq_ignoring_case("[", "{"));
    assert!(!eq_ignoring_case("@", "`"));
}

#[test]
fn optional_texts() {
    let a = Some("x".to_string());
    assert!(same_opt(&a, &Some("x".to_string())));
    assert!(!same_opt(&a, &Some("y".to_string())));
    assert!(!same_opt(&a, &None));
    assert!(!same_opt(&None, &a));
    assert!(same_opt(&None, &None));
    assert_eq!(copy_opt(&a), a);
    assert_eq!(copy_opt(&None), None);
}

#[test]
fn order_of_instants() {
    let a = Timestamp { secs: 1, nanos: 5 };
    let b = Timestamp { secs: 1, nanos: 6 };
    let c = Timestamp { secs: 2, nanos: 0 };
    assert!(a.is_before(&b));
    assert!(b.is_before(&c));
    assert!(a.is_before(&c));
    assert!(!b.is_before(&a));
    assert!(!a.is_before(&a));
    assert!(Timestamp { secs: -1, nanos: 999 }.is_before(&Timestamp::epoch()));
    assert_eq!(Timestamp::epoch(), Timestamp { secs: 0, nanos: 0 });
}

#[test]
fn the_clock_gives_the_present() {
    let now = Timestamp::now();
    assert!(now.secs > 1_600_000_000);
    assert!(now.nanos < m_core::time::NANOS_LIMIT);
    assert_eq!(m_core::time::NANOS_LIMIT, 2_000_000_000);
    let later = Timestamp::now();
    assert!(!later.is_before(&Timestamp { secs: now.secs - 5, nanos: 0 }));
}

#[test]
fn the_stamp_has_date_and_time() {
    let stamp = current_stamp();
    let chars: Vec<char> = stamp.chars().collect();
    assert_eq!(chars.len(), 15);
    assert_eq!(chars[8], '-');
    for (i, c) in chars.iter().enumerate() {
        if i != 8 {
            assert!(c.is_ascii_digit());
        }
    }
    assert!(&stamp[0..4] >= "2024");
}

#[test]
fn named_platforms_become_platforms() {
    assert_eq!(PlatformLimited::Unknown.into_platform(), Platform::Unknown);
    assert_eq!(PlatformLimited::Steam.into_platform(), Platform::Steam);
    assert_eq!(PlatformLimited::DLSite.into_platform(), Platform::DLSite);
    let platform: Platform = PlatformLimited::Steam.into();
    assert_eq!(platform, Platform::Steam);
    assert_eq!(Platform::from(PlatformLimited::DLSite), Platform::DLSite);
    let info = PlatformInfo { name: PlatformLimited::Steam, id: Some("7".to_string()) };
    assert_eq!(info.name.into_platform(), Platform::Steam);
    assert_eq!(info.id, Some("7".to_string()));
}
