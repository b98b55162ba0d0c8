use payments_api::application::domain::payment::GetPaymentsFilter;
use payments_api::infrastructure::time::millis_from_nanos;
use payments_api::presentation::data::GetPaymentsSummaryFilter;

#[test]
fn millis_round_towards_the_past() {
    assert_eq!(millis_from_nanos(0), 0);
    assert_eq!(millis_from_nanos(999_999), 0);
    assert_eq!(millis_from_nanos(1_500_000), 1);
    assert_eq!(millis_from_nanos(-1), -1);
    assert_eq!(millis_from_nanos(-1_000_000), -1);
    assert_eq!(millis_from_nanos(-1_000_001), -2);
    assert_eq!(millis_from_nanos(1_752_582_896_123_456_789), 1_752_582_896_123);
    assert_eq!(millis_from_nanos(i64::MAX), 9_223_372_036_854);
    assert_eq!(millis_from_nanos(i64::MIN), -9_223_372_036_855);
}

#[test]
fn millis_agree_with_chrono() {
    for nanos in [0i64, 1, -1, 999_999, -999_999, 1_234_567_890_123, -1_234_567_890_123, i64::MAX, i64::MIN] {
        let chrono_millis = chrono::DateTime::from_timestamp_nanos(nanos).timestamp_millis();
        assert_eq!(millis_from_nanos(nanos), chrono_millis, "nanos {}", nanos);
    }
}

fn window(from: &str, to: &str) -> Option<GetPaymentsFilter> {
    GetPaymentsFilter::try_from_query(GetPaymentsSummaryFilter { from: String::from(from), to: String::from(to) })
}

#[test]
fn rfc3339_texts_read_as_milliseconds() {
    let epoch = window("1970-01-01T00:00:00Z", "2025-07-15T14:34:56.5+02:00").unwrap();
    assert_eq!(epoch.from, 0);
    assert_eq!(epoch.to, 1_752_582_896_500);
    let around_epoch = window("1969-12-31T23:59:59.999999999Z", "1970-01-01T00:00:00.001999Z").unwrap();
    assert_eq!(around_epoch.from, -1);
    assert_eq!(around_epoch.to, 1);
    let far = window("1500-01-01T00:00:00Z", "3000-01-01T00:00:00Z").unwrap();
    assert_eq!(far.from, -14_831_769_600_000);
    assert_eq!(far.to, 32_503_680_000_000);
}

#[test]
fn non_rfc3339_texts_are_refused() {
    assert!(window("not a date", "1970-01-01T00:00:00Z").is_none());
    assert!(window("2025-07-15", "1970-01-01T00:00:00Z").is_none());
    assert!(window("1970-01-01T00:00:00Z", "").is_none());
}
