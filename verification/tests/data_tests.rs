use payments_api::application::domain::payment::{Amount, GetPaymentsFilter, Payment, PaymentsSummary};
use payments_api::presentation::data::{
    GetPaymentsSummaryFilter, PaymentRequest, PaymentResponse, PaymentsSummaryResponse,
};

fn request() -> PaymentRequest {
    PaymentRequest { correlation_id: String::from("abc"), amount: Amount { bits: 10.5f64.to_bits() } }
}

#[test]
fn submission_becomes_payment_at_given_instant() {
    let payment = Payment::from_request_at(request(), 42);
    assert_eq!(payment.correlation_id, "abc");
    assert_eq!(f64::from_bits(payment.amount.bits), 10.5);
    assert_eq!(payment.requested_at, 42);
}

#[test]
fn submission_becomes_payment_now() {
    let before = chrono::Utc::now().timestamp_nanos_opt().unwrap();
    let payment = Payment::from_request(request()).expect("the clock fits in nanoseconds");
    let after = chrono::Utc::now().timestamp_nanos_opt().unwrap();
    assert_eq!(payment.correlation_id, "abc");
    assert_eq!(payment.amount, Amount { bits: 10.5f64.to_bits() });
    assert!(before <= payment.requested_at && payment.requested_at <= after);
}

#[test]
fn response_reports_the_payment() {
    let payment = Payment { correlation_id: String::from("xyz"), amount: Amount { bits: 7 }, requested_at: -5 };
    let response = PaymentResponse::from(&payment);
    assert_eq!(response.correlation_id, "xyz");
    assert_eq!(response.amount, Amount { bits: 7 });
    assert_eq!(response.requested_at, -5);
}

#[test]
fn payment_back_to_submission() {
    let payment = Payment { correlation_id: String::from("xyz"), amount: Amount { bits: 9 }, requested_at: 1 };
    let request = PaymentRequest::from(payment);
    assert_eq!(request.correlation_id, "xyz");
    assert_eq!(request.amount, Amount { bits: 9 });
}

#[test]
fn summary_response_reports_the_summary() {
    let summary = PaymentsSummary { total_payments: 3, total_amount: Amount { bits: 30.0f64.to_bits() } };
    let response = PaymentsSummaryResponse::from(summary);
    assert_eq!(response.total_payments, 3);
    assert_eq!(f64::from_bits(response.total_amount.bits), 30.0);
}

#[test]
fn summary_query_becomes_window() {
    let query = GetPaymentsSummaryFilter {
        from: String::from("2025-07-15T12:34:56.000Z"),
        to: String::from("2025-07-15T12:35:56.000Z"),
    };
    let filter = GetPaymentsFilter::try_from_query(query).expect("both ends parse");
    assert_eq!(filter.from, 1_752_582_896_000);
    assert_eq!(filter.to, 1_752_582_956_000);

    let query = GetPaymentsSummaryFilter {
        from: String::from("2020-01-01T00:00:00-03:00"),
        to: String::from("2020-01-01T03:00:00Z"),
    };
    let filter = GetPaymentsFilter::from(query);
    assert_eq!(filter.from, filter.to);
    assert_eq!(filter.from, 1_577_847_600_000);
}

#[test]
fn summary_query_with_bad_end_is_refused() {
    let bad_from = GetPaymentsSummaryFilter { from: String::from("yesterday"), to: String::from("2025-07-15T12:35:56Z") };
    assert!(GetPaymentsFilter::try_from_query(bad_from).is_none());
    let bad_to = GetPaymentsSummaryFilter { from: String::from("2025-07-15T12:35:56Z"), to: String::from("") };
    assert!(GetPaymentsFilter::try_from_query(bad_to).is_none());
}
