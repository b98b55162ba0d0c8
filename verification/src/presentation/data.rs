//! The request and response bodies of the HTTP interface and their
//! conversions to and from the domain types.
use crate::application::domain::payment::{Amount, GetPaymentsFilter, Payment, PaymentsSummary};
use crate::infrastructure::time::{parse_rfc3339_millis, rfc3339_millis, utc_now_nanos};
use vstd::prelude::*;
use vstd::std_specs::convert::FromSpec;

verus! {

/// The body of a payment submission.
pub struct PaymentRequest {
    pub correlation_id: String,
    pub amount: Amount,
}

/// A payment as reported back to clients and sent to the processors.
pub struct PaymentResponse {
    pub correlation_id: String,
    pub amount: Amount,
    pub requested_at: i64,
}

/// The query of a summary request: both ends as RFC 3339 texts.
pub struct GetPaymentsSummaryFilter {
    pub from: String,
    pub to: String,
}

/// The body of a summary response.
pub struct PaymentsSummaryResponse {
    pub total_payments: u64,
    pub total_amount: Amount,
}

impl Payment {
    /// The payment a submission becomes when accepted at `requested_at`.
    pub fn from_request_at(value: PaymentRequest, requested_at: i64) -> (payment: Payment)
        ensures
            payment.correlation_id == value.correlation_id,
            payment.amount == value.amount,
            payment.requested_at == requested_at,
    {
        Payment { correlation_id: value.correlation_id, amount: value.amount, requested_at }
    }

    /// The payment a submission becomes given a clock reading in i64
    /// nanoseconds: none exactly when there is no reading, whatever the
    /// submission holds.
    pub fn from_clock_reading(value: PaymentRequest, reading: Option<i64>) -> (payment: Option<Payment>)
        ensures
            payment is Some <==> reading is Some,
            payment matches Some(p) ==> p.correlation_id == value.correlation_id
                && p.amount == value.amount && p.requested_at == reading->0,
    {
        match reading {
            Some(now) => Some(Payment::from_request_at(value, now)),
            None => None,
        }
    }

    /// The payment a submission becomes when accepted now. None when the
    /// clock reading does not fit in i64 nanoseconds, the form in which a
    /// payment is persisted.
    pub fn from_request(value: PaymentRequest) -> (payment: Option<Payment>)
        ensures
            payment matches Some(p) ==> p.correlation_id == value.correlation_id
                && p.amount == value.amount,
    {
        Payment::from_clock_reading(value, utc_now_nanos())
    }
}

/// The response body that reports `payment`.
pub open spec fn response_of(payment: Payment) -> PaymentResponse {
    PaymentResponse {
        correlation_id: payment.correlation_id,
        amount: payment.amount,
        requested_at: payment.requested_at,
    }
}

impl PaymentResponse {
    /// The response body that reports `value`.
    pub fn from(value: &Payment) -> (response: PaymentResponse)
        ensures
            response == response_of(*value),
            response.correlation_id == value.correlation_id,
            response.amount == value.amount,
            response.requested_at == value.requested_at,
    {
        PaymentResponse {
            correlation_id: value.correlation_id.clone(),
            amount: value.amount,
            requested_at: value.requested_at,
        }
    }
}

impl From<Payment> for PaymentRequest {
    fn from(value: Payment) -> (request: PaymentRequest)
        ensures
            request.correlation_id == value.correlation_id,
            request.amount == value.amount,
    {
        PaymentRequest { correlation_id: value.correlation_id, amount: value.amount }
    }
}

impl vstd::std_specs::convert::FromSpecImpl<Payment> for PaymentRequest {
    open spec fn obeys_from_spec() -> bool {
        true
    }

    open spec fn from_spec(value: Payment) -> PaymentRequest {
        PaymentRequest { correlation_id: value.correlation_id, amount: value.amount }
    }
}

impl From<PaymentsSummary> for PaymentsSummaryResponse {
    fn from(value: PaymentsSummary) -> (response: PaymentsSummaryResponse)
        ensures
            response.total_payments == value.total_payments,
            response.total_amount == value.total_amount,
    {
        PaymentsSummaryResponse {
            total_payments: value.total_payments,
            total_amount: value.total_amount,
        }
    }
}

impl vstd::std_specs::convert::FromSpecImpl<PaymentsSummary> for PaymentsSummaryResponse {
    open spec fn obeys_from_spec() -> bool {
        true
    }

    open spec fn from_spec(value: PaymentsSummary) -> PaymentsSummaryResponse {
        PaymentsSummaryResponse {
            total_payments: value.total_payments,
            total_amount: value.total_amount,
        }
    }
}

/// The conversions to and from the response bodies keep every field they
/// carry: a summary response reports the summary's count and total
/// unchanged, a payment response and a payment request report the payment's
/// correlation id and amount (and the response its instant) unchanged.
pub proof fn lemma_conversions_keep_fields(summary: PaymentsSummary, payment: Payment)
    ensures
        PaymentsSummaryResponse::from_spec(summary).total_payments == summary.total_payments,
        PaymentsSummaryResponse::from_spec(summary).total_amount == summary.total_amount,
        PaymentRequest::from_spec(payment).correlation_id == payment.correlation_id,
        PaymentRequest::from_spec(payment).amount == payment.amount,
        response_of(payment).correlation_id == payment.correlation_id,
        response_of(payment).amount == payment.amount,
        response_of(payment).requested_at == payment.requested_at,
{
}

/// Whether chrono reads both ends of a summary query as instants.
pub open spec fn summary_filter_parses(value: GetPaymentsSummaryFilter) -> bool {
    &&& rfc3339_millis(value.from@) is Some
    &&& rfc3339_millis(value.to@) is Some
}

impl GetPaymentsFilter {
    /// The window a summary query names. Both ends must be RFC 3339 texts
    /// that chrono reads; `try_from_query` is the checked form.
    pub fn from(value: GetPaymentsSummaryFilter) -> (filter: GetPaymentsFilter)
        requires
            summary_filter_parses(value),
        ensures
            filter.from == rfc3339_millis(value.from@)->0,
            filter.to == rfc3339_millis(value.to@)->0,
    {
        let from = parse_rfc3339_millis(value.from.as_str());
        let to = parse_rfc3339_millis(value.to.as_str());
        match (from, to) {
            (Some(from), Some(to)) => GetPaymentsFilter { from, to },
            _ => {
                proof {
                    assert(false);
                }
                GetPaymentsFilter { from: 0, to: 0 }
            },
        }
    }

    /// The window a summary query names, or none when chrono does not read
    /// one of its ends as an RFC 3339 instant.
    pub fn try_from_query(value: GetPaymentsSummaryFilter) -> (filter: Option<GetPaymentsFilter>)
        ensures
            filter is Some <==> summary_filter_parses(value),
            filter matches Some(f) ==> f.from == rfc3339_millis(value.from@)->0
                && f.to == rfc3339_millis(value.to@)->0,
    {
        let from = parse_rfc3339_millis(value.from.as_str());
        let to = parse_rfc3339_millis(value.to.as_str());
        if from.is_some() && to.is_some() {
            Some(GetPaymentsFilter::from(value))
        } else {
            None
        }
    }
}

} // verus!
