//! The payment domain: what a payment is, how a summary window is given and
//! what a summary reports.
use vstd::prelude::*;

verus! {

/// A money amount, held as the bit pattern of the IEEE-754 binary64 value
/// that clients send and that summaries report. The service never computes
/// with an amount inside the library; it carries it unchanged.
#[derive(Debug, Clone, Copy, PartialEq, Eq, Structural)]
pub struct Amount {
    pub bits: u64,
}

/// An accepted payment. `requested_at` is the instant it was accepted, in
/// nanoseconds since the Unix epoch (the form in which it is persisted).
#[derive(Debug, Clone)]
pub struct Payment {
    pub correlation_id: String,
    pub amount: Amount,
    pub requested_at: i64,
}

/// The window of a summary, both ends included, in whole milliseconds since
/// the Unix epoch (the resolution at which payments are scored).
#[derive(Debug, Clone, Copy)]
pub struct GetPaymentsFilter {
    pub from: i64,
    pub to: i64,
}

/// How many payments a window holds and what they add up to.
pub struct PaymentsSummary {
    pub total_payments: u64,
    pub total_amount: Amount,
}

} // verus!
