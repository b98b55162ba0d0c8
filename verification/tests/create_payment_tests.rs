use payments_api::application::domain::payment::{Amount, Payment};
use payments_api::application::http::http::{HttpMethod, HttpResponse, Status};
use payments_api::application::usecases::create_payment::{
    CreatePaymentAction, CreatePaymentEvent, CreatePaymentFlow, CreatePaymentStage, UseCaseConfig,
};
use payments_api::infrastructure::health_checker::ActiveServer;
use payments_api::infrastructure::result::Error;
use std::collections::HashMap;
use std::time::Duration;

fn config() -> UseCaseConfig {
    UseCaseConfig {
        payment_processor_default_url: String::from("http://default:8080"),
        payment_processor_fallback_url: String::from("http://fallback:8080"),
    }
}

fn payment() -> Payment {
    Payment {
        correlation_id: String::from("4a7901b8-7d26-4d9d-aa19-4dc1c7cf60b3"),
        amount: Amount { bits: 19.90f64.to_bits() },
        requested_at: 1_752_582_896_000_000_000,
    }
}

fn answered(code: u16) -> CreatePaymentEvent {
    CreatePaymentEvent::ProcessorAnswered(Ok(HttpResponse::new(Status::new(code), HashMap::new(), None)))
}

fn resolved(server: ActiveServer) -> (CreatePaymentFlow, CreatePaymentAction) {
    let (flow, action) = CreatePaymentFlow::start(config(), payment());
    assert!(matches!(action, CreatePaymentAction::ResolveActiveServer));
    assert_eq!(flow.stage, CreatePaymentStage::ResolvingServer);
    flow.step(CreatePaymentEvent::ActiveServerResolved(Ok(server)))
}

#[test]
fn default_processor_gets_the_payment() {
    let (flow, action) = resolved(ActiveServer::Default);
    assert_eq!(flow.stage, CreatePaymentStage::CallingProcessor);
    match action {
        CreatePaymentAction::CallProcessor(request) => {
            assert_eq!(request.method, HttpMethod::POST);
            assert_eq!(request.url, "http://default:8080/payments");
            assert!(request.headers.is_none() && request.params.is_none());
            assert_eq!(request.timeout, Some(Duration::from_secs(10)));
            let body = request.body.expect("the payment is sent");
            assert_eq!(body.correlation_id, "4a7901b8-7d26-4d9d-aa19-4dc1c7cf60b3");
            assert_eq!(f64::from_bits(body.amount.bits), 19.90);
            assert_eq!(body.requested_at, 1_752_582_896_000_000_000);
        },
        _ => panic!("expected a call to the default processor"),
    }
}

#[test]
fn fallback_processor_gets_the_payment() {
    let (_, action) = resolved(ActiveServer::Fallback);
    match action {
        CreatePaymentAction::CallProcessor(request) => assert_eq!(request.url, "http://fallback:8080/payments"),
        _ => panic!("expected a call to the fallback processor"),
    }
}

#[test]
fn no_processor_available() {
    let (flow, action) = resolved(ActiveServer::Unavailable);
    assert_eq!(flow.stage, CreatePaymentStage::Finished);
    match action {
        CreatePaymentAction::Finish(Err(e)) => assert_eq!(e.message(), "Payment processor server is not available."),
        _ => panic!("expected the unavailable error"),
    }
}

#[test]
fn health_lookup_failure_is_reported() {
    let (flow, _) = CreatePaymentFlow::start(config(), payment());
    let (flow, action) = flow.step(CreatePaymentEvent::ActiveServerResolved(Err(Error::new("redis down"))));
    assert_eq!(flow.stage, CreatePaymentStage::Finished);
    match action {
        CreatePaymentAction::Finish(Err(e)) => assert_eq!(e.message(), "redis down"),
        _ => panic!("expected the lookup error"),
    }
}

#[test]
fn accepted_payment_is_stored_and_returned() {
    let (flow, _) = resolved(ActiveServer::Default);
    let (flow, action) = flow.step(answered(200));
    assert_eq!(flow.stage, CreatePaymentStage::StoringPayment);
    assert!(matches!(action, CreatePaymentAction::StorePayment));
    assert_eq!(flow.payment.correlation_id, "4a7901b8-7d26-4d9d-aa19-4dc1c7cf60b3");
    let stored = flow.payment.clone();
    let (flow, action) = flow.step(CreatePaymentEvent::PaymentStored(Ok(stored)));
    assert_eq!(flow.stage, CreatePaymentStage::Finished);
    match action {
        CreatePaymentAction::Finish(Ok(p)) => {
            assert_eq!(p.correlation_id, "4a7901b8-7d26-4d9d-aa19-4dc1c7cf60b3");
            assert_eq!(p.requested_at, 1_752_582_896_000_000_000);
        },
        _ => panic!("expected the stored payment"),
    }
}

#[test]
fn any_2xx_status_counts_as_accepted() {
    for code in [200u16, 201, 204, 299] {
        let (flow, _) = resolved(ActiveServer::Fallback);
        let (flow, action) = flow.step(answered(code));
        assert_eq!(flow.stage, CreatePaymentStage::StoringPayment, "status {}", code);
        assert!(matches!(action, CreatePaymentAction::StorePayment));
    }
}

#[test]
fn rejected_payment_is_not_stored() {
    for code in [199u16, 300, 400, 422, 500, 503] {
        let (flow, _) = resolved(ActiveServer::Default);
        let (flow, action) = flow.step(answered(code));
        assert_eq!(flow.stage, CreatePaymentStage::Finished, "status {}", code);
        match action {
            CreatePaymentAction::Finish(Err(e)) => assert_eq!(e.message(), "Payment processor error."),
            _ => panic!("expected the rejected error for status {}", code),
        }
    }
}

#[test]
fn transport_and_store_failures_are_reported() {
    let (flow, _) = resolved(ActiveServer::Default);
    let (_, action) = flow.step(CreatePaymentEvent::ProcessorAnswered(Err(Error::new("timed out"))));
    match action {
        CreatePaymentAction::Finish(Err(e)) => assert_eq!(e.message(), "timed out"),
        _ => panic!("expected the transport error"),
    }
    let (flow, _) = resolved(ActiveServer::Default);
    let (flow, _) = flow.step(answered(200));
    let (_, action) = flow.step(CreatePaymentEvent::PaymentStored(Err(Error::new("zadd failed"))));
    match action {
        CreatePaymentAction::Finish(Err(e)) => assert_eq!(e.message(), "zadd failed"),
        _ => panic!("expected the store error"),
    }
}
