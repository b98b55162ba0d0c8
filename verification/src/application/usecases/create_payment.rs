//! Creating a payment: ask which processor is healthy, send the payment to
//! it, and store the payment once the processor has accepted it. The steps
//! that reach the outside (cache, processor, store) are done by the driver;
//! this module decides, step by step, what is done next.
use crate::application::domain::payment::Payment;
use crate::application::http::http::{is_success_code, HttpMethod, HttpRequest, HttpResponse};
use crate::infrastructure::health_checker::ActiveServer;
use crate::infrastructure::result::Error;
use crate::infrastructure::time::{duration_from_secs, duration_of_secs};
use crate::presentation::data::{response_of, PaymentResponse};
use vstd::prelude::*;
use vstd::string::StringExecFns;

verus! {

/// Where the two payment processors are reached.
#[derive(Clone)]
pub struct UseCaseConfig {
    pub payment_processor_default_url: String,
    pub payment_processor_fallback_url: String,
}

/// The base URL of the processor that `server` names; none when no
/// processor is available.
pub open spec fn processor_base(config: UseCaseConfig, server: ActiveServer) -> Option<String> {
    match server {
        ActiveServer::Default => Some(config.payment_processor_default_url),
        ActiveServer::Fallback => Some(config.payment_processor_fallback_url),
        ActiveServer::Unavailable => None,
    }
}

/// The endpoint under a processor's base URL that takes payments.
pub open spec fn payments_endpoint(base: Seq<char>) -> Seq<char> {
    base + "/payments"@
}

/// The message of the error reported when no processor is available.
pub open spec fn unavailable_message() -> Seq<char> {
    "Payment processor server is not available."@
}

/// The message of the error reported when the processor turns a payment down.
pub open spec fn rejected_message() -> Seq<char> {
    "Payment processor error."@
}

/// Whether `request` is the submission of `payment` to the processor at
/// `base`: a POST of the payment to its payments endpoint, with no headers or
/// parameters, given ten seconds.
pub open spec fn is_submission(request: HttpRequest<PaymentResponse>, base: String, payment: Payment) -> bool {
    &&& request.method == HttpMethod::POST
    &&& request.url@ == payments_endpoint(base@)
    &&& request.headers is None
    &&& request.params is None
    &&& request.body == Some(response_of(payment))
    &&& request.timeout == Some(duration_of_secs(10))
}

/// Where a payment creation stands.
#[derive(Clone, Copy, Debug, PartialEq, Eq, Structural)]
pub enum CreatePaymentStage {
    ResolvingServer,
    CallingProcessor,
    StoringPayment,
    Finished,
}

/// The order of the stages; every step moves a creation forward.
pub open spec fn create_stage_rank(stage: CreatePaymentStage) -> int {
    match stage {
        CreatePaymentStage::ResolvingServer => 0,
        CreatePaymentStage::CallingProcessor => 1,
        CreatePaymentStage::StoringPayment => 2,
        CreatePaymentStage::Finished => 3,
    }
}

/// What the driver of a creation reports back.
pub enum CreatePaymentEvent {
    /// The health checker named the processor to use, or failed.
    ActiveServerResolved(Result<ActiveServer, Error>),
    /// The processor answered the submission, or sending it failed.
    ProcessorAnswered(Result<HttpResponse<()>, Error>),
    /// The payment store kept the payment and handed it back, or failed.
    PaymentStored(Result<Payment, Error>),
}

/// What a creation asks its driver to do next.
pub enum CreatePaymentAction {
    /// Ask the health checker which processor to use.
    ResolveActiveServer,
    /// Send this request to the processor.
    CallProcessor(HttpRequest<PaymentResponse>),
    /// Store the creation's payment.
    StorePayment,
    /// Report this outcome to the caller.
    Finish(Result<Payment, Error>),
}

/// The creation of one payment.
pub struct CreatePaymentFlow {
    pub config: UseCaseConfig,
    pub payment: Payment,
    pub stage: CreatePaymentStage,
}

impl CreatePaymentFlow {
    /// Whether the creation is waiting for this kind of event.
    pub open spec fn awaits(self, event: CreatePaymentEvent) -> bool {
        match self.stage {
            CreatePaymentStage::ResolvingServer => event is ActiveServerResolved,
            CreatePaymentStage::CallingProcessor => event is ProcessorAnswered,
            CreatePaymentStage::StoringPayment => event is PaymentStored,
            CreatePaymentStage::Finished => false,
        }
    }

    /// Whether `event` takes this creation to `next` with `action`. The
    /// configuration and the payment never change. A failure reported by the
    /// driver ends the creation with that failure. A named processor is sent
    /// the payment; no processor ends the creation with the unavailable
    /// error. A success status leads to storing the payment, any other status
    /// ends the creation with the rejected error. The store's answer is the
    /// outcome.
    pub open spec fn steps_to(
        self,
        event: CreatePaymentEvent,
        next: CreatePaymentFlow,
        action: CreatePaymentAction,
    ) -> bool {
        &&& next.config == self.config
        &&& next.payment == self.payment
        &&& match event {
            CreatePaymentEvent::ActiveServerResolved(Err(e)) => {
                &&& next.stage == CreatePaymentStage::Finished
                &&& action == CreatePaymentAction::Finish(Err(e))
            },
            CreatePaymentEvent::ActiveServerResolved(Ok(server)) => match processor_base(
                self.config,
                server,
            ) {
                Some(base) => {
                    &&& next.stage == CreatePaymentStage::CallingProcessor
                    &&& action matches CreatePaymentAction::CallProcessor(request)
                    &&& is_submission(request, base, self.payment)
                },
                None => {
                    &&& next.stage == CreatePaymentStage::Finished
                    &&& action matches CreatePaymentAction::Finish(Err(e))
                    &&& e@ == unavailable_message()
                },
            },
            CreatePaymentEvent::ProcessorAnswered(Err(e)) => {
                &&& next.stage == CreatePaymentStage::Finished
                &&& action == CreatePaymentAction::Finish(Err(e))
            },
            CreatePaymentEvent::ProcessorAnswered(Ok(response)) => {
                if is_success_code(response.status@) {
                    &&& next.stage == CreatePaymentStage::StoringPayment
                    &&& action == CreatePaymentAction::StorePayment
                } else {
                    &&& next.stage == CreatePaymentStage::Finished
                    &&& action matches CreatePaymentAction::Finish(Err(e))
                    &&& e@ == rejected_message()
                }
            },
            CreatePaymentEvent::PaymentStored(outcome) => {
                &&& next.stage == CreatePaymentStage::Finished
                &&& action == CreatePaymentAction::Finish(outcome)
            },
        }
    }

    /// Starts the creation of `payment`: the processor is resolved first.
    pub fn start(config: UseCaseConfig, payment: Payment) -> (started: (
        CreatePaymentFlow,
        CreatePaymentAction,
    ))
        ensures
            started.0.config == config,
            started.0.payment == payment,
            started.0.stage == CreatePaymentStage::ResolvingServer,
            started.1 == CreatePaymentAction::ResolveActiveServer,
    {
        (
            CreatePaymentFlow { config, payment, stage: CreatePaymentStage::ResolvingServer },
            CreatePaymentAction::ResolveActiveServer,
        )
    }

    /// Advances the creation by the event its driver reports.
    pub fn step(self, event: CreatePaymentEvent) -> (next: (CreatePaymentFlow, CreatePaymentAction))
        requires
            self.awaits(event),
        ensures
            self.steps_to(event, next.0, next.1),
    {
        let CreatePaymentFlow { config, payment, stage: _ } = self;
        match event {
            CreatePaymentEvent::ActiveServerResolved(Err(e)) => (
                CreatePaymentFlow { config, payment, stage: CreatePaymentStage::Finished },
                CreatePaymentAction::Finish(Err(e)),
            ),
            CreatePaymentEvent::ActiveServerResolved(Ok(server)) => {
                let base = match server {
                    ActiveServer::Default => config.payment_processor_default_url.clone(),
                    ActiveServer::Fallback => config.payment_processor_fallback_url.clone(),
                    ActiveServer::Unavailable => {
                        let error = Error::new("Payment processor server is not available.");
                        return (
                            CreatePaymentFlow { config, payment, stage: CreatePaymentStage::Finished },
                            CreatePaymentAction::Finish(Err(error)),
                        );
                    },
                };
                let body = PaymentResponse::from(&payment);
                let request = HttpRequest::new(
                    HttpMethod::POST,
                    base.concat("/payments"),
                    None,
                    None,
                    Some(body),
                    Some(duration_from_secs(10)),
                );
                (
                    CreatePaymentFlow { config, payment, stage: CreatePaymentStage::CallingProcessor },
                    CreatePaymentAction::CallProcessor(request),
                )
            },
            CreatePaymentEvent::ProcessorAnswered(Err(e)) => (
                CreatePaymentFlow { config, payment, stage: CreatePaymentStage::Finished },
                CreatePaymentAction::Finish(Err(e)),
            ),
            CreatePaymentEvent::ProcessorAnswered(Ok(response)) => {
                if response.status.is_success() {
                    (
                        CreatePaymentFlow { config, payment, stage: CreatePaymentStage::StoringPayment },
                        CreatePaymentAction::StorePayment,
                    )
                } else {
                    let error = Error::new("Payment processor error.");
                    (
                        CreatePaymentFlow { config, payment, stage: CreatePaymentStage::Finished },
                        CreatePaymentAction::Finish(Err(error)),
                    )
                }
            },
            CreatePaymentEvent::PaymentStored(outcome) => (
                CreatePaymentFlow { config, payment, stage: CreatePaymentStage::Finished },
                CreatePaymentAction::Finish(outcome),
            ),
        }
    }
}

/// A payment is stored only after the processor has answered its submission
/// with a success status.
pub proof fn lemma_store_requires_acceptance(
    flow: CreatePaymentFlow,
    event: CreatePaymentEvent,
    next: CreatePaymentFlow,
    action: CreatePaymentAction,
)
    requires
        flow.awaits(event),
        flow.steps_to(event, next, action),
        action is StorePayment,
    ensures
        flow.stage == CreatePaymentStage::CallingProcessor,
        event matches CreatePaymentEvent::ProcessorAnswered(Ok(response)) && is_success_code(
            response.status@,
        ),
{
}

/// A processor is called only once the health checker has named one, and it
/// is the processor named: the request goes to that processor's payments
/// endpoint and carries the creation's payment.
pub proof fn lemma_processor_follows_health(
    flow: CreatePaymentFlow,
    event: CreatePaymentEvent,
    next: CreatePaymentFlow,
    action: CreatePaymentAction,
)
    requires
        flow.awaits(event),
        flow.steps_to(event, next, action),
        action is CallProcessor,
    ensures
        flow.stage == CreatePaymentStage::ResolvingServer,
        event matches CreatePaymentEvent::ActiveServerResolved(Ok(server)) && {
            &&& server != ActiveServer::Unavailable
            &&& processor_base(flow.config, server) matches Some(base)
            &&& is_submission(action->CallProcessor_0, base, flow.payment)
        },
{
}

/// When no processor is available, none is called: the creation ends with
/// the unavailable error.
pub proof fn lemma_unavailable_calls_no_processor(
    flow: CreatePaymentFlow,
    next: CreatePaymentFlow,
    action: CreatePaymentAction,
)
    requires
        flow.steps_to(
            CreatePaymentEvent::ActiveServerResolved(Ok(ActiveServer::Unavailable)),
            next,
            action,
        ),
    ensures
        next.stage == CreatePaymentStage::Finished,
        action matches CreatePaymentAction::Finish(Err(e)) && e@
            == "Payment processor server is not available."@,
{
}

/// A creation reports success only with the payment that the store handed
/// back, and only from the storing stage.
pub proof fn lemma_success_comes_from_store(
    flow: CreatePaymentFlow,
    event: CreatePaymentEvent,
    next: CreatePaymentFlow,
    payment: Payment,
)
    requires
        flow.awaits(event),
        flow.steps_to(event, next, CreatePaymentAction::Finish(Ok(payment))),
    ensures
        flow.stage == CreatePaymentStage::StoringPayment,
        event == CreatePaymentEvent::PaymentStored(Ok(payment)),
{
}

/// Every step moves a creation to a later stage, and it reaches the finished
/// stage exactly when it reports an outcome; so a creation ends after at most
/// three steps.
pub proof fn lemma_creation_progresses(
    flow: CreatePaymentFlow,
    event: CreatePaymentEvent,
    next: CreatePaymentFlow,
    action: CreatePaymentAction,
)
    requires
        flow.awaits(event),
        flow.steps_to(event, next, action),
    ensures
        create_stage_rank(flow.stage) < create_stage_rank(next.stage),
        next.stage == CreatePaymentStage::Finished <==> action is Finish,
{
}

/// Whatever 2xx status the processor answers, the creation goes on to store
/// the payment; whatever other status it answers, the creation ends with the
/// rejected error and nothing is stored.
pub proof fn lemma_any_2xx_is_stored(
    flow: CreatePaymentFlow,
    response: HttpResponse<()>,
    next: CreatePaymentFlow,
    action: CreatePaymentAction,
)
    requires
        flow.steps_to(CreatePaymentEvent::ProcessorAnswered(Ok(response)), next, action),
    ensures
        200 <= response.status@ && response.status@ <= 299 ==> next.stage
            == CreatePaymentStage::StoringPayment && action == CreatePaymentAction::StorePayment,
        !(200 <= response.status@ && response.status@ <= 299) ==> (next.stage
            == CreatePaymentStage::Finished && (action matches CreatePaymentAction::Finish(Err(e))
            && e@ == "Payment processor error."@)),
{
}

/// Whether `event` is the processor accepting a submission.
pub open spec fn is_acceptance(event: CreatePaymentEvent) -> bool {
    event matches CreatePaymentEvent::ProcessorAnswered(Ok(response)) && is_success_code(
        response.status@,
    )
}

/// Whether `flows`, `events` and `actions` record a run of a creation: the
/// i-th event was awaited by the i-th creation and took it to the next one
/// with the i-th action.
pub open spec fn is_run(
    flows: Seq<CreatePaymentFlow>,
    events: Seq<CreatePaymentEvent>,
    actions: Seq<CreatePaymentAction>,
) -> bool {
    &&& flows.len() == events.len() + 1
    &&& actions.len() == events.len()
    &&& forall|i: int|
        #![trigger events[i]]
        0 <= i < events.len() ==> flows[i].awaits(events[i]) && flows[i].steps_to(
            events[i],
            flows[i + 1],
            actions[i],
        )
}

/// A stage that a run reaches but did not start in was entered by one of
/// its steps; the result is such a step.
proof fn lemma_stage_entered(
    flows: Seq<CreatePaymentFlow>,
    events: Seq<CreatePaymentEvent>,
    actions: Seq<CreatePaymentAction>,
    k: int,
    target: CreatePaymentStage,
) -> (i: int)
    requires
        is_run(flows, events, actions),
        0 <= k < flows.len(),
        flows[k].stage == target,
        flows[0].stage != target,
    ensures
        0 <= i < k,
        flows[i].stage != target,
        flows[i + 1].stage == target,
    decreases k,
{
    if flows[k - 1].stage == target {
        lemma_stage_entered(flows, events, actions, k - 1, target)
    } else {
        k - 1
    }
}

/// Every creation of a run has the configuration and the payment the run
/// started with.
proof fn lemma_run_keeps_payment(
    flows: Seq<CreatePaymentFlow>,
    events: Seq<CreatePaymentEvent>,
    actions: Seq<CreatePaymentAction>,
    k: int,
)
    requires
        is_run(flows, events, actions),
        0 <= k < flows.len(),
    ensures
        flows[k].config == flows[0].config,
        flows[k].payment == flows[0].payment,
    decreases k,
{
    if k > 0 {
        lemma_run_keeps_payment(flows, events, actions, k - 1);
        let i = k - 1;
        assert(flows[i].steps_to(events[i], flows[i + 1], actions[i]));
        assert(flows[i + 1] == flows[k]);
    }
}

/// A creation that reports a payment as created has, in that order, sent
/// the payment to a processor that the health checker named, had it
/// accepted by that processor, and had it kept by the store, whose answer is
/// the payment reported.
pub proof fn lemma_created_only_after_acceptance_and_storage(
    flows: Seq<CreatePaymentFlow>,
    events: Seq<CreatePaymentEvent>,
    actions: Seq<CreatePaymentAction>,
    j: int,
    payment: Payment,
)
    requires
        is_run(flows, events, actions),
        flows[0].stage == CreatePaymentStage::ResolvingServer,
        0 <= j < actions.len(),
        actions[j] == CreatePaymentAction::Finish(Ok(payment)),
    ensures
        events[j] == CreatePaymentEvent::PaymentStored(Ok(payment)),
        exists|h: int, i: int|
            #![trigger events[h], events[i]]
            {
                &&& 0 <= h < i < j
                &&& events[h] matches CreatePaymentEvent::ActiveServerResolved(Ok(server))
                &&& server != ActiveServer::Unavailable
                &&& processor_base(flows[0].config, server) matches Some(base)
                &&& actions[h] matches CreatePaymentAction::CallProcessor(request)
                &&& is_submission(request, base, flows[0].payment)
                &&& is_acceptance(events[i])
                &&& actions[i] == CreatePaymentAction::StorePayment
            },
{
    assert(events[j] == events[j]);
    lemma_success_comes_from_store(flows[j], events[j], flows[j + 1], payment);
    let i = lemma_stage_entered(flows, events, actions, j, CreatePaymentStage::StoringPayment);
    assert(flows[i].awaits(events[i]) && flows[i].steps_to(events[i], flows[i + 1], actions[i]));
    assert(flows[i].stage == CreatePaymentStage::CallingProcessor);
    let h = lemma_stage_entered(flows, events, actions, i, CreatePaymentStage::CallingProcessor);
    assert(flows[h].awaits(events[h]) && flows[h].steps_to(events[h], flows[h + 1], actions[h]));
    assert(flows[h].stage == CreatePaymentStage::ResolvingServer);
    lemma_run_keeps_payment(flows, events, actions, h);
}

} // verus!
