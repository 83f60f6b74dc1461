//! The delivery of one event to the Hook0 API: attempts, waiting times, and what
//! to do when an attempt fails.

use vstd::prelude::*;

use crate::hook0_error::{error_in, Hook0ErrorId};
use crate::ids::{uuid_chars, Uuid};
use crate::json::parsed_json;

verus! {

/// How many attempts a delivery has.
pub const MAX_RETRIES: i32 = 5;

/// How long to wait after the first attempt, in milliseconds.
pub const BASE_DELAY_MS: u64 = 1000;

/// How long to wait at most, in milliseconds.
pub const MAX_DELAY_MS: u64 = 30000;

/// A delivery under way.
#[derive(Debug, Clone, Copy, PartialEq, Eq, Structural)]
pub struct Delivery {
    /// The number of attempts so far.
    pub attempt: i32,
    /// How long to wait before the next one, in milliseconds.
    pub delay_ms: u64,
    /// Whether an unexpected error came up, so that giving this event up does
    /// not keep the client from going on with others.
    pub continue_on_retry_exceed: bool,
}

/// What came of an attempt.
#[derive(Debug)]
pub enum SendOutcome {
    /// No answer came in time.
    TimedOut,
    /// The event was accepted.
    Sent,
    /// The API refused the event, and maybe said why.
    Refused { error_id: Option<Hook0ErrorId>, event_id: Uuid, error: String },
    /// The request failed in another way.
    Failed { error: String },
}

/// What came of an attempt, with the body of the answer as it was received.
#[derive(Debug)]
pub enum SendResponse {
    /// No answer came in time.
    TimedOut,
    /// The event was accepted.
    Sent,
    /// The API refused the event.
    Refused { body: Option<String>, event_id: Uuid, error: String },
    /// The request failed in another way.
    Failed { error: String },
}

/// What to do after an attempt.
#[derive(Debug)]
pub enum DeliveryAction {
    /// Send the event again at once.
    Resend,
    /// Wait, and send the event again.
    ResendAfter { delay_ms: u64 },
    /// Take note of the delivery in the event history. The delivery is over.
    RecordAndFinish,
    /// Remember the event type as unknown, and notify. The delivery is over.
    SuppressAndFinish { notification: String },
    /// Notify. The delivery is over, without success.
    NotifyAndFinish { notification: String },
    /// Notify, and stop the program for the given reason.
    NotifyAndAbort { notification: String, reason: String },
}

/// A [`SendOutcome`] as a mathematical value.
pub enum OutcomeView {
    TimedOut,
    Sent,
    Refused(Option<Hook0ErrorId>, u128, Seq<char>),
    Failed(Seq<char>),
}

/// A [`DeliveryAction`] as a mathematical value.
pub enum ActionView {
    Resend,
    ResendAfter(u64),
    RecordAndFinish,
    SuppressAndFinish(Seq<char>),
    NotifyAndFinish(Seq<char>),
    NotifyAndAbort(Seq<char>, Seq<char>),
}

impl View for SendOutcome {
    type V = OutcomeView;

    open spec fn view(&self) -> OutcomeView {
        match self {
            SendOutcome::TimedOut => OutcomeView::TimedOut,
            SendOutcome::Sent => OutcomeView::Sent,
            SendOutcome::Refused { error_id, event_id, error } => OutcomeView::Refused(
                *error_id,
                event_id.bits,
                error@,
            ),
            SendOutcome::Failed { error } => OutcomeView::Failed(error@),
        }
    }
}

impl View for SendResponse {
    type V = OutcomeView;

    open spec fn view(&self) -> OutcomeView {
        match self {
            SendResponse::TimedOut => OutcomeView::TimedOut,
            SendResponse::Sent => OutcomeView::Sent,
            SendResponse::Refused { body, event_id, error } => OutcomeView::Refused(
                match body {
                    Some(b) => Some(error_in(parsed_json(b@))),
                    None => None,
                },
                event_id.bits,
                error@,
            ),
            SendResponse::Failed { error } => OutcomeView::Failed(error@),
        }
    }
}

impl View for DeliveryAction {
    type V = ActionView;

    open spec fn view(&self) -> ActionView {
        match self {
            DeliveryAction::Resend => ActionView::Resend,
            DeliveryAction::ResendAfter { delay_ms } => ActionView::ResendAfter(*delay_ms),
            DeliveryAction::RecordAndFinish => ActionView::RecordAndFinish,
            DeliveryAction::SuppressAndFinish { notification } => ActionView::SuppressAndFinish(
                notification@,
            ),
            DeliveryAction::NotifyAndFinish { notification } => ActionView::NotifyAndFinish(
                notification@,
            ),
            DeliveryAction::NotifyAndAbort { notification, reason } => ActionView::NotifyAndAbort(
                notification@,
                reason@,
            ),
        }
    }
}

/// Twice a waiting time, within the limit.
pub open spec fn doubled(delay_ms: u64) -> u64 {
    if 2 * delay_ms <= MAX_DELAY_MS {
        (2 * delay_ms) as u64
    } else {
        MAX_DELAY_MS
    }
}

/// The notification for an event whose type the API does not know.
pub open spec fn unknown_type_text(event_type: Seq<char>, event_id: u128, error: Seq<char>) -> Seq<
    char,
> {
    "Failed to send replication event "@ + event_type
        + " to Hook0 API: Event type does not exist or was deactivated. You should (re)create it. Event ID: "@
        + uuid_chars(event_id) + ", Error: "@ + error
}

/// The notification for a refused authentication.
pub open spec fn unauthorized_text(event_id: u128, error: Seq<char>) -> Seq<char> {
    "Unauthorized access to Hook0 API. Event ID: "@ + uuid_chars(event_id) + ", Error: "@ + error
}

/// The notification for an event that was given up.
pub open spec fn given_up_text(error: Seq<char>) -> Seq<char> {
    "Failed to send replication event after 5 attempts. Hook0 API error: "@ + error
}

impl Delivery {
    /// A delivery before its first attempt.
    pub open spec fn initial() -> Delivery {
        Delivery { attempt: 0, delay_ms: BASE_DELAY_MS, continue_on_retry_exceed: false }
    }

    /// Attempts are counted, and the waiting time is within its limits.
    pub open spec fn well_formed(self) -> bool {
        &&& 0 <= self.attempt
        &&& BASE_DELAY_MS <= self.delay_ms <= MAX_DELAY_MS
    }

    /// The delivery once another attempt has begun.
    pub open spec fn attempting(self) -> Delivery {
        Delivery { attempt: (self.attempt + 1) as i32, ..self }
    }

    /// The delivery with the waiting time doubled.
    pub open spec fn backed_off(self) -> Delivery {
        Delivery { delay_ms: doubled(self.delay_ms), ..self }
    }

    /// What to do after an attempt that may be repeated: give up once the
    /// attempts are used up, and otherwise wait and send again.
    pub open spec fn retry(self, error: Seq<char>) -> (Delivery, ActionView) {
        if self.attempt >= MAX_RETRIES {
            if self.continue_on_retry_exceed {
                (self, ActionView::NotifyAndFinish(given_up_text(error)))
            } else {
                (self, ActionView::NotifyAndAbort(given_up_text(error), given_up_text(error)))
            }
        } else {
            (self.backed_off(), ActionView::ResendAfter(self.delay_ms))
        }
    }

    /// What to do after an attempt.
    pub open spec fn step(self, event_type: Seq<char>, outcome: OutcomeView) -> (
        Delivery,
        ActionView,
    ) {
        match outcome {
            OutcomeView::TimedOut => (self, ActionView::Resend),
            OutcomeView::Sent => (self, ActionView::RecordAndFinish),
            OutcomeView::Refused(error_id, event_id, error) => match error_id {
                Some(Hook0ErrorId::EventTypeDoesNotExist) => (
                    self,
                    ActionView::SuppressAndFinish(unknown_type_text(event_type, event_id, error)),
                ),
                Some(Hook0ErrorId::EventAlreadyIngested) => (self, ActionView::RecordAndFinish),
                Some(Hook0ErrorId::Unauthorized) => (
                    self,
                    ActionView::NotifyAndAbort(
                        unauthorized_text(event_id, error),
                        "Unauthorized access to Hook0 API, exiting."@,
                    ),
                ),
                Some(Hook0ErrorId::RateLimitExceeded) => self.backed_off().retry(error),
                _ => self.retry(error),
            },
            OutcomeView::Failed(error) => {
                Delivery { continue_on_retry_exceed: true, ..self }.retry(error)
            },
        }
    }

    /// A delivery before its first attempt.
    pub fn new() -> (delivery: Delivery)
        ensures
            delivery == Delivery::initial(),
            delivery.well_formed(),
    {
        Delivery { attempt: 0, delay_ms: BASE_DELAY_MS, continue_on_retry_exceed: false }
    }

    /// Begins another attempt.
    pub fn start_attempt(&mut self)
        requires
            old(self).attempt < i32::MAX,
        ensures
            *final(self) == old(self).attempting(),
    {
        self.attempt = self.attempt + 1;
    }

    fn back_off(&mut self)
        requires
            old(self).well_formed(),
        ensures
            *final(self) == old(self).backed_off(),
            final(self).well_formed(),
    {
        let twice: u64 = self.delay_ms * 2;
        self.delay_ms = if twice <= MAX_DELAY_MS {
            twice
        } else {
            MAX_DELAY_MS
        };
    }

    fn retry_or_give_up(&mut self, error: &str) -> (action: DeliveryAction)
        requires
            old(self).well_formed(),
        ensures
            (*final(self), action@) == old(self).retry(error@),
    {
        if self.attempt >= MAX_RETRIES {
            let notification =
                "Failed to send replication event after 5 attempts. Hook0 API error: ".to_string().concat(
            error);
            if self.continue_on_retry_exceed {
                return DeliveryAction::NotifyAndFinish { notification };
            }
            let reason = notification.clone();
            return DeliveryAction::NotifyAndAbort { notification, reason };
        }
        let delay_ms: u64 = self.delay_ms;
        self.back_off();
        DeliveryAction::ResendAfter { delay_ms }
    }

    /// Decides what to do after an attempt to deliver an event.
    pub fn on_outcome(&mut self, event_type: &str, outcome: &SendOutcome) -> (action:
        DeliveryAction)
        requires
            old(self).well_formed(),
        ensures
            (*final(self), action@) == old(self).step(event_type@, outcome@),
            final(self).well_formed(),
    {
        match outcome {
            SendOutcome::TimedOut => DeliveryAction::Resend,
            SendOutcome::Sent => DeliveryAction::RecordAndFinish,
            SendOutcome::Refused { error_id, event_id, error } => match error_id {
                Some(Hook0ErrorId::EventTypeDoesNotExist) => {
                    let notification = "Failed to send replication event ".to_string().concat(
                        event_type,
                    ).concat(
                        " to Hook0 API: Event type does not exist or was deactivated. You should (re)create it. Event ID: ",
                    ).concat(event_id.to_text().as_str()).concat(", Error: ").concat(
                        error.as_str(),
                    );
                    DeliveryAction::SuppressAndFinish { notification }
                },
                Some(Hook0ErrorId::EventAlreadyIngested) => DeliveryAction::RecordAndFinish,
                Some(Hook0ErrorId::Unauthorized) => {
                    let notification =
                        "Unauthorized access to Hook0 API. Event ID: ".to_string().concat(
                        event_id.to_text().as_str(),
                    ).concat(", Error: ").concat(error.as_str());
                    DeliveryAction::NotifyAndAbort {
                        notification,
                        reason: "Unauthorized access to Hook0 API, exiting.".to_string(),
                    }
                },
                Some(Hook0ErrorId::RateLimitExceeded) => {
                    self.back_off();
                    self.retry_or_give_up(error.as_str())
                },
                _ => self.retry_or_give_up(error.as_str()),
            },
            SendOutcome::Failed { error } => {
                self.continue_on_retry_exceed = true;
                self.retry_or_give_up(error.as_str())
            },
        }
    }

    /// Decides what to do after an attempt to deliver an event, from the answer
    /// as it was received.
    pub fn on_response(&mut self, event_type: &str, response: SendResponse) -> (action:
        DeliveryAction)
        requires
            old(self).well_formed(),
        ensures
            (*final(self), action@) == old(self).step(event_type@, response@),
            final(self).well_formed(),
    {
        let outcome = match response {
            SendResponse::TimedOut => SendOutcome::TimedOut,
            SendResponse::Sent => SendOutcome::Sent,
            SendResponse::Refused { body, event_id, error } => {
                let error_id = match &body {
                    Some(b) => Some(Hook0ErrorId::from_body(b.as_str())),
                    None => None,
                };
                SendOutcome::Refused { error_id, event_id, error }
            },
            SendResponse::Failed { error } => SendOutcome::Failed { error },
        };
        self.on_outcome(event_type, &outcome)
    }
}

/// Whether the delivery goes on after an action.
pub open spec fn goes_on(action: ActionView) -> bool {
    action is Resend || action is ResendAfter
}

/// The number of attempts that a delivery makes when its attempts come out as
/// given, in order. An attempt is made for each outcome until the delivery is
/// over.
pub open spec fn attempts_made(
    delivery: Delivery,
    event_type: Seq<char>,
    outcomes: Seq<OutcomeView>,
) -> nat
    decreases outcomes.len(),
{
    if outcomes.len() == 0 {
        0
    } else {
        let (next, action) = delivery.attempting().step(event_type, outcomes[0]);
        if goes_on(action) {
            1 + attempts_made(next, event_type, outcomes.skip(1))
        } else {
            1
        }
    }
}

/// The waiting time starts at one second, never shrinks, and never passes thirty
/// seconds. Once an unexpected error came up, that is not forgotten.
pub proof fn law_waiting_time_grows_within_limits(
    delivery: Delivery,
    event_type: Seq<char>,
    outcome: OutcomeView,
)
    requires
        delivery.well_formed(),
    ensures
        ({
            let (next, action) = delivery.step(event_type, outcome);
            &&& next.well_formed()
            &&& next.attempt == delivery.attempt
            &&& next.delay_ms >= delivery.delay_ms
            &&& delivery.continue_on_retry_exceed ==> next.continue_on_retry_exceed
            &&& action matches ActionView::ResendAfter(delay_ms) ==> {
                &&& delivery.delay_ms <= delay_ms <= MAX_DELAY_MS
                &&& next.delay_ms == doubled(delay_ms)
            }
        }),
{
}

/// A delivery is recorded in the event history exactly if the API accepted the
/// event, now or before.
pub proof fn law_recorded_exactly_if_accepted(
    delivery: Delivery,
    event_type: Seq<char>,
    outcome: OutcomeView,
)
    ensures
        delivery.step(event_type, outcome).1 is RecordAndFinish <==> (outcome is Sent || (
        outcome matches OutcomeView::Refused(error_id, _, _) && error_id == Some(
            Hook0ErrorId::EventAlreadyIngested,
        ))),
{
}

/// The program is stopped only for a refused authentication, or when the
/// attempts are used up and no unexpected error came up in any of them.
pub proof fn law_when_the_program_stops(
    delivery: Delivery,
    event_type: Seq<char>,
    outcome: OutcomeView,
)
    ensures
        delivery.step(event_type, outcome).1 is NotifyAndAbort <==> {
            ||| outcome matches OutcomeView::Refused(error_id, _, _) && error_id == Some(
                Hook0ErrorId::Unauthorized,
            )
            ||| outcome matches OutcomeView::Refused(error_id, _, _) && error_id != Some(
                Hook0ErrorId::EventTypeDoesNotExist,
            ) && error_id != Some(Hook0ErrorId::EventAlreadyIngested) && delivery.attempt
                >= MAX_RETRIES && !delivery.continue_on_retry_exceed
        },
{
}

/// A delivery in which no attempt times out makes at most five attempts.
pub proof fn law_at_most_five_attempts(event_type: Seq<char>, outcomes: Seq<OutcomeView>)
    requires
        forall|i: int| 0 <= i < outcomes.len() ==> !(#[trigger] outcomes[i] is TimedOut),
    ensures
        attempts_made(Delivery::initial(), event_type, outcomes) <= MAX_RETRIES,
{
    lemma_attempts_left(Delivery::initial(), event_type, outcomes);
}

proof fn lemma_attempts_left(
    delivery: Delivery,
    event_type: Seq<char>,
    outcomes: Seq<OutcomeView>,
)
    requires
        delivery.well_formed(),
        delivery.attempt < MAX_RETRIES,
        forall|i: int| 0 <= i < outcomes.len() ==> !(#[trigger] outcomes[i] is TimedOut),
    ensures
        attempts_made(delivery, event_type, outcomes) <= MAX_RETRIES - delivery.attempt,
    decreases outcomes.len(),
{
    if outcomes.len() > 0 {
        let attempting = delivery.attempting();
        let (next, action) = attempting.step(event_type, outcomes[0]);
        assert(!(outcomes[0] is TimedOut));
        if goes_on(action) {
            law_waiting_time_grows_within_limits(attempting, event_type, outcomes[0]);
            let rest = outcomes.skip(1);
            assert forall|i: int| 0 <= i < rest.len() implies !(#[trigger] rest[i] is TimedOut) by {
                assert(rest[i] == outcomes[i + 1]);
            }
            lemma_attempts_left(next, event_type, rest);
        }
    }
}

/// An attempt that times out is repeated at once, however many there were, and
/// neither the waiting time nor anything else of the delivery changes.
pub proof fn law_timeouts_are_repeated_at_once(
    delivery: Delivery,
    event_type: Seq<char>,
)
    ensures
        delivery.step(event_type, OutcomeView::TimedOut) == (delivery, ActionView::Resend),
{
}

/// Before the fifth attempt, a refusal is no reason to give an event up, whether
/// it names an error or not: but for an unknown event type, an event that the API
/// already has, and a refused authentication, the event is sent again after the
/// current waiting time, doubled first for a rate limit. The waiting time is then
/// doubled, up to thirty seconds, and nothing else of the delivery changes.
pub proof fn law_a_refused_event_is_sent_again(
    delivery: Delivery,
    event_type: Seq<char>,
    error_id: Option<Hook0ErrorId>,
    event_id: u128,
    error: Seq<char>,
)
    requires
        0 <= delivery.attempt < 5,
        1000 <= delivery.delay_ms <= 30000,
        error_id != Some(Hook0ErrorId::EventTypeDoesNotExist),
        error_id != Some(Hook0ErrorId::EventAlreadyIngested),
        error_id != Some(Hook0ErrorId::Unauthorized),
    ensures
        ({
            let (next, action) = delivery.step(
                event_type,
                OutcomeView::Refused(error_id, event_id, error),
            );
            let twice: int = 2 * delivery.delay_ms;
            let wait: int = if error_id != Some(Hook0ErrorId::RateLimitExceeded) {
                delivery.delay_ms as int
            } else if twice > 30000 {
                30000
            } else {
                twice
            };
            &&& action matches ActionView::ResendAfter(delay_ms)
            &&& delay_ms == wait
            &&& next.delay_ms == (if 2 * wait > 30000 {
                30000
            } else {
                2 * wait
            })
            &&& next.attempt == delivery.attempt
            &&& next.continue_on_retry_exceed == delivery.continue_on_retry_exceed
        }),
{
}

/// Before the fifth attempt, a request that fails in another way is repeated after
/// the current waiting time. It is not forgotten that this came up.
pub proof fn law_a_failed_request_is_sent_again(
    delivery: Delivery,
    event_type: Seq<char>,
    error: Seq<char>,
)
    requires
        0 <= delivery.attempt < 5,
        1000 <= delivery.delay_ms <= 30000,
    ensures
        ({
            let (next, action) = delivery.step(event_type, OutcomeView::Failed(error));
            &&& action matches ActionView::ResendAfter(delay_ms)
            &&& delay_ms == delivery.delay_ms
            &&& next.delay_ms == (if 2 * delivery.delay_ms > 30000 {
                30000
            } else {
                2 * delivery.delay_ms
            })
            &&& next.attempt == delivery.attempt
            &&& next.continue_on_retry_exceed
        }),
{
}

/// From the fifth attempt on, an event that is refused or whose request fails is
/// given up, with a notification that says why. The program goes on exactly if a
/// request failed in another way, now or before.
pub proof fn law_an_event_is_given_up_after_five_attempts(
    delivery: Delivery,
    event_type: Seq<char>,
    outcome: OutcomeView,
    error: Seq<char>,
)
    requires
        delivery.attempt >= 5,
        outcome == OutcomeView::Failed(error) || (outcome matches OutcomeView::Refused(
            error_id,
            _,
            text,
        ) && text == error && error_id != Some(Hook0ErrorId::EventTypeDoesNotExist) && error_id
            != Some(Hook0ErrorId::EventAlreadyIngested) && error_id != Some(
            Hook0ErrorId::Unauthorized,
        )),
    ensures
        ({
            let text = "Failed to send replication event after 5 attempts. Hook0 API error: "@
                + error;
            delivery.step(event_type, outcome).1 == (if outcome is Failed
                || delivery.continue_on_retry_exceed {
                ActionView::NotifyAndFinish(text)
            } else {
                ActionView::NotifyAndAbort(text, text)
            })
        }),
{
}

/// What is decided whatever the number of attempts: an event that is accepted, or
/// that the API already has, is recorded; an unknown type is left out from then on;
/// a refused authentication stops the program. The delivery itself stays as it is.
pub proof fn law_what_is_decided_at_once(
    delivery: Delivery,
    event_type: Seq<char>,
    event_id: u128,
    error: Seq<char>,
)
    ensures
        delivery.step(event_type, OutcomeView::Sent) == (delivery, ActionView::RecordAndFinish),
        delivery.step(
            event_type,
            OutcomeView::Refused(Some(Hook0ErrorId::EventAlreadyIngested), event_id, error),
        ) == (delivery, ActionView::RecordAndFinish),
        delivery.step(
            event_type,
            OutcomeView::Refused(Some(Hook0ErrorId::EventTypeDoesNotExist), event_id, error),
        ) == (
            delivery,
            ActionView::SuppressAndFinish(
                "Failed to send replication event "@ + event_type
                    + " to Hook0 API: Event type does not exist or was deactivated. You should (re)create it. Event ID: "@
                    + uuid_chars(event_id) + ", Error: "@ + error,
            ),
        ),
        delivery.step(
            event_type,
            OutcomeView::Refused(Some(Hook0ErrorId::Unauthorized), event_id, error),
        ) == (
            delivery,
            ActionView::NotifyAndAbort(
                "Unauthorized access to Hook0 API. Event ID: "@ + uuid_chars(event_id)
                    + ", Error: "@ + error,
                "Unauthorized access to Hook0 API, exiting."@,
            ),
        ),
{
}

/// A delivery begins with no attempt, a waiting time of one second and no
/// unexpected error, and an attempt that begins is counted.
pub proof fn law_attempts_are_counted(delivery: Delivery)
    requires
        delivery.attempt < i32::MAX,
    ensures
        Delivery::initial().attempt == 0,
        Delivery::initial().delay_ms == 1000,
        !Delivery::initial().continue_on_retry_exceed,
        Delivery::initial().well_formed(),
        delivery.attempting().attempt == delivery.attempt + 1,
        delivery.attempting().delay_ms == delivery.delay_ms,
        delivery.attempting().continue_on_retry_exceed == delivery.continue_on_retry_exceed,
{
}

/// Whether an attempt has failed in a way that may pass.
pub open spec fn failed(outcome: OutcomeView) -> bool {
    match outcome {
        OutcomeView::Failed(_) => true,
        OutcomeView::Refused(error_id, _, _) => error_id != Some(
            Hook0ErrorId::EventTypeDoesNotExist,
        ) && error_id != Some(Hook0ErrorId::EventAlreadyIngested) && error_id != Some(
            Hook0ErrorId::Unauthorized,
        ),
        _ => false,
    }
}

/// An event whose attempts keep failing is sent five times: not given up before,
/// and not sent after that.
pub proof fn law_a_failing_event_is_sent_five_times(
    event_type: Seq<char>,
    outcomes: Seq<OutcomeView>,
)
    requires
        forall|i: int| 0 <= i < outcomes.len() ==> failed(#[trigger] outcomes[i]),
    ensures
        attempts_made(Delivery::initial(), event_type, outcomes) == (if outcomes.len() < 5 {
            outcomes.len() as int
        } else {
            5
        }),
{
    lemma_failing_attempts(Delivery::initial(), event_type, outcomes);
}

proof fn lemma_failing_attempts(
    delivery: Delivery,
    event_type: Seq<char>,
    outcomes: Seq<OutcomeView>,
)
    requires
        delivery.well_formed(),
        delivery.attempt < 5,
        forall|i: int| 0 <= i < outcomes.len() ==> failed(#[trigger] outcomes[i]),
    ensures
        attempts_made(delivery, event_type, outcomes) == (if outcomes.len() < 5
            - delivery.attempt {
            outcomes.len() as int
        } else {
            5 - delivery.attempt
        }),
    decreases outcomes.len(),
{
    if outcomes.len() > 0 {
        let attempting = delivery.attempting();
        let next = attempting.step(event_type, outcomes[0]).0;
        assert(failed(outcomes[0]));
        law_waiting_time_grows_within_limits(attempting, event_type, outcomes[0]);
        let rest = outcomes.skip(1);
        assert forall|i: int| 0 <= i < rest.len() implies failed(#[trigger] rest[i]) by {
            assert(rest[i] == outcomes[i + 1]);
        }
        if attempting.attempt < 5 {
            lemma_failing_attempts(next, event_type, rest);
        }
    }
}

/// What is read of an answer: whether one came, whether the event was accepted, and
/// of a refusal the error that its body names, if it has a body.
pub proof fn law_what_is_read_of_an_answer(
    body: String,
    event_id: Uuid,
    error: String,
)
    ensures
        SendResponse::TimedOut@ == OutcomeView::TimedOut,
        SendResponse::Sent@ == OutcomeView::Sent,
        (SendResponse::Refused { body: None, event_id, error })@ == OutcomeView::Refused(
            None,
            event_id.bits,
            error@,
        ),
        (SendResponse::Refused { body: Some(body), event_id, error })@ == OutcomeView::Refused(
            Some(error_in(parsed_json(body@))),
            event_id.bits,
            error@,
        ),
        (SendResponse::Failed { error })@ == OutcomeView::Failed(error@),
{
}

/// The views of outcomes, of answers and of actions leave nothing out.
pub proof fn law_outcomes_and_actions_are_seen_whole(
    error_id: Option<Hook0ErrorId>,
    event_id: Uuid,
    error: String,
    reason: String,
    delay_ms: u64,
)
    ensures
        SendOutcome::TimedOut@ == OutcomeView::TimedOut,
        SendOutcome::Sent@ == OutcomeView::Sent,
        (SendOutcome::Refused { error_id, event_id, error })@ == OutcomeView::Refused(
            error_id,
            event_id.bits,
            error@,
        ),
        (SendOutcome::Failed { error })@ == OutcomeView::Failed(error@),
        SendResponse::TimedOut@ == OutcomeView::TimedOut,
        SendResponse::Sent@ == OutcomeView::Sent,
        (SendResponse::Refused { body: None, event_id, error })@ == OutcomeView::Refused(
            None,
            event_id.bits,
            error@,
        ),
        (SendResponse::Refused { body: Some(reason), event_id, error })@ == OutcomeView::Refused(
            Some(error_in(parsed_json(reason@))),
            event_id.bits,
            error@,
        ),
        (SendResponse::Failed { error })@ == OutcomeView::Failed(error@),
        DeliveryAction::Resend@ == ActionView::Resend,
        (DeliveryAction::ResendAfter { delay_ms })@ == ActionView::ResendAfter(delay_ms),
        DeliveryAction::RecordAndFinish@ == ActionView::RecordAndFinish,
        (DeliveryAction::SuppressAndFinish { notification: error })@
            == ActionView::SuppressAndFinish(error@),
        (DeliveryAction::NotifyAndFinish { notification: error })@ == ActionView::NotifyAndFinish(
            error@,
        ),
        (DeliveryAction::NotifyAndAbort { notification: error, reason })@
            == ActionView::NotifyAndAbort(error@, reason@),
{
}

} // verus!
