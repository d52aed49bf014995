use vstd::prelude::*;
use vstd::string::*;

verus! {

use crate::store::StoreError;
use crate::store::SubscriberRecord;
use crate::store::SubscriberStatus;
use crate::store::SubscriptionStore;
use crate::store::TokenRecord;
use crate::store::spec_mark_confirmed;
use crate::store::spec_token_maps_to;
use crate::store::spec_token_taken;
use crate::store::str_eq;
use vstd::pervasive::unreached;

/// The query parameters of a confirmation request.
pub struct Parameters {
    pub subscription_token: String,
}

/// How a confirmation request can end.
#[derive(PartialEq, Eq, Structural, Clone, Copy, Debug)]
pub enum ConfirmOutcome {
    Success,
    MissingToken,
    UnrecognizedToken,
    LookupFailed,
    UpdateFailed,
}

impl ConfirmOutcome {
    pub open spec fn spec_status_code(&self) -> u16 {
        match self {
            ConfirmOutcome::Success => 200u16,
            ConfirmOutcome::MissingToken => 400u16,
            ConfirmOutcome::UnrecognizedToken => 401u16,
            ConfirmOutcome::LookupFailed => 500u16,
            ConfirmOutcome::UpdateFailed => 500u16,
        }
    }

    /// A missing parameter is the client's fault, an unknown token is not
    /// authorized, and a store fault surfaces with no detail.
    pub fn status_code(&self) -> (c: u16)
        ensures
            c == self.spec_status_code(),
    {
        match self {
            ConfirmOutcome::Success => 200,
            ConfirmOutcome::MissingToken => 400,
            ConfirmOutcome::UnrecognizedToken => 401,
            ConfirmOutcome::LookupFailed => 500,
            ConfirmOutcome::UpdateFailed => 500,
        }
    }
}

/// Looks up which subscriber a token belongs to; an unknown token is an
/// absent result, not an error.
#[verifier::loop_isolation(false)]
pub fn get_subscriber_id_from_token(token: &str, connection_pool: &SubscriptionStore) -> (r: Result<
    Option<u128>,
    StoreError,
>)
    ensures
        r is Err <==> connection_pool.fail_lookup,
        r matches Ok(o) ==> ((o is Some) <==> spec_token_taken(connection_pool.tokens@, token@)),
        r matches Ok(o) ==> (o matches Some(id) ==> spec_token_maps_to(
            connection_pool.tokens@,
            token@,
            id,
        )),
{
    if connection_pool.fail_lookup {
        return Err(StoreError);
    }
    let n = connection_pool.tokens.len();
    let mut i: usize = 0;
    while i < n
        invariant
            i <= n,
            n == connection_pool.tokens@.len(),
            forall|j: int| 0 <= j < i ==> (#[trigger] connection_pool.tokens@[j].token@) != token@,
        decreases n - i,
    {
        if str_eq(connection_pool.tokens[i].token.as_str(), token) {
            return Ok(Some(connection_pool.tokens[i].subscriber_id));
        }
        i += 1;
    }
    Ok(None)
}

/// Sets the subscriber's status to confirmed, unconditionally: updating an
/// already confirmed row or an absent identifier changes nothing, so the
/// write is safe to repeat.
#[verifier::loop_isolation(false)]
pub fn update_subscriber_status(subscriber_id: u128, connection_pool: &mut SubscriptionStore) -> (r:
    Result<(), StoreError>)
    requires
        old(connection_pool).wf(),
    ensures
        final(connection_pool).wf(),
        final(connection_pool).config_unchanged(old(connection_pool)),
        final(connection_pool).tokens@ =~= old(connection_pool).tokens@,
        final(connection_pool).staged_subscribers@ =~= old(connection_pool).staged_subscribers@,
        final(connection_pool).staged_tokens@ =~= old(connection_pool).staged_tokens@,
        final(connection_pool).tx_open == old(connection_pool).tx_open,
        r is Ok <==> !old(connection_pool).fail_update,
        r is Ok ==> final(connection_pool).subscribers@ =~= spec_mark_confirmed(
            old(connection_pool).subscribers@,
            subscriber_id,
        ),
        r is Err ==> *final(connection_pool) == *old(connection_pool),
{
    if connection_pool.fail_update {
        return Err(StoreError);
    }
    let n = connection_pool.subscribers.len();
    let mut i: usize = 0;
    while i < n
        invariant
            i <= n,
            n == connection_pool.subscribers@.len(),
            connection_pool.subscribers@.len() == old(connection_pool).subscribers@.len(),
            forall|j: int|
                0 <= j < i ==> (#[trigger] connection_pool.subscribers@[j]) == spec_mark_confirmed(
                    old(connection_pool).subscribers@,
                    subscriber_id,
                )[j],
            forall|j: int|
                i <= j < n ==> (#[trigger] connection_pool.subscribers@[j]) == old(
                    connection_pool,
                ).subscribers@[j],
            connection_pool.tokens@ =~= old(connection_pool).tokens@,
            connection_pool.staged_subscribers@ =~= old(connection_pool).staged_subscribers@,
            connection_pool.staged_tokens@ =~= old(connection_pool).staged_tokens@,
            connection_pool.tx_open == old(connection_pool).tx_open,
            connection_pool.config_unchanged(old(connection_pool)),
        decreases n - i,
    {
        if connection_pool.subscribers[i].id == subscriber_id {
            connection_pool.subscribers[i].status = SubscriberStatus::Confirmed;
        }
        i += 1;
    }
    proof {
        assert(connection_pool.subscribers@ =~= spec_mark_confirmed(
            old(connection_pool).subscribers@,
            subscriber_id,
        ));
        assert forall|k: int| 0 <= k < connection_pool.subscribers@.len() implies (
        #[trigger] connection_pool.subscribers@[k].id) == old(
            connection_pool,
        ).subscribers@[k].id by {}
    }
    Ok(())
}

/// The confirm operation as a protocol: check the parameter, look the token
/// up, mark the subscriber confirmed.
pub enum ConfirmStep {
    CheckToken { parameters: Option<Parameters> },
    Lookup { subscription_token: String },
    MarkConfirmed { subscriber_id: u128 },
    Finished { outcome: ConfirmOutcome },
}

/// The outcome a driver reports after performing the action a state asked
/// for.
pub enum ConfirmEvent {
    Start,
    LookupDone { found: Result<Option<u128>, StoreError> },
    MarkDone { ok: bool },
}

pub open spec fn spec_confirm_event_fits(step: &ConfirmStep, event: &ConfirmEvent) -> bool {
    match (step, event) {
        (ConfirmStep::CheckToken { .. }, ConfirmEvent::Start) => true,
        (ConfirmStep::Lookup { .. }, ConfirmEvent::LookupDone { .. }) => true,
        (ConfirmStep::MarkConfirmed { .. }, ConfirmEvent::MarkDone { .. }) => true,
        _ => false,
    }
}

pub open spec fn spec_confirm_step_rank(step: &ConfirmStep) -> int {
    match step {
        ConfirmStep::CheckToken { .. } => 3,
        ConfirmStep::Lookup { .. } => 2,
        ConfirmStep::MarkConfirmed { .. } => 1,
        ConfirmStep::Finished { .. } => 0,
    }
}

/// Whether the request carries no usable token: the parameter is absent or
/// empty.
pub open spec fn spec_param_missing(parameters: Option<Parameters>) -> bool {
    match parameters {
        None => true,
        Some(p) => p.subscription_token@.len() == 0,
    }
}

pub open spec fn spec_param_token(parameters: Option<Parameters>) -> Seq<char> {
    match parameters {
        None => Seq::empty(),
        Some(p) => p.subscription_token@,
    }
}

/// The decision core of the confirm operation.
pub fn confirm_next(step: ConfirmStep, event: ConfirmEvent) -> (next: ConfirmStep)
    requires
        spec_confirm_event_fits(&step, &event),
    ensures
        spec_confirm_step_rank(&next) < spec_confirm_step_rank(&step),
        step matches ConfirmStep::CheckToken { parameters } ==> (if spec_param_missing(parameters) {
            next == (ConfirmStep::Finished { outcome: ConfirmOutcome::MissingToken })
        } else {
            next matches ConfirmStep::Lookup { subscription_token } && subscription_token@
                == spec_param_token(parameters)
        }),
        step matches ConfirmStep::Lookup { subscription_token } ==> (event matches
            ConfirmEvent::LookupDone { found } ==> (match found {
            Err(_) => next == (ConfirmStep::Finished { outcome: ConfirmOutcome::LookupFailed }),
            Ok(None) => next == (ConfirmStep::Finished {
                outcome: ConfirmOutcome::UnrecognizedToken,
            }),
            Ok(Some(id)) => next == (ConfirmStep::MarkConfirmed { subscriber_id: id }),
        })),
        step matches ConfirmStep::MarkConfirmed { subscriber_id } ==> (event matches
            ConfirmEvent::MarkDone { ok } ==> (if ok {
            next == (ConfirmStep::Finished { outcome: ConfirmOutcome::Success })
        } else {
            next == (ConfirmStep::Finished { outcome: ConfirmOutcome::UpdateFailed })
        })),
{
    match (step, event) {
        (ConfirmStep::CheckToken { parameters }, ConfirmEvent::Start) => {
            match parameters {
                None => ConfirmStep::Finished { outcome: ConfirmOutcome::MissingToken },
                Some(p) => {
                    if p.subscription_token.as_str().is_empty() {
                        ConfirmStep::Finished { outcome: ConfirmOutcome::MissingToken }
                    } else {
                        ConfirmStep::Lookup { subscription_token: p.subscription_token }
                    }
                },
            }
        },
        (ConfirmStep::Lookup { subscription_token: _ }, ConfirmEvent::LookupDone { found }) => {
            match found {
                Err(_) => ConfirmStep::Finished { outcome: ConfirmOutcome::LookupFailed },
                Ok(None) => ConfirmStep::Finished { outcome: ConfirmOutcome::UnrecognizedToken },
                Ok(Some(id)) => ConfirmStep::MarkConfirmed { subscriber_id: id },
            }
        },
        (ConfirmStep::MarkConfirmed { subscriber_id: _ }, ConfirmEvent::MarkDone { ok }) => {
            if ok {
                ConfirmStep::Finished { outcome: ConfirmOutcome::Success }
            } else {
                ConfirmStep::Finished { outcome: ConfirmOutcome::UpdateFailed }
            }
        },
        _ => unreached(),
    }
}

/// What a finished confirm request guarantees: which outcome comes for
/// which parameter and store condition, and that only a successful
/// confirmation touches the subscriber rows.
pub open spec fn spec_confirm_resolution(
    s0: SubscriptionStore,
    s: SubscriptionStore,
    missing: bool,
    t: Seq<char>,
    outcome: ConfirmOutcome,
) -> bool {
    let taken = spec_token_taken(s0.tokens@, t);
    &&& (outcome == ConfirmOutcome::MissingToken <==> missing)
    &&& (outcome == ConfirmOutcome::LookupFailed <==> !missing && s0.fail_lookup)
    &&& (outcome == ConfirmOutcome::UnrecognizedToken <==> !missing && !s0.fail_lookup && !taken)
    &&& (outcome == ConfirmOutcome::UpdateFailed <==> !missing && !s0.fail_lookup && taken
        && s0.fail_update)
    &&& (outcome == ConfirmOutcome::Success <==> !missing && !s0.fail_lookup && taken
        && !s0.fail_update)
    &&& (outcome != ConfirmOutcome::Success ==> s.subscribers@ =~= s0.subscribers@)
    &&& (outcome == ConfirmOutcome::Success ==> exists|id: u128|
        #[trigger] spec_token_maps_to(s0.tokens@, t, id) && s.subscribers@ =~= spec_mark_confirmed(
            s0.subscribers@,
            id,
        ))
}

pub open spec fn spec_confirm_outcome(
    s0: SubscriptionStore,
    s: SubscriptionStore,
    parameters: Option<Parameters>,
    outcome: ConfirmOutcome,
) -> bool {
    spec_confirm_resolution(
        s0,
        s,
        spec_param_missing(parameters),
        spec_param_token(parameters),
        outcome,
    )
}

/// Ties each protocol state to what must hold of the store while a confirm
/// request is in flight.
pub open spec fn spec_confirm_inv(
    step: ConfirmStep,
    s0: SubscriptionStore,
    s: SubscriptionStore,
    missing0: bool,
    token0: Seq<char>,
) -> bool {
    match step {
        ConfirmStep::CheckToken { parameters } => {
            &&& s == s0
            &&& spec_param_missing(parameters) == missing0
            &&& spec_param_token(parameters) == token0
        },
        ConfirmStep::Lookup { subscription_token } => {
            &&& s == s0
            &&& !missing0
            &&& subscription_token@ == token0
        },
        ConfirmStep::MarkConfirmed { subscriber_id } => {
            &&& s == s0
            &&& !missing0
            &&& !s0.fail_lookup
            &&& spec_token_maps_to(s0.tokens@, token0, subscriber_id)
        },
        ConfirmStep::Finished { outcome } => {
            spec_confirm_resolution(s0, s, missing0, token0, outcome)
        },
    }
}

/// The confirm operation, run against the store: redeems the token from the
/// query parameters and advances the subscriber it names to confirmed.
#[verifier::loop_isolation(false)]
pub fn confirm(parameters: Option<Parameters>, connection_pool: &mut SubscriptionStore) -> (outcome:
    ConfirmOutcome)
    requires
        old(connection_pool).wf(),
    ensures
        final(connection_pool).wf(),
        final(connection_pool).config_unchanged(old(connection_pool)),
        final(connection_pool).tokens@ =~= old(connection_pool).tokens@,
        final(connection_pool).staged_subscribers@ =~= old(connection_pool).staged_subscribers@,
        final(connection_pool).staged_tokens@ =~= old(connection_pool).staged_tokens@,
        final(connection_pool).tx_open == old(connection_pool).tx_open,
        spec_confirm_outcome(*old(connection_pool), *final(connection_pool), parameters, outcome),
{
    let ghost s0 = *connection_pool;
    let ghost missing0 = spec_param_missing(parameters);
    let ghost token0 = spec_param_token(parameters);
    let mut step = ConfirmStep::CheckToken { parameters };
    loop
        invariant
            connection_pool.wf(),
            connection_pool.config_unchanged(&s0),
            connection_pool.tokens@ =~= s0.tokens@,
            connection_pool.staged_subscribers@ =~= s0.staged_subscribers@,
            connection_pool.staged_tokens@ =~= s0.staged_tokens@,
            connection_pool.tx_open == s0.tx_open,
            spec_confirm_inv(step, s0, *connection_pool, missing0, token0),
        decreases spec_confirm_step_rank(&step),
    {
        step = match step {
            ConfirmStep::CheckToken { parameters } => {
                confirm_next(ConfirmStep::CheckToken { parameters }, ConfirmEvent::Start)
            },
            ConfirmStep::Lookup { subscription_token } => {
                let found = get_subscriber_id_from_token(
                    subscription_token.as_str(),
                    connection_pool,
                );
                confirm_next(
                    ConfirmStep::Lookup { subscription_token },
                    ConfirmEvent::LookupDone { found },
                )
            },
            ConfirmStep::MarkConfirmed { subscriber_id } => {
                let ok = match update_subscriber_status(subscriber_id, connection_pool) {
                    Ok(_) => true,
                    Err(_) => false,
                };
                confirm_next(
                    ConfirmStep::MarkConfirmed { subscriber_id },
                    ConfirmEvent::MarkDone { ok },
                )
            },
            ConfirmStep::Finished { outcome } => {
                return outcome;
            },
        };
    }
}

/// A confirmation request without a usable token is rejected as missing,
/// whatever the store holds, and no subscriber row changes.
pub proof fn lemma_confirm_requires_a_token(
    s0: SubscriptionStore,
    s: SubscriptionStore,
    t: Seq<char>,
    outcome: ConfirmOutcome,
)
    requires
        spec_confirm_resolution(s0, s, true, t, outcome),
    ensures
        outcome == ConfirmOutcome::MissingToken,
        s.subscribers@ =~= s0.subscribers@,
{
}

/// A token that was never issued is rejected as unrecognized, and no
/// subscriber's status changes.
pub proof fn lemma_confirm_rejects_unknown_token(
    s0: SubscriptionStore,
    s: SubscriptionStore,
    t: Seq<char>,
    outcome: ConfirmOutcome,
)
    requires
        spec_confirm_resolution(s0, s, false, t, outcome),
        !s0.fail_lookup,
        !spec_token_taken(s0.tokens@, t),
    ensures
        outcome == ConfirmOutcome::UnrecognizedToken,
        s.subscribers@ =~= s0.subscribers@,
{
}

/// Redeeming an issued token against a healthy store succeeds and moves
/// the subscriber the token names to confirmed.
pub proof fn lemma_confirm_redeems_issued_token(
    s0: SubscriptionStore,
    s: SubscriptionStore,
    t: Seq<char>,
    id: u128,
    outcome: ConfirmOutcome,
)
    requires
        spec_confirm_resolution(s0, s, false, t, outcome),
        !s0.fail_lookup,
        !s0.fail_update,
        spec_token_maps_to(s0.tokens@, t, id),
    ensures
        outcome == ConfirmOutcome::Success,
        exists|i: u128|
            #[trigger] spec_token_maps_to(s0.tokens@, t, i) && s.subscribers@
                =~= spec_mark_confirmed(s0.subscribers@, i),
{
    assert(spec_token_taken(s0.tokens@, t)) by {
        let j = choose|j: int|
            0 <= j < s0.tokens@.len() && s0.tokens@[j].token@ == t && s0.tokens@[j].subscriber_id
                == id;
        assert(0 <= j < s0.tokens@.len() && s0.tokens@[j].token@ == t);
    }
}

/// Redeeming a token twice is harmless: setting a subscriber's status to
/// confirmed a second time leaves every row exactly as the first redemption
/// left it, and the row the token names is confirmed from the first
/// redemption on.
pub proof fn lemma_confirm_idempotent(
    subscribers: Seq<SubscriberRecord>,
    tokens: Seq<TokenRecord>,
    t: Seq<char>,
    id: u128,
)
    requires
        spec_token_maps_to(tokens, t, id),
    ensures
        spec_mark_confirmed(spec_mark_confirmed(subscribers, id), id) =~= spec_mark_confirmed(
            subscribers,
            id,
        ),
        forall|i: int|
            0 <= i < subscribers.len() && subscribers[i].id == id ==> (#[trigger] spec_mark_confirmed(
                subscribers,
                id,
            )[i]).status == SubscriberStatus::Confirmed,
{
    assert forall|i: int|
        0 <= i < subscribers.len() implies #[trigger] spec_mark_confirmed(
        spec_mark_confirmed(subscribers, id),
        id,
    )[i] == spec_mark_confirmed(subscribers, id)[i] by {}
}

} // verus!
