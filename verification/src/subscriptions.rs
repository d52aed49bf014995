use vstd::prelude::*;
use vstd::string::*;
use rand::Rng;

verus! {

use crate::domain::FormData;
use crate::domain::NewSubscriber;
use crate::domain::spec_name_valid;
use crate::domain::subscriber_email::email_is_valid;
use crate::email_client::EmailClient;
use crate::email_client::EmailDispatchError;
use crate::email_client::SentEmail;
use crate::startup::ApplicationBaseUrl;
use crate::store::StoreError;
use crate::store::SubscriberRecord;
use crate::store::SubscriberStatus;
use crate::store::SubscriptionStore;
use crate::store::TokenRecord;
use crate::store::spec_token_taken;
use crate::store::str_eq;
use vstd::pervasive::unreached;

/// The failed attempt to store a confirmation token, standing for the
/// backend's error on that statement.
#[derive(Debug)]
pub struct StoreTokenError;

/// Every way a subscribe request can fail, one variant per step.
#[derive(Debug)]
pub enum SubscribeError {
    ValidationError(String),
    PoolError,
    InsertSubscriberError,
    TransactionCommitError,
    StoreTokenError(StoreTokenError),
    SendEmailError,
}

impl SubscribeError {
    pub open spec fn spec_status_code(&self) -> u16 {
        match self {
            SubscribeError::ValidationError(_) => 400u16,
            _ => 500u16,
        }
    }

    /// Bad user input is the client's fault; everything else is an internal
    /// fault and surfaces with no detail.
    pub fn status_code(&self) -> (c: u16)
        ensures
            c == self.spec_status_code(),
    {
        match self {
            SubscribeError::ValidationError(_) => 400,
            _ => 500,
        }
    }

    pub open spec fn spec_message(&self) -> Seq<char> {
        match self {
            SubscribeError::ValidationError(m) => m@,
            SubscribeError::PoolError => "Failed to acquire connection from pool"@,
            SubscribeError::InsertSubscriberError => "Failed to insert new subscriber into subscriber table"@,
            SubscribeError::TransactionCommitError => "Failed to commit transaction to store new subscriber"@,
            SubscribeError::StoreTokenError(_) => "Failed to store confirmation token for new subscriber"@,
            SubscribeError::SendEmailError => "Failed to send confirmation email to new subscriber"@,
        }
    }

    /// The description of the failed step, named after what it wraps.
    pub fn message(&self) -> (m: String)
        ensures
            m@ == self.spec_message(),
    {
        match self {
            SubscribeError::ValidationError(m) => m.clone(),
            SubscribeError::PoolError => "Failed to acquire connection from pool".to_owned(),
            SubscribeError::InsertSubscriberError => "Failed to insert new subscriber into subscriber table".to_owned(),
            SubscribeError::TransactionCommitError => "Failed to commit transaction to store new subscriber".to_owned(),
            SubscribeError::StoreTokenError(_) => "Failed to store confirmation token for new subscriber".to_owned(),
            SubscribeError::SendEmailError => "Failed to send confirmation email to new subscriber".to_owned(),
        }
    }
}

pub open spec fn spec_is_token_char(c: char) -> bool {
    ('a' <= c && c <= 'z') || ('A' <= c && c <= 'Z') || ('0' <= c && c <= '9')
}

/// A well-formed confirmation token: exactly 25 case-sensitive alphanumeric
/// characters.
pub open spec fn spec_token_wf(t: Seq<char>) -> bool {
    t.len() == 25 && (forall|i: int| 0 <= i < t.len() ==> spec_is_token_char(#[trigger] t[i]))
}

/// Relies on rand's Alphanumeric distribution: every sample is one of
/// `A-Z`, `a-z`, `0-9`, drawn uniformly from the thread's generator.
#[verifier::external_body]
fn sample_alphanumeric() -> (s: String)
    ensures
        s@.len() == 1,
        spec_is_token_char(s@[0]),
{
    let b: u8 = rand::thread_rng().sample(rand::distributions::Alphanumeric);
    String::from(char::from(b))
}

/// Generates a random 25-character case-sensitive token.
pub fn generate_subscribe_token() -> (t: String)
    ensures
        spec_token_wf(t@),
{
    let mut token = String::new();
    let mut i: usize = 0;
    while i < 25
        invariant
            i <= 25,
            token@.len() == i,
            forall|j: int| 0 <= j < token@.len() ==> spec_is_token_char(#[trigger] token@[j]),
        decreases 25 - i,
    {
        let piece = sample_alphanumeric();
        token.append(piece.as_str());
        i += 1;
    }
    token
}

/// `new_rows` is `old_rows` plus one pending subscriber row at the end.
pub open spec fn spec_staged_row_added(
    old_rows: Seq<SubscriberRecord>,
    new_rows: Seq<SubscriberRecord>,
    id: u128,
    email: Seq<char>,
    name: Seq<char>,
    at: i64,
) -> bool {
    &&& new_rows.len() == old_rows.len() + 1
    &&& new_rows.subrange(0, old_rows.len() as int) =~= old_rows
    &&& new_rows.last().id == id
    &&& new_rows.last().email@ == email
    &&& new_rows.last().name@ == name
    &&& new_rows.last().subscribed_at == at
    &&& new_rows.last().status == SubscriberStatus::PendingConfirmation
}

/// `new_rows` is `old_rows` plus one token row at the end.
pub open spec fn spec_staged_token_added(
    old_rows: Seq<TokenRecord>,
    new_rows: Seq<TokenRecord>,
    t: Seq<char>,
    id: u128,
) -> bool {
    &&& new_rows.len() == old_rows.len() + 1
    &&& new_rows.subrange(0, old_rows.len() as int) =~= old_rows
    &&& new_rows.last().token@ == t
    &&& new_rows.last().subscriber_id == id
}

/// Stages a new subscriber row with status pending inside the open
/// transaction; the store assigns the identifier.
pub fn save_subscriber(new_subscriber: &NewSubscriber, transaction: &mut SubscriptionStore) -> (r:
    Result<u128, StoreError>)
    requires
        old(transaction).wf(),
        old(transaction).tx_open,
    ensures
        final(transaction).wf(),
        final(transaction).tx_open,
        final(transaction).committed_unchanged(old(transaction)),
        final(transaction).config_unchanged(old(transaction)),
        final(transaction).staged_tokens@ =~= old(transaction).staged_tokens@,
        r is Ok <==> !old(transaction).fail_insert_subscriber,
        r matches Ok(id) ==> (id as int) == old(transaction).subscribers@.len() + old(
            transaction,
        ).staged_subscribers@.len() && spec_staged_row_added(
            old(transaction).staged_subscribers@,
            final(transaction).staged_subscribers@,
            id,
            new_subscriber.email@,
            new_subscriber.name@,
            old(transaction).clock,
        ),
        r is Err ==> *final(transaction) == *old(transaction),
{
    if transaction.fail_insert_subscriber {
        return Err(StoreError);
    }
    let subscriber_id = (transaction.subscribers.len() as u128) + (
    transaction.staged_subscribers.len() as u128);
    let record = SubscriberRecord {
        id: subscriber_id,
        email: new_subscriber.email.as_ref().to_owned(),
        name: new_subscriber.name.inner_ref().to_owned(),
        subscribed_at: transaction.clock,
        status: SubscriberStatus::PendingConfirmation,
    };
    transaction.staged_subscribers.push(record);
    Ok(subscriber_id)
}

/// Stages the token row for a just-staged subscriber.  The token column is
/// the table's key, so a token value that is already present, committed or
/// staged, is refused.
#[verifier::loop_isolation(false)]
pub fn save_token(
    subscriber_id: u128,
    subscribe_token: &str,
    transaction: &mut SubscriptionStore,
) -> (r: Result<(), StoreTokenError>)
    requires
        old(transaction).wf(),
        old(transaction).tx_open,
        (subscriber_id as int) < old(transaction).subscribers@.len() + old(
            transaction,
        ).staged_subscribers@.len(),
    ensures
        final(transaction).wf(),
        final(transaction).tx_open,
        final(transaction).committed_unchanged(old(transaction)),
        final(transaction).config_unchanged(old(transaction)),
        final(transaction).staged_subscribers@ =~= old(transaction).staged_subscribers@,
        r is Ok <==> (!old(transaction).fail_store_token && !spec_token_taken(
            old(transaction).tokens@,
            subscribe_token@,
        ) && !spec_token_taken(old(transaction).staged_tokens@, subscribe_token@)),
        r is Ok ==> spec_staged_token_added(
            old(transaction).staged_tokens@,
            final(transaction).staged_tokens@,
            subscribe_token@,
            subscriber_id,
        ),
        r is Err ==> *final(transaction) == *old(transaction),
{
    if transaction.fail_store_token {
        return Err(StoreTokenError);
    }
    let n = transaction.tokens.len();
    let mut i: usize = 0;
    while i < n
        invariant
            i <= n,
            n == transaction.tokens@.len(),
            forall|j: int| 0 <= j < i ==> (#[trigger] transaction.tokens@[j].token@)
                != subscribe_token@,
        decreases n - i,
    {
        if str_eq(transaction.tokens[i].token.as_str(), subscribe_token) {
            return Err(StoreTokenError);
        }
        i += 1;
    }
    let m = transaction.staged_tokens.len();
    let mut k: usize = 0;
    while k < m
        invariant
            k <= m,
            m == transaction.staged_tokens@.len(),
            forall|j: int| 0 <= j < k ==> (#[trigger] transaction.staged_tokens@[j].token@)
                != subscribe_token@,
        decreases m - k,
    {
        if str_eq(transaction.staged_tokens[k].token.as_str(), subscribe_token) {
            return Err(StoreTokenError);
        }
        k += 1;
    }
    let row = TokenRecord { token: subscribe_token.to_owned(), subscriber_id };
    transaction.staged_tokens.push(row);
    Ok(())
}

pub open spec fn spec_confirmation_link(base_url: Seq<char>, token: Seq<char>) -> Seq<char> {
    base_url + "/subscriptions/confirm?subscription_token="@ + token
}

pub open spec fn spec_confirmation_html(link: Seq<char>) -> Seq<char> {
    "Welcome to my newsletter! <br>Click <a href=\""@ + link
        + "\">here</a> to confirm your subscription."@
}

pub open spec fn spec_confirmation_text(link: Seq<char>) -> Seq<char> {
    "Welcome to my newsletter!\nVisit "@ + link + " to confirm your subscription."@
}

/// The one email the workflow dispatches: subject, and both bodies built
/// around the confirmation link that embeds the token.
pub open spec fn spec_email_dispatched(
    old_sent: Seq<SentEmail>,
    new_sent: Seq<SentEmail>,
    recipient: Seq<char>,
    base_url: Seq<char>,
    token: Seq<char>,
) -> bool {
    &&& new_sent.len() == old_sent.len() + 1
    &&& new_sent.subrange(0, old_sent.len() as int) =~= old_sent
    &&& new_sent.last().recipient@ == recipient
    &&& new_sent.last().subject@ == "Welcome!"@
    &&& new_sent.last().html_body@ == spec_confirmation_html(
        spec_confirmation_link(base_url, token),
    )
    &&& new_sent.last().text_body@ == spec_confirmation_text(
        spec_confirmation_link(base_url, token),
    )
}

/// Builds the HTML and plain-text bodies of the confirmation email around
/// the link that embeds the token.
pub fn confirmation_email_content(base_url: &str, subscribe_token: &str) -> (r: (String, String))
    ensures
        r.0@ == spec_confirmation_html(spec_confirmation_link(base_url@, subscribe_token@)),
        r.1@ == spec_confirmation_text(spec_confirmation_link(base_url@, subscribe_token@)),
{
    let mut confirmation_link = base_url.to_owned();
    confirmation_link.append("/subscriptions/confirm?subscription_token=");
    confirmation_link.append(subscribe_token);
    let mut html_content = "Welcome to my newsletter! <br>Click <a href=\"".to_owned();
    html_content.append(confirmation_link.as_str());
    html_content.append("\">here</a> to confirm your subscription.");
    let mut text_content = "Welcome to my newsletter!\nVisit ".to_owned();
    text_content.append(confirmation_link.as_str());
    text_content.append(" to confirm your subscription.");
    (html_content, text_content)
}

/// Builds the confirmation email and hands it to the dispatcher.
pub fn send_confirmation_email(
    email_client: &mut EmailClient,
    subscriber: &NewSubscriber,
    base_url: &str,
    subscribe_token: &str,
) -> (r: Result<(), EmailDispatchError>)
    ensures
        final(email_client).fail_sending == old(email_client).fail_sending,
        final(email_client).sender == old(email_client).sender,
        r is Ok <==> !old(email_client).fail_sending,
        r is Err ==> final(email_client).sent@ =~= old(email_client).sent@,
        r is Ok ==> spec_email_dispatched(
            old(email_client).sent@,
            final(email_client).sent@,
            subscriber.email@,
            base_url@,
            subscribe_token@,
        ),
{
    let (html_content, text_content) = confirmation_email_content(base_url, subscribe_token);
    let subject = "Welcome!";
    email_client.send_email(
        &subscriber.email,
        subject,
        html_content.as_str(),
        text_content.as_str(),
    )
}

/// The subscribe workflow as a protocol.  Each state names the next outside
/// action its driver must perform and carries the data that action needs;
/// `subscribe_next` takes the action's outcome and decides what follows.
/// The order is fixed: validate, begin, insert the subscriber, store the
/// token, commit, and only then send the email, so that the persisted
/// pending state survives an email outage.
pub enum SubscribeStep {
    Validate { form: FormData, base_url: String },
    Begin { subscriber: NewSubscriber, base_url: String },
    InsertSubscriber { subscriber: NewSubscriber, base_url: String },
    StoreToken { subscriber: NewSubscriber, base_url: String, subscriber_id: u128, token: String },
    Commit { subscriber: NewSubscriber, base_url: String, token: String },
    SendEmail { subscriber: NewSubscriber, base_url: String, token: String },
    Finished { outcome: Result<(), SubscribeError> },
}

/// The outcome a driver reports after performing the action a state asked
/// for.
pub enum SubscribeEvent {
    Start,
    BeginDone { ok: bool },
    InsertDone { inserted_id: Option<u128> },
    TokenDone { ok: bool },
    CommitDone { ok: bool },
    EmailDone { ok: bool },
}

/// Each state takes exactly the outcome of its own action.
pub open spec fn spec_event_fits(step: &SubscribeStep, event: &SubscribeEvent) -> bool {
    match (step, event) {
        (SubscribeStep::Validate { .. }, SubscribeEvent::Start) => true,
        (SubscribeStep::Begin { .. }, SubscribeEvent::BeginDone { .. }) => true,
        (SubscribeStep::InsertSubscriber { .. }, SubscribeEvent::InsertDone { .. }) => true,
        (SubscribeStep::StoreToken { .. }, SubscribeEvent::TokenDone { .. }) => true,
        (SubscribeStep::Commit { .. }, SubscribeEvent::CommitDone { .. }) => true,
        (SubscribeStep::SendEmail { .. }, SubscribeEvent::EmailDone { .. }) => true,
        _ => false,
    }
}

pub open spec fn spec_step_rank(step: &SubscribeStep) -> int {
    match step {
        SubscribeStep::Validate { .. } => 6,
        SubscribeStep::Begin { .. } => 5,
        SubscribeStep::InsertSubscriber { .. } => 4,
        SubscribeStep::StoreToken { .. } => 3,
        SubscribeStep::Commit { .. } => 2,
        SubscribeStep::SendEmail { .. } => 1,
        SubscribeStep::Finished { .. } => 0,
    }
}

/// The decision core of the subscribe operation: what to do after each
/// outcome, and which failure each aborted step maps to.
pub fn subscribe_next(step: SubscribeStep, event: SubscribeEvent) -> (next: SubscribeStep)
    requires
        spec_event_fits(&step, &event),
    ensures
        spec_step_rank(&next) < spec_step_rank(&step),
        step matches SubscribeStep::Validate { form, base_url } ==> (if spec_name_valid(form.name@)
            && email_is_valid(form.email@) {
            next matches SubscribeStep::Begin { subscriber, base_url: b } && subscriber.name@
                == form.name@ && subscriber.email@ == form.email@ && b == base_url
        } else {
            next matches SubscribeStep::Finished { outcome } && outcome matches Err(
                SubscribeError::ValidationError(m),
            ) && (if !spec_name_valid(form.name@) {
                m@ == form.name@ + " is not a valid name"@
            } else {
                m@ == form.email@ + " is not a valid email"@
            })
        }),
        step matches SubscribeStep::Begin { subscriber, base_url } ==> (event matches
            SubscribeEvent::BeginDone { ok } ==> (if ok {
            next == (SubscribeStep::InsertSubscriber { subscriber, base_url })
        } else {
            next == (SubscribeStep::Finished { outcome: Err(SubscribeError::PoolError) })
        })),
        step matches SubscribeStep::InsertSubscriber { subscriber, base_url } ==> (event matches
            SubscribeEvent::InsertDone { inserted_id } ==> (match inserted_id {
            Some(id) => next matches SubscribeStep::StoreToken {
                subscriber: s2,
                base_url: b2,
                subscriber_id,
                token,
            } && s2 == subscriber && b2 == base_url && subscriber_id == id && spec_token_wf(token@),
            None => next == (SubscribeStep::Finished {
                outcome: Err(SubscribeError::InsertSubscriberError),
            }),
        })),
        step matches SubscribeStep::StoreToken { subscriber, base_url, subscriber_id, token }
            ==> (event matches SubscribeEvent::TokenDone { ok } ==> (if ok {
            next == (SubscribeStep::Commit { subscriber, base_url, token })
        } else {
            next matches SubscribeStep::Finished { outcome } && outcome matches Err(
                SubscribeError::StoreTokenError(_),
            )
        })),
        step matches SubscribeStep::Commit { subscriber, base_url, token } ==> (event matches
            SubscribeEvent::CommitDone { ok } ==> (if ok {
            next == (SubscribeStep::SendEmail { subscriber, base_url, token })
        } else {
            next == (SubscribeStep::Finished {
                outcome: Err(SubscribeError::TransactionCommitError),
            })
        })),
        step matches SubscribeStep::SendEmail { subscriber, base_url, token } ==> (event matches
            SubscribeEvent::EmailDone { ok } ==> (if ok {
            next == (SubscribeStep::Finished { outcome: Ok(()) })
        } else {
            next == (SubscribeStep::Finished { outcome: Err(SubscribeError::SendEmailError) })
        })),
{
    match (step, event) {
        (SubscribeStep::Validate { form, base_url }, SubscribeEvent::Start) => {
            match NewSubscriber::try_from(form) {
                Ok(subscriber) => SubscribeStep::Begin { subscriber, base_url },
                Err(m) => SubscribeStep::Finished {
                    outcome: Err(SubscribeError::ValidationError(m)),
                },
            }
        },
        (SubscribeStep::Begin { subscriber, base_url }, SubscribeEvent::BeginDone { ok }) => {
            if ok {
                SubscribeStep::InsertSubscriber { subscriber, base_url }
            } else {
                SubscribeStep::Finished { outcome: Err(SubscribeError::PoolError) }
            }
        },
        (
            SubscribeStep::InsertSubscriber { subscriber, base_url },
            SubscribeEvent::InsertDone { inserted_id },
        ) => {
            match inserted_id {
                Some(subscriber_id) => {
                    let token = generate_subscribe_token();
                    SubscribeStep::StoreToken { subscriber, base_url, subscriber_id, token }
                },
                None => SubscribeStep::Finished {
                    outcome: Err(SubscribeError::InsertSubscriberError),
                },
            }
        },
        (
            SubscribeStep::StoreToken { subscriber, base_url, subscriber_id: _, token },
            SubscribeEvent::TokenDone { ok },
        ) => {
            if ok {
                SubscribeStep::Commit { subscriber, base_url, token }
            } else {
                SubscribeStep::Finished {
                    outcome: Err(SubscribeError::StoreTokenError(StoreTokenError)),
                }
            }
        },
        (
            SubscribeStep::Commit { subscriber, base_url, token },
            SubscribeEvent::CommitDone { ok },
        ) => {
            if ok {
                SubscribeStep::SendEmail { subscriber, base_url, token }
            } else {
                SubscribeStep::Finished { outcome: Err(SubscribeError::TransactionCommitError) }
            }
        },
        (SubscribeStep::SendEmail { .. }, SubscribeEvent::EmailDone { ok }) => {
            if ok {
                SubscribeStep::Finished { outcome: Ok(()) }
            } else {
                SubscribeStep::Finished { outcome: Err(SubscribeError::SendEmailError) }
            }
        },
        _ => unreached(),
    }
}

/// The transaction's staging area holds exactly the new pending subscriber
/// and its token, and nothing else.
pub open spec fn spec_pending_pair_staged(
    s0: SubscriptionStore,
    s: SubscriptionStore,
    name: Seq<char>,
    email: Seq<char>,
    token: Seq<char>,
) -> bool {
    &&& s.staged_subscribers@.len() == 1
    &&& ((s.staged_subscribers@[0].id as int) == s0.subscribers@.len())
    &&& s.staged_subscribers@[0].email@ == email
    &&& s.staged_subscribers@[0].name@ == name
    &&& s.staged_subscribers@[0].subscribed_at == s0.clock
    &&& s.staged_subscribers@[0].status == SubscriberStatus::PendingConfirmation
    &&& s.staged_tokens@.len() == 1
    &&& s.staged_tokens@[0].token@ == token
    &&& ((s.staged_tokens@[0].subscriber_id as int) == s0.subscribers@.len())
}

/// Exactly one new subscriber row, pending, and exactly one token row
/// referencing it are committed on top of `s0`; every older row is
/// untouched.
pub open spec fn spec_committed_pair(
    s0: SubscriptionStore,
    s: SubscriptionStore,
    name: Seq<char>,
    email: Seq<char>,
    token: Seq<char>,
) -> bool {
    &&& s.subscribers@.len() == s0.subscribers@.len() + 1
    &&& s.subscribers@.subrange(0, s0.subscribers@.len() as int) =~= s0.subscribers@
    &&& ((s.subscribers@.last().id as int) == s0.subscribers@.len())
    &&& s.subscribers@.last().email@ == email
    &&& s.subscribers@.last().name@ == name
    &&& s.subscribers@.last().subscribed_at == s0.clock
    &&& s.subscribers@.last().status == SubscriberStatus::PendingConfirmation
    &&& s.tokens@.len() == s0.tokens@.len() + 1
    &&& s.tokens@.subrange(0, s0.tokens@.len() as int) =~= s0.tokens@
    &&& s.tokens@.last().token@ == token
    &&& ((s.tokens@.last().subscriber_id as int) == s0.subscribers@.len())
}

/// What a finished subscribe request guarantees: which outcome comes on
/// which inputs and store condition, and what was persisted and dispatched
/// in each case.  Commit comes before send, so a failed dispatch leaves the
/// committed pair in place.
pub open spec fn spec_subscribe_outcome(
    s0: SubscriptionStore,
    s: SubscriptionStore,
    m0: EmailClient,
    m: EmailClient,
    base_url: Seq<char>,
    name: Seq<char>,
    email: Seq<char>,
    r: Result<(), SubscribeError>,
) -> bool {
    let valid = spec_name_valid(name) && email_is_valid(email);
    &&& (r matches Err(SubscribeError::ValidationError(msg)) ==> !valid && (if !spec_name_valid(
        name,
    ) {
        msg@ == name + " is not a valid name"@
    } else {
        msg@ == email + " is not a valid email"@
    }) && s.committed_unchanged(&s0) && m.sent@ =~= m0.sent@)
    &&& (!valid ==> r matches Err(SubscribeError::ValidationError(_)))
    &&& ((r matches Err(SubscribeError::PoolError)) <==> (valid && s0.fail_begin))
    &&& (r matches Err(SubscribeError::PoolError) ==> s.committed_unchanged(&s0) && m.sent@
        =~= m0.sent@)
    &&& ((r matches Err(SubscribeError::InsertSubscriberError)) <==> (valid && !s0.fail_begin
        && s0.fail_insert_subscriber))
    &&& (r matches Err(SubscribeError::InsertSubscriberError) ==> s.committed_unchanged(&s0)
        && m.sent@ =~= m0.sent@)
    &&& (r matches Err(SubscribeError::StoreTokenError(_)) ==> valid && !s0.fail_begin
        && !s0.fail_insert_subscriber && (s0.fail_store_token || s0.tokens@.len() > 0)
        && s.committed_unchanged(&s0) && m.sent@ =~= m0.sent@)
    &&& ((valid && !s0.fail_begin && !s0.fail_insert_subscriber && s0.fail_store_token)
        ==> r matches Err(SubscribeError::StoreTokenError(_)))
    &&& (r matches Err(SubscribeError::TransactionCommitError) ==> valid && !s0.fail_begin
        && !s0.fail_insert_subscriber && !s0.fail_store_token && s0.fail_commit
        && s.committed_unchanged(&s0) && m.sent@ =~= m0.sent@)
    &&& ((valid && !s0.fail_begin && !s0.fail_insert_subscriber && !s0.fail_store_token
        && s0.fail_commit && s0.tokens@.len() == 0) ==> r matches Err(
        SubscribeError::TransactionCommitError,
    ))
    &&& (r matches Err(SubscribeError::SendEmailError) ==> valid && !s0.fail_begin
        && !s0.fail_insert_subscriber && !s0.fail_store_token && !s0.fail_commit
        && m0.fail_sending && m.sent@ =~= m0.sent@ && (exists|t: Seq<char>|
        spec_token_wf(t) && #[trigger] spec_committed_pair(s0, s, name, email, t)))
    &&& ((valid && !s0.fail_begin && !s0.fail_insert_subscriber && !s0.fail_store_token
        && !s0.fail_commit && m0.fail_sending && s0.tokens@.len() == 0) ==> r matches Err(
        SubscribeError::SendEmailError,
    ))
    &&& (r is Ok ==> valid && !s0.fail_begin && !s0.fail_insert_subscriber
        && !s0.fail_store_token && !s0.fail_commit && !m0.fail_sending && (exists|t: Seq<char>|
        spec_token_wf(t) && #[trigger] spec_committed_pair(s0, s, name, email, t)
            && spec_email_dispatched(m0.sent@, m.sent@, email, base_url, t)))
    &&& ((valid && !s0.fail_begin && !s0.fail_insert_subscriber && !s0.fail_store_token
        && !s0.fail_commit && !m0.fail_sending && s0.tokens@.len() == 0) ==> r is Ok)
}

/// For every name and email that pass validation, a subscribe request
/// against a healthy store that has issued no token yet succeeds; it
/// creates exactly one subscriber row, pending, exactly one token row that
/// references it, and dispatches one confirmation email carrying the same
/// token.
pub proof fn lemma_subscribe_creates_pending_subscriber(
    s0: SubscriptionStore,
    s: SubscriptionStore,
    m0: EmailClient,
    m: EmailClient,
    base_url: Seq<char>,
    name: Seq<char>,
    email: Seq<char>,
    r: Result<(), SubscribeError>,
)
    requires
        spec_subscribe_outcome(s0, s, m0, m, base_url, name, email, r),
        spec_name_valid(name),
        email_is_valid(email),
        !s0.fail_begin,
        !s0.fail_insert_subscriber,
        !s0.fail_store_token,
        !s0.fail_commit,
        !m0.fail_sending,
        s0.tokens@.len() == 0,
    ensures
        r is Ok,
        exists|t: Seq<char>|
            spec_token_wf(t) && #[trigger] spec_committed_pair(s0, s, name, email, t)
                && spec_email_dispatched(m0.sent@, m.sent@, email, base_url, t),
{
}

/// A request whose name or email fails validation is rejected with a
/// validation error and persists no row and dispatches no email.
pub proof fn lemma_subscribe_rejects_invalid_input(
    s0: SubscriptionStore,
    s: SubscriptionStore,
    m0: EmailClient,
    m: EmailClient,
    base_url: Seq<char>,
    name: Seq<char>,
    email: Seq<char>,
    r: Result<(), SubscribeError>,
)
    requires
        spec_subscribe_outcome(s0, s, m0, m, base_url, name, email, r),
        !(spec_name_valid(name) && email_is_valid(email)),
    ensures
        r matches Err(SubscribeError::ValidationError(_)),
        s.committed_unchanged(&s0),
        m.sent@ =~= m0.sent@,
{
}

/// A store that cannot write the token row fails the request with the
/// token-store error and, the transaction being rolled back, leaves no
/// subscriber row behind.
pub proof fn lemma_subscribe_rolls_back_on_token_fault(
    s0: SubscriptionStore,
    s: SubscriptionStore,
    m0: EmailClient,
    m: EmailClient,
    base_url: Seq<char>,
    name: Seq<char>,
    email: Seq<char>,
    r: Result<(), SubscribeError>,
)
    requires
        spec_subscribe_outcome(s0, s, m0, m, base_url, name, email, r),
        spec_name_valid(name),
        email_is_valid(email),
        !s0.fail_begin,
        !s0.fail_insert_subscriber,
        s0.fail_store_token,
    ensures
        r matches Err(SubscribeError::StoreTokenError(_)),
        s.committed_unchanged(&s0),
        m.sent@ =~= m0.sent@,
{
}

/// Ties each protocol state to what must already hold of the store and the
/// dispatcher while a subscribe request is in flight.
pub open spec fn spec_subscribe_inv(
    step: SubscribeStep,
    s0: SubscriptionStore,
    s: SubscriptionStore,
    m0: EmailClient,
    m: EmailClient,
    base_url: Seq<char>,
    name: Seq<char>,
    email: Seq<char>,
) -> bool {
    let valid = spec_name_valid(name) && email_is_valid(email);
    match step {
        SubscribeStep::Validate { form, base_url: b } => {
            &&& s == s0
            &&& m == m0
            &&& form.name@ == name
            &&& form.email@ == email
            &&& b@ == base_url
        },
        SubscribeStep::Begin { subscriber, base_url: b } => {
            &&& s == s0
            &&& m == m0
            &&& subscriber.name@ == name
            &&& subscriber.email@ == email
            &&& b@ == base_url
            &&& valid
        },
        SubscribeStep::InsertSubscriber { subscriber, base_url: b } => {
            &&& s.committed_unchanged(&s0)
            &&& s.config_unchanged(&s0)
            &&& s.tx_open
            &&& s.staged_subscribers@.len() == 0
            &&& s.staged_tokens@.len() == 0
            &&& m == m0
            &&& subscriber.name@ == name
            &&& subscriber.email@ == email
            &&& b@ == base_url
            &&& valid
            &&& !s0.fail_begin
        },
        SubscribeStep::StoreToken { subscriber, base_url: b, subscriber_id, token } => {
            &&& s.committed_unchanged(&s0)
            &&& s.config_unchanged(&s0)
            &&& s.tx_open
            &&& s.staged_subscribers@.len() == 1
            &&& ((s.staged_subscribers@[0].id as int) == s0.subscribers@.len())
            &&& s.staged_subscribers@[0].email@ == email
            &&& s.staged_subscribers@[0].name@ == name
            &&& s.staged_subscribers@[0].subscribed_at == s0.clock
            &&& s.staged_subscribers@[0].status == SubscriberStatus::PendingConfirmation
            &&& s.staged_tokens@.len() == 0
            &&& ((subscriber_id as int) == s0.subscribers@.len())
            &&& spec_token_wf(token@)
            &&& subscriber.email@ == email
            &&& b@ == base_url
            &&& m == m0
            &&& valid
            &&& !s0.fail_begin
            &&& !s0.fail_insert_subscriber
        },
        SubscribeStep::Commit { subscriber, base_url: b, token } => {
            &&& s.committed_unchanged(&s0)
            &&& s.config_unchanged(&s0)
            &&& s.tx_open
            &&& spec_pending_pair_staged(s0, s, name, email, token@)
            &&& spec_token_wf(token@)
            &&& subscriber.email@ == email
            &&& b@ == base_url
            &&& m == m0
            &&& valid
            &&& !s0.fail_begin
            &&& !s0.fail_insert_subscriber
            &&& !s0.fail_store_token
        },
        SubscribeStep::SendEmail { subscriber, base_url: b, token } => {
            &&& s.config_unchanged(&s0)
            &&& !s.tx_open
            &&& s.staged_subscribers@.len() == 0
            &&& s.staged_tokens@.len() == 0
            &&& spec_committed_pair(s0, s, name, email, token@)
            &&& spec_token_wf(token@)
            &&& subscriber.email@ == email
            &&& b@ == base_url
            &&& m == m0
            &&& valid
            &&& !s0.fail_begin
            &&& !s0.fail_insert_subscriber
            &&& !s0.fail_store_token
            &&& !s0.fail_commit
        },
        SubscribeStep::Finished { outcome } => {
            &&& s.config_unchanged(&s0)
            &&& ((outcome is Ok || outcome matches Err(SubscribeError::SendEmailError))
                ==> !s.tx_open)
            &&& spec_subscribe_outcome(s0, s, m0, m, base_url, name, email, outcome)
        },
    }
}

/// The subscribe operation, run against the store and the dispatcher: it
/// validates, persists the pending subscriber with a fresh token under one
/// transaction, commits, and only then dispatches the confirmation email.
#[verifier::loop_isolation(false)]
pub fn subscribe(
    form: FormData,
    connection_pool: &mut SubscriptionStore,
    email_client: &mut EmailClient,
    base_url: &ApplicationBaseUrl,
) -> (r: Result<(), SubscribeError>)
    requires
        old(connection_pool).wf(),
        !old(connection_pool).tx_open,
    ensures
        final(connection_pool).wf(),
        !final(connection_pool).tx_open,
        final(connection_pool).config_unchanged(old(connection_pool)),
        final(email_client).sender == old(email_client).sender,
        final(email_client).fail_sending == old(email_client).fail_sending,
        spec_subscribe_outcome(
            *old(connection_pool),
            *final(connection_pool),
            *old(email_client),
            *final(email_client),
            base_url.0@,
            form.name@,
            form.email@,
            r,
        ),
{
    let ghost s0 = *connection_pool;
    let ghost m0 = *email_client;
    let ghost name0 = form.name@;
    let ghost email0 = form.email@;
    let ghost burl0 = base_url.0@;
    let mut step = SubscribeStep::Validate { form, base_url: base_url.0.clone() };
    loop
        invariant
            connection_pool.wf(),
            email_client.sender == m0.sender,
            email_client.fail_sending == m0.fail_sending,
            spec_subscribe_inv(
                step,
                s0,
                *connection_pool,
                m0,
                *email_client,
                burl0,
                name0,
                email0,
            ),
        decreases spec_step_rank(&step),
    {
        step = match step {
            SubscribeStep::Validate { form, base_url } => {
                subscribe_next(
                    SubscribeStep::Validate { form, base_url },
                    SubscribeEvent::Start,
                )
            },
            SubscribeStep::Begin { subscriber, base_url } => {
                let ok = match connection_pool.begin() {
                    Ok(_) => true,
                    Err(_) => false,
                };
                subscribe_next(
                    SubscribeStep::Begin { subscriber, base_url },
                    SubscribeEvent::BeginDone { ok },
                )
            },
            SubscribeStep::InsertSubscriber { subscriber, base_url } => {
                let inserted_id = match save_subscriber(&subscriber, connection_pool) {
                    Ok(id) => Some(id),
                    Err(_) => None,
                };
                subscribe_next(
                    SubscribeStep::InsertSubscriber { subscriber, base_url },
                    SubscribeEvent::InsertDone { inserted_id },
                )
            },
            SubscribeStep::StoreToken { subscriber, base_url, subscriber_id, token } => {
                let ok = match save_token(subscriber_id, token.as_str(), connection_pool) {
                    Ok(_) => true,
                    Err(_) => false,
                };
                subscribe_next(
                    SubscribeStep::StoreToken { subscriber, base_url, subscriber_id, token },
                    SubscribeEvent::TokenDone { ok },
                )
            },
            SubscribeStep::Commit { subscriber, base_url, token } => {
                let ok = match connection_pool.commit() {
                    Ok(_) => true,
                    Err(_) => false,
                };
                proof {
                    if ok {
                        assert(connection_pool.subscribers@.last()
                            == connection_pool.subscribers@[s0.subscribers@.len() as int]);
                        assert(connection_pool.tokens@.last()
                            == connection_pool.tokens@[s0.tokens@.len() as int]);
                    }
                }
                subscribe_next(
                    SubscribeStep::Commit { subscriber, base_url, token },
                    SubscribeEvent::CommitDone { ok },
                )
            },
            SubscribeStep::SendEmail { subscriber, base_url, token } => {
                let ok = match send_confirmation_email(
                    email_client,
                    &subscriber,
                    base_url.as_str(),
                    token.as_str(),
                ) {
                    Ok(_) => true,
                    Err(_) => false,
                };
                proof {
                    assert(spec_committed_pair(s0, *connection_pool, name0, email0, token@));
                }
                subscribe_next(
                    SubscribeStep::SendEmail { subscriber, base_url, token },
                    SubscribeEvent::EmailDone { ok },
                )
            },
            SubscribeStep::Finished { outcome } => {
                if connection_pool.tx_open {
                    connection_pool.rollback();
                }
                return outcome;
            },
        };
    }
}

} // verus!
