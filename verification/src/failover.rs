//! The invoice broker: bounded failover over the wallets of a user.
//!
//! A request for an invoice is a small state machine. [`FailoverAttempt::begin`]
//! validates the request and fixes the order in which the user's backends are
//! tried; the host then calls the backend that [`FailoverAttempt::backend`]
//! names and hands what came back to [`FailoverAttempt::record`], until an
//! answer is reached. Backends are tried one after the other, never more
//! than [`MAX_ATTEMPTS`] of them; the first invoice is the answer; if every
//! attempt fails the answer carries the last error.
//!
//! [`request_invoice`] runs the machine for backends that answer while the
//! caller waits.

use crate::error::{ServiceError, ServiceErrorView};
use crate::invoice_creator::InvoiceCreator;
use crate::metadata::{generate_metadata, metadata_text, sha256_hex, sha256_hex_digest};
use crate::order::{is_permutation, shuffled_indices};
use crate::state::{AppState, AppStateView};
use vstd::prelude::*;
use vstd::string::*;

verus! {

/// The most backends that are tried for one request.
pub const MAX_ATTEMPTS: usize = 3;

/// What a backend answered: an invoice, or the message of its error.
pub type Outcome = Result<Seq<char>, Seq<char>>;

/// How a request ended: with an invoice, or with the reason why there is
/// none.
pub type Answer = Result<Seq<char>, ServiceErrorView>;

/// What a backend answered, as the mathematical value.
pub open spec fn outcome_view(outcome: Result<String, String>) -> Outcome {
    match outcome {
        Ok(invoice) => Ok(invoice@),
        Err(reason) => Err(reason@),
    }
}

/// How a request ended, as the mathematical value.
pub open spec fn answer_view(answer: Result<String, ServiceError>) -> Answer {
    match answer {
        Ok(invoice) => Ok(invoice@),
        Err(e) => Err(e@),
    }
}

/// A request for an invoice that has been accepted and waits for a backend's
/// answer.
#[derive(Debug)]
pub struct FailoverAttempt {
    order: Vec<usize>,
    attempt: usize,
    last_err: Option<String>,
    amount: u64,
    description_hash: String,
}

/// What a [`FailoverAttempt`] holds.
pub struct FailoverView {
    /// The positions of the user's backends, in the order of trial.
    pub order: Seq<usize>,
    /// How many backends have failed so far.
    pub attempt: nat,
    /// The message of the last failure, if there was one.
    pub last_err: Option<Seq<char>>,
    /// The amount asked for.
    pub amount: u64,
    /// The hash that the invoice must carry.
    pub description_hash: Seq<char>,
}

/// How far a request for an invoice has come.
#[derive(Debug)]
pub enum Progress {
    /// A backend is to be called.
    Pending(FailoverAttempt),
    /// The request is answered.
    Finished(Result<String, ServiceError>),
}

/// What a [`Progress`] holds.
pub enum ProgressView {
    Pending(FailoverView),
    Finished(Answer),
}

impl FailoverView {
    /// How many backends may be tried: all of them, but no more than
    /// [`MAX_ATTEMPTS`].
    pub open spec fn limit(self) -> nat {
        if self.order.len() < MAX_ATTEMPTS {
            self.order.len()
        } else {
            MAX_ATTEMPTS as nat
        }
    }

    /// The order is a permutation of the backends' positions, a backend is
    /// left to try, and the amount is positive.
    pub open spec fn wf(self) -> bool {
        &&& is_permutation(self.order, self.order.len())
        &&& self.attempt < self.limit()
        &&& self.amount > 0
    }

    /// The position of the backend to call.
    pub open spec fn backend(self) -> usize {
        self.order[self.attempt as int]
    }

    /// The step after the called backend answered `outcome`: an invoice is
    /// the answer; after a failure the next backend is tried, and when none
    /// may be tried any more, the answer is that all backends failed, with
    /// the message of this last failure.
    pub open spec fn record(self, outcome: Outcome) -> ProgressView {
        match outcome {
            Ok(invoice) => ProgressView::Finished(Ok(invoice)),
            Err(reason) => if self.attempt + 1 < self.limit() {
                ProgressView::Pending(
                    FailoverView {
                        attempt: self.attempt + 1,
                        last_err: Some(reason),
                        ..self
                    },
                )
            } else {
                ProgressView::Finished(
                    Err(ServiceErrorView::AllBackendsFailed { last_error: reason }),
                )
            },
        }
    }
}

impl View for FailoverAttempt {
    type V = FailoverView;

    closed spec fn view(&self) -> FailoverView {
        FailoverView {
            order: self.order@,
            attempt: self.attempt as nat,
            last_err: match self.last_err {
                Some(reason) => Some(reason@),
                None => None,
            },
            amount: self.amount,
            description_hash: self.description_hash@,
        }
    }
}

impl View for Progress {
    type V = ProgressView;

    open spec fn view(&self) -> ProgressView {
        match self {
            Progress::Pending(attempt) => ProgressView::Pending(attempt@),
            Progress::Finished(answer) => ProgressView::Finished(answer_view(*answer)),
        }
    }
}

/// The failure with which a request is turned down before any backend is
/// called, if it is: for an amount of zero, else for a name without account,
/// else where the metadata cannot be serialized.
pub open spec fn rejection<B>(state: AppStateView<B>, username: Seq<char>, amount: u64) -> Option<
    ServiceErrorView,
> {
    if amount == 0 {
        Some(ServiceErrorView::InvalidAmount)
    } else if !state.users.contains_key(username) {
        Some(ServiceErrorView::UserNotFound { username })
    } else {
        match metadata_text(state.domain, username) {
            Ok(_) => None,
            Err(reason) => Some(ServiceErrorView::Serialization { reason }),
        }
    }
}

/// The first attempt of an accepted request whose backends are tried in the
/// order `order`: the hash is that of the user's serialized metadata.
pub open spec fn first_attempt(
    domain: Seq<char>,
    username: Seq<char>,
    amount: u64,
    order: Seq<usize>,
) -> FailoverView {
    FailoverView {
        order,
        attempt: 0,
        last_err: None,
        amount,
        description_hash: sha256_hex(metadata_text(domain, username)->Ok_0),
    }
}

impl FailoverAttempt {
    #[verifier::type_invariant]
    spec fn inv(self) -> bool {
        self@.wf()
    }

    /// Validates a request and, if it stands, fixes a random order in which
    /// the user's backends are tried. No backend is called for a request
    /// that is turned down.
    pub fn begin<B>(state: &AppState<B>, username: &str, amount: u64) -> (p: Progress)
        requires
            state.wf(),
        ensures
            match rejection(state@, username@, amount) {
                Some(err) => p@ == ProgressView::Finished(Err(err)),
                None => p@ matches ProgressView::Pending(first) && first.wf() && is_permutation(
                    first.order,
                    state@.users[username@].len(),
                ) && first == first_attempt(state@.domain, username@, amount, first.order),
            },
    {
        if amount == 0 {
            return Progress::Finished(Err(ServiceError::InvalidAmount));
        }
        let count = match state.backends(username) {
            Some(backends) => backends.len(),
            None => {
                return Progress::Finished(
                    Err(ServiceError::UserNotFound { username: username.to_string() }),
                );
            },
        };
        let order = shuffled_indices(count);
        FailoverAttempt::start(state.domain(), username, amount, order)
    }

    /// Begins a request that has been validated, with the order of trial
    /// given. Fails only where the metadata cannot be serialized.
    pub fn start(domain: &str, username: &str, amount: u64, order: Vec<usize>) -> (p: Progress)
        requires
            amount > 0,
            order@.len() > 0,
            is_permutation(order@, order@.len()),
        ensures
            match metadata_text(domain@, username@) {
                Ok(_) => p@ == ProgressView::Pending(
                    first_attempt(domain@, username@, amount, order@),
                ),
                Err(reason) => p@ == ProgressView::Finished(
                    Err(ServiceErrorView::Serialization { reason }),
                ),
            },
    {
        match generate_metadata(domain, username) {
            Ok(metadata) => {
                let description_hash = sha256_hex_digest(metadata.as_str());
                Progress::Pending(
                    FailoverAttempt { order, attempt: 0, last_err: None, amount, description_hash },
                )
            },
            Err(reason) => Progress::Finished(Err(ServiceError::Serialization { reason })),
        }
    }

    /// The position, among the user's backends, of the one to call now.
    pub fn backend(&self) -> (i: usize)
        ensures
            self@.wf(),
            i == self@.backend(),
            i < self@.order.len(),
    {
        proof {
            use_type_invariant(self);
        }
        self.order[self.attempt]
    }

    /// How many backends have failed so far.
    pub fn attempt(&self) -> (n: usize)
        ensures
            self@.wf(),
            n == self@.attempt,
            n < MAX_ATTEMPTS,
    {
        proof {
            use_type_invariant(self);
        }
        self.attempt
    }

    /// The amount to ask the backend for: never zero.
    pub fn amount(&self) -> (amount: u64)
        ensures
            amount == self@.amount,
            amount > 0,
    {
        proof {
            use_type_invariant(self);
        }
        self.amount
    }

    /// The hash that the invoice must carry.
    pub fn description_hash(&self) -> (s: &str)
        ensures
            s@ == self@.description_hash,
    {
        self.description_hash.as_str()
    }

    /// The message of the last failure, if a backend has failed.
    pub fn last_error(&self) -> (r: Option<&str>)
        ensures
            match r {
                Some(reason) => self@.last_err == Some(reason@),
                None => self@.last_err is None,
            },
    {
        match &self.last_err {
            Some(reason) => Some(reason.as_str()),
            None => None,
        }
    }

    /// Takes the answer of the backend that was called and says how the
    /// request goes on.
    pub fn record(self, outcome: Result<String, String>) -> (p: Progress)
        ensures
            self@.wf(),
            p@ == self@.record(outcome_view(outcome)),
            p@ matches ProgressView::Pending(next) ==> next.wf(),
    {
        proof {
            use_type_invariant(&self);
        }
        match outcome {
            Ok(invoice) => Progress::Finished(Ok(invoice)),
            Err(reason) => {
                let limit = if self.order.len() < MAX_ATTEMPTS {
                    self.order.len()
                } else {
                    MAX_ATTEMPTS
                };
                if self.attempt + 1 < limit {
                    Progress::Pending(
                        FailoverAttempt {
                            order: self.order,
                            attempt: self.attempt + 1,
                            last_err: Some(reason),
                            amount: self.amount,
                            description_hash: self.description_hash,
                        },
                    )
                } else {
                    Progress::Finished(Err(ServiceError::AllBackendsFailed { last_error: reason }))
                }
            },
        }
    }
}

/// Asks the backends of a user for an invoice, one after the other, for
/// backends that answer while the caller waits.
///
/// Turns the request down, without calling any backend, for an amount of
/// zero and for a name without account. Otherwise tries the user's backends
/// in a random order, at most [`MAX_ATTEMPTS`] of them, and answers with the
/// first invoice; if each of them fails, the answer is that all backends
/// failed, with the message of the last one tried.
pub fn request_invoice<C: InvoiceCreator>(state: &AppState<C>, username: &str, amount: u64) -> (r:
    Result<String, ServiceError>)
    requires
        state.wf(),
    ensures
        match rejection(state@, username@, amount) {
            Some(err) => r matches Err(e) && e@ == err,
            None => r matches Err(e) ==> e@ is AllBackendsFailed,
        },
{
    let mut attempt = match FailoverAttempt::begin(state, username, amount) {
        Progress::Pending(first) => first,
        Progress::Finished(r) => {
            return r;
        },
    };
    let backends = state.backends(username).unwrap();
    loop
        invariant
            rejection(state@, username@, amount) is None,
            attempt@.wf(),
            attempt@.order.len() == backends@.len(),
        decreases MAX_ATTEMPTS - attempt@.attempt,
    {
        let outcome = backends[attempt.backend()].create_invoice(
            attempt.amount(),
            attempt.description_hash(),
        );
        match attempt.record(outcome) {
            Progress::Pending(next) => {
                attempt = next;
            },
            Progress::Finished(r) => {
                return r;
            },
        }
    }
}

/// The backends that are called, in order, from the state `attempt` on when
/// the calls are answered by `outcomes`, one after the other: calling stops
/// with the answer, or where the outcomes end.
pub open spec fn calls(attempt: FailoverView, outcomes: Seq<Outcome>) -> Seq<usize>
    decreases outcomes.len(),
{
    if outcomes.len() == 0 {
        Seq::empty()
    } else {
        match attempt.record(outcomes[0]) {
            ProgressView::Pending(next) => seq![attempt.backend()] + calls(
                next,
                outcomes.drop_first(),
            ),
            ProgressView::Finished(_) => seq![attempt.backend()],
        }
    }
}

/// The answer that is reached from the state `attempt` on when the calls are
/// answered by `outcomes`; `None` where the outcomes end before an answer.
pub open spec fn answer(attempt: FailoverView, outcomes: Seq<Outcome>) -> Option<Answer>
    decreases outcomes.len(),
{
    if outcomes.len() == 0 {
        None
    } else {
        match attempt.record(outcomes[0]) {
            ProgressView::Pending(next) => answer(next, outcomes.drop_first()),
            ProgressView::Finished(r) => Some(r),
        }
    }
}

/// The backends are called in the order of trial, beginning with the one
/// that is due, and no more of them than may still be tried.
pub proof fn lemma_calls_follow_order(attempt: FailoverView, outcomes: Seq<Outcome>)
    requires
        attempt.wf(),
    ensures
        calls(attempt, outcomes).len() <= outcomes.len(),
        attempt.attempt + calls(attempt, outcomes).len() <= attempt.limit(),
        calls(attempt, outcomes) == attempt.order.subrange(
            attempt.attempt as int,
            (attempt.attempt + calls(attempt, outcomes).len()) as int,
        ),
    decreases outcomes.len(),
{
    if outcomes.len() > 0 {
        if let ProgressView::Pending(next) = attempt.record(outcomes[0]) {
            lemma_calls_follow_order(next, outcomes.drop_first());
        }
    }
}

/// For one request at most [`MAX_ATTEMPTS`] backends are called, each of
/// them a backend of the user, and none of them twice, whatever the order
/// of trial and whatever the backends answer.
pub proof fn lemma_bounded_distinct_calls(attempt: FailoverView, outcomes: Seq<Outcome>)
    requires
        attempt.wf(),
    ensures
        calls(attempt, outcomes).len() <= MAX_ATTEMPTS,
        calls(attempt, outcomes).no_duplicates(),
        forall|i: int|
            0 <= i < calls(attempt, outcomes).len() ==> calls(attempt, outcomes)[i]
                < attempt.order.len(),
{
    lemma_calls_follow_order(attempt, outcomes);
}

/// First success wins: where the backends fail `i` times and the next one
/// answers with an invoice, that invoice is the answer, and no backend is
/// called after it.
pub proof fn lemma_first_success_wins(attempt: FailoverView, outcomes: Seq<Outcome>, i: int)
    requires
        attempt.wf(),
        0 <= i < outcomes.len(),
        attempt.attempt + i < attempt.limit(),
        outcomes[i] is Ok,
        forall|j: int| 0 <= j < i ==> outcomes[j] is Err,
    ensures
        answer(attempt, outcomes) == Some(Ok::<Seq<char>, ServiceErrorView>(outcomes[i]->Ok_0)),
        calls(attempt, outcomes).len() == i + 1,
    decreases i,
{
    if i > 0 {
        let next = attempt.record(outcomes[0])->Pending_0;
        lemma_first_success_wins(next, outcomes.drop_first(), i - 1);
    }
}

/// Most recent error: where every backend that may be tried fails, the
/// answer is that all backends failed, with the message of the last of
/// them, and no further backend is called.
pub proof fn lemma_all_failed(attempt: FailoverView, outcomes: Seq<Outcome>)
    requires
        attempt.wf(),
        attempt.limit() - attempt.attempt <= outcomes.len(),
        forall|j: int| 0 <= j < attempt.limit() - attempt.attempt ==> outcomes[j] is Err,
    ensures
        answer(attempt, outcomes) == Some(
            Err::<Seq<char>, ServiceErrorView>(
                ServiceErrorView::AllBackendsFailed {
                    last_error: outcomes[attempt.limit() - attempt.attempt - 1]->Err_0,
                },
            ),
        ),
        calls(attempt, outcomes).len() == attempt.limit() - attempt.attempt,
    decreases attempt.limit() - attempt.attempt,
{
    if attempt.attempt + 1 < attempt.limit() {
        let next = attempt.record(outcomes[0])->Pending_0;
        lemma_all_failed(next, outcomes.drop_first());
    }
}

/// A request for an amount of zero is turned down as invalid, whoever it is
/// for; so no backend is called for it.
pub proof fn lemma_zero_amount_rejected<B>(state: AppStateView<B>, username: Seq<char>)
    ensures
        rejection(state, username, 0) == Some(ServiceErrorView::InvalidAmount),
{
}

} // verus!
