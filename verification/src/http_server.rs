//! The HTTP protocol layer: the answers of the two endpoints, with the
//! status code and the error body of each failure. This is the one place
//! where failures become status codes.

use crate::error::{
    bad_request, internal_error, HttpError, HttpErrorView, ServiceError, ServiceErrorView,
    INTERNAL_SERVER_ERROR,
};
use crate::failover::{answer_view, rejection, request_invoice, Answer};
use crate::invoice_creator::InvoiceCreator;
use crate::pay_info::{pay_info, resolve_pay_info, LnUrlPayInfo, LnUrlPayInfoView};
use crate::text::{contains_text, lemma_concat_contains, lemma_contains_transitive, occurs_at};
use vstd::prelude::*;
use vstd::string::*;

pub use crate::state::{AppState, AppStateView};

verus! {

/// The reason given for an amount of zero.
pub open spec fn amount_reason() -> Seq<char> {
    "amount must > 0"@
}

/// The reason given for a name without account.
pub open spec fn not_found_reason(username: Seq<char>) -> Seq<char> {
    "user "@ + username + " not found"@
}

/// The response that reports a failure: a bad request where the request is
/// to blame, with a reason that says why; a failure of the service, with the
/// message of the error, in every other case.
pub open spec fn http_error(e: ServiceErrorView) -> HttpErrorView {
    match e {
        ServiceErrorView::InvalidAmount => bad_request(amount_reason()),
        ServiceErrorView::UserNotFound { username } => bad_request(not_found_reason(username)),
        ServiceErrorView::AllBackendsFailed { last_error } => internal_error(last_error),
        ServiceErrorView::Serialization { reason } => internal_error(reason),
    }
}

/// Puts a failure as an HTTP response.
pub fn error_response(e: ServiceError) -> (response: HttpError)
    ensures
        response@ == http_error(e@),
{
    match e {
        ServiceError::InvalidAmount => HttpError::bad_request("amount must > 0".to_string()),
        ServiceError::UserNotFound { username } => {
            let mut reason = "user ".to_string();
            reason.append(username.as_str());
            reason.append(" not found");
            HttpError::bad_request(reason)
        },
        ServiceError::AllBackendsFailed { last_error } => HttpError::internal_error(last_error),
        ServiceError::Serialization { reason } => HttpError::internal_error(reason),
    }
}

/// The answer to a request for an invoice: the invoice, and no routes.
#[derive(Debug)]
pub struct InvoiceResponse {
    pr: String,
    routes: Vec<String>,
}

/// What an [`InvoiceResponse`] holds.
pub struct InvoiceResponseView {
    pub pr: Seq<char>,
    pub routes: Seq<Seq<char>>,
}

impl View for InvoiceResponse {
    type V = InvoiceResponseView;

    closed spec fn view(&self) -> InvoiceResponseView {
        InvoiceResponseView { pr: self.pr@, routes: self.routes.deep_view() }
    }
}

/// The answer that carries `invoice`.
pub open spec fn invoice_response(invoice: Seq<char>) -> InvoiceResponseView {
    InvoiceResponseView { pr: invoice, routes: Seq::empty() }
}

impl InvoiceResponse {
    /// The answer that carries `invoice`.
    pub fn new(invoice: String) -> (response: Self)
        ensures
            response@ == invoice_response(invoice@),
    {
        let response = InvoiceResponse { pr: invoice, routes: Vec::new() };
        assert(response@.routes =~= Seq::empty());
        response
    }

    /// The invoice.
    pub fn pr(&self) -> (s: &str)
        ensures
            s@ == self@.pr,
    {
        self.pr.as_str()
    }

    /// The routes: always empty.
    pub fn routes(&self) -> (routes: &Vec<String>)
        ensures
            routes.deep_view() == self@.routes,
    {
        &self.routes
    }
}

/// What the invoice endpoint answers where the broker ended with `answer`.
pub open spec fn http_answer(answer: Answer) -> Result<InvoiceResponseView, HttpErrorView> {
    match answer {
        Ok(invoice) => Ok(invoice_response(invoice)),
        Err(e) => Err(http_error(e)),
    }
}

/// Puts the broker's answer as the answer of the invoice endpoint.
pub fn invoice_answer(answer: Result<String, ServiceError>) -> (r: Result<
    InvoiceResponse,
    HttpError,
>)
    ensures
        match r {
            Ok(response) => http_answer(answer_view(answer)) == Ok::<
                InvoiceResponseView,
                HttpErrorView,
            >(response@),
            Err(response) => http_answer(answer_view(answer)) == Err::<
                InvoiceResponseView,
                HttpErrorView,
            >(response@),
        },
{
    match answer {
        Ok(invoice) => Ok(InvoiceResponse::new(invoice)),
        Err(e) => Err(error_response(e)),
    }
}

/// The pay-request endpoint: the document of a user with an account, a bad
/// request for any other name.
pub fn get_lnurlp_info<B>(state: &AppState<B>, username: &str) -> (r: Result<
    LnUrlPayInfo,
    HttpError,
>)
    ensures
        match r {
            Ok(info) => pay_info(state@, username@) == Ok::<LnUrlPayInfoView, ServiceErrorView>(
                info@,
            ),
            Err(response) => pay_info(state@, username@) matches Err(e) && response@ == http_error(
                e,
            ),
        },
{
    match resolve_pay_info(state, username) {
        Ok(info) => Ok(info),
        Err(e) => Err(error_response(e)),
    }
}

/// The invoice endpoint, for backends that answer while the caller waits.
///
/// A request that is turned down before any backend is called gets the
/// response of its failure: a bad request for an amount of zero and for a
/// name without account. Every other request is answered with the first
/// invoice that a backend gives, or, where each backend tried fails, with a
/// failure of the service that carries the last error.
pub fn create_invoice<C: InvoiceCreator>(state: &AppState<C>, username: &str, amount: u64) -> (r:
    Result<InvoiceResponse, HttpError>)
    requires
        state.wf(),
    ensures
        match rejection(state@, username@, amount) {
            Some(e) => r matches Err(response) && response@ == http_error(e),
            None => match r {
                Ok(response) => response@.routes.len() == 0,
                Err(response) => response@.status_code == INTERNAL_SERVER_ERROR
                    && response@.body.status == "ERROR"@,
            },
        },
{
    invoice_answer(request_invoice(state, username, amount))
}

/// The reason given for a name without account holds the name and the words
/// `not found`.
pub proof fn lemma_not_found_reason(username: Seq<char>)
    ensures
        contains_text(not_found_reason(username), username),
        contains_text(not_found_reason(username), "not found"@),
{
    let reason = not_found_reason(username);
    lemma_concat_contains("user "@, username, " not found"@);
    reveal_strlit(" not found");
    reveal_strlit("not found");
    assert(" not found"@.subrange(1, 10) =~= "not found"@);
    assert(occurs_at(" not found"@, "not found"@, 1));
    lemma_concat_contains("user "@ + username, " not found"@, Seq::<char>::empty());
    lemma_contains_transitive(reason, " not found"@, "not found"@);
}

/// For a name without account the pay-request endpoint answers with a bad
/// request whose reason holds the name and the words `not found`.
pub proof fn lemma_pay_info_unknown_user<B>(state: AppStateView<B>, username: Seq<char>)
    requires
        !state.users.contains_key(username),
    ensures
        pay_info(state, username) matches Err(e) && http_error(e) == bad_request(
            not_found_reason(username),
        ),
        bad_request(not_found_reason(username)).status_code == 400,
        contains_text(not_found_reason(username), username),
        contains_text(not_found_reason(username), "not found"@),
{
    lemma_not_found_reason(username);
}

/// For a name without account and an amount above zero the invoice endpoint
/// answers with a bad request whose reason holds the name and the words
/// `not found`, and no backend is called.
pub proof fn lemma_invoice_unknown_user<B>(
    state: AppStateView<B>,
    username: Seq<char>,
    amount: u64,
)
    requires
        !state.users.contains_key(username),
        amount > 0,
    ensures
        rejection(state, username, amount) matches Some(e) && http_error(e) == bad_request(
            not_found_reason(username),
        ),
        bad_request(not_found_reason(username)).status_code == 400,
        contains_text(not_found_reason(username), username),
        contains_text(not_found_reason(username), "not found"@),
{
    lemma_not_found_reason(username);
}

/// For an amount of zero the invoice endpoint answers with a bad request
/// whose reason is `amount must > 0`, whoever the request is for.
pub proof fn lemma_invoice_zero_amount<B>(state: AppStateView<B>, username: Seq<char>)
    ensures
        rejection(state, username, 0) matches Some(e) && http_error(e) == bad_request(
            "amount must > 0"@,
        ),
{
}

} // verus!
