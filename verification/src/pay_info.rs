//! The pay-request document of a user: where to ask for an invoice, how much
//! may be sent, and the metadata that the invoice will be bound to.

use crate::error::{ServiceError, ServiceErrorView};
use crate::failover::{first_attempt, rejection};
use crate::metadata::{generate_metadata, metadata_text, sha256_hex};
use crate::state::{AppState, AppStateView};
use vstd::prelude::*;
use vstd::string::*;

verus! {

/// The most a payer may send, in millisatoshi: one bitcoin.
pub const MAX_SENDABLE: u64 = 100_000_000_000;

/// The least a payer may send, in millisatoshi: one satoshi.
pub const MIN_SENDABLE: u64 = 1_000;

/// The tag of a pay-request document.
pub const PAY_REQUEST_TAG: &'static str = "payRequest";

/// The pay-request document of a user.
#[derive(Debug)]
pub struct LnUrlPayInfo {
    callback: String,
    max_sendable: u64,
    min_sendable: u64,
    metadata: String,
    tag: &'static str,
}

/// What a [`LnUrlPayInfo`] holds.
pub struct LnUrlPayInfoView {
    pub callback: Seq<char>,
    pub max_sendable: u64,
    pub min_sendable: u64,
    pub metadata: Seq<char>,
    pub tag: Seq<char>,
}

impl View for LnUrlPayInfo {
    type V = LnUrlPayInfoView;

    closed spec fn view(&self) -> LnUrlPayInfoView {
        LnUrlPayInfoView {
            callback: self.callback@,
            max_sendable: self.max_sendable,
            min_sendable: self.min_sendable,
            metadata: self.metadata@,
            tag: self.tag@,
        }
    }
}

impl LnUrlPayInfo {
    /// The URL at which an invoice is asked for.
    pub fn callback(&self) -> (s: &str)
        ensures
            s@ == self@.callback,
    {
        self.callback.as_str()
    }

    /// The most a payer may send, in millisatoshi.
    pub fn max_sendable(&self) -> (n: u64)
        ensures
            n == self@.max_sendable,
    {
        self.max_sendable
    }

    /// The least a payer may send, in millisatoshi.
    pub fn min_sendable(&self) -> (n: u64)
        ensures
            n == self@.min_sendable,
    {
        self.min_sendable
    }

    /// The serialized metadata document.
    pub fn metadata(&self) -> (s: &str)
        ensures
            s@ == self@.metadata,
    {
        self.metadata.as_str()
    }

    /// The tag of the document.
    pub fn tag(&self) -> (s: &'static str)
        ensures
            s@ == self@.tag,
    {
        self.tag
    }
}

/// The URL at which an invoice for a user is asked for.
pub open spec fn callback_url(domain: Seq<char>, username: Seq<char>) -> Seq<char> {
    "https://"@ + domain + "/lnurlp/"@ + username
}

/// The pay-request document of a user name: that of a user with an account,
/// no document for any other name.
pub open spec fn pay_info<B>(state: AppStateView<B>, username: Seq<char>) -> Result<
    LnUrlPayInfoView,
    ServiceErrorView,
> {
    if !state.users.contains_key(username) {
        Err(ServiceErrorView::UserNotFound { username })
    } else {
        match metadata_text(state.domain, username) {
            Ok(metadata) => Ok(
                LnUrlPayInfoView {
                    callback: callback_url(state.domain, username),
                    max_sendable: MAX_SENDABLE,
                    min_sendable: MIN_SENDABLE,
                    metadata,
                    tag: PAY_REQUEST_TAG@,
                },
            ),
            Err(reason) => Err(ServiceErrorView::Serialization { reason }),
        }
    }
}

/// Resolves a user name to its pay-request document.
pub fn resolve_pay_info<B>(state: &AppState<B>, username: &str) -> (r: Result<
    LnUrlPayInfo,
    ServiceError,
>)
    ensures
        match r {
            Ok(info) => pay_info(state@, username@) == Ok::<LnUrlPayInfoView, ServiceErrorView>(
                info@,
            ),
            Err(e) => pay_info(state@, username@) == Err::<LnUrlPayInfoView, ServiceErrorView>(
                e@,
            ),
        },
{
    if state.backends(username).is_none() {
        return Err(ServiceError::UserNotFound { username: username.to_string() });
    }
    let mut callback = "https://".to_string();
    callback.append(state.domain());
    callback.append("/lnurlp/");
    callback.append(username);
    match generate_metadata(state.domain(), username) {
        Ok(metadata) => Ok(
            LnUrlPayInfo {
                callback,
                max_sendable: MAX_SENDABLE,
                min_sendable: MIN_SENDABLE,
                metadata,
                tag: PAY_REQUEST_TAG,
            },
        ),
        Err(reason) => Err(ServiceError::Serialization { reason }),
    }
}

/// Hash consistency: for a user with an account, the hash that an invoice
/// must carry is the SHA-256 digest of the very metadata text that the
/// pay-request document shows, whatever the amount and the order of trial;
/// and where that document cannot be made, the request for an invoice is
/// turned down for the same reason.
pub proof fn lemma_hash_matches_metadata<B>(
    state: AppStateView<B>,
    username: Seq<char>,
    amount: u64,
    order: Seq<usize>,
)
    requires
        state.users.contains_key(username),
        amount > 0,
    ensures
        match pay_info(state, username) {
            Ok(info) => rejection(state, username, amount) is None && first_attempt(
                state.domain,
                username,
                amount,
                order,
            ).description_hash == sha256_hex(info.metadata),
            Err(e) => rejection(state, username, amount) == Some(e),
        },
{
}

} // verus!
