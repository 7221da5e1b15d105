//! The wallet-connect kind of backend: a wallet reached through a
//! `nostr+walletconnect` connection descriptor.

use crate::config::ConfigError;
use vstd::prelude::*;
use vstd::string::*;

verus! {

/// What the wallet-connect parser says of a connection descriptor: that it
/// accepts it, or the message of its error.
pub uninterp spec fn nwc_uri_check(uri: Seq<char>) -> Result<(), Seq<char>>;

/// Calls `NostrWalletConnectUri::parse` of the `nwc` crate and keeps whether
/// it accepted the text, or the message of its error. Not proved: that this
/// is what `nwc_uri_check` names for the text, that is, that it depends on
/// the text alone.
#[verifier::external_body]
fn check_uri(uri: &str) -> (r: Result<(), String>)
    ensures
        match r {
            Ok(_) => nwc_uri_check(uri@) == Ok::<(), Seq<char>>(()),
            Err(reason) => nwc_uri_check(uri@) == Err::<(), Seq<char>>(reason@),
        },
{
    match ::nwc::prelude::NostrWalletConnectUri::parse(uri) {
        Ok(_) => Ok(()),
        Err(e) => Err(e.to_string()),
    }
}

/// A wallet-connect backend: a connection descriptor that the parser has
/// accepted. The host opens the connection from it.
pub struct NwcInvoiceCreator {
    uri: String,
}

impl View for NwcInvoiceCreator {
    type V = Seq<char>;

    closed spec fn view(&self) -> Seq<char> {
        self.uri@
    }
}

impl NwcInvoiceCreator {
    /// The backend for a connection descriptor, if the parser accepts it;
    /// otherwise the parser's message.
    pub fn new(nwc_str: &str) -> (r: Result<Self, ConfigError>)
        ensures
            match r {
                Ok(creator) => creator@ == nwc_str@ && nwc_uri_check(nwc_str@) is Ok,
                Err(e) => e matches ConfigError::InvalidUri { reason } && nwc_uri_check(nwc_str@)
                    == Err::<(), Seq<char>>(reason@),
            },
    {
        match check_uri(nwc_str) {
            Ok(_) => Ok(NwcInvoiceCreator { uri: nwc_str.to_string() }),
            Err(reason) => Err(ConfigError::InvalidUri { reason }),
        }
    }

    /// The connection descriptor.
    pub fn uri(&self) -> (s: &str)
        ensures
            s@ == self@,
    {
        self.uri.as_str()
    }
}

} // verus!
