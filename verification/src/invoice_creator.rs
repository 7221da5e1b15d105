//! Wallet backends: whatever can produce an invoice for an amount.

use vstd::prelude::*;

pub mod nwc;

pub use self::nwc::NwcInvoiceCreator;

verus! {

/// A wallet that can be asked for an invoice. The call may fail; the error
/// is the backend's own message.
///
/// The broker never asks for an invoice of amount zero.
pub trait InvoiceCreator: Send + Sync {
    fn create_invoice(&self, amount_msat: u64, description_hash: &str) -> (r: Result<
        String,
        String,
    >)
        requires
            amount_msat > 0,
    ;
}

} // verus!
