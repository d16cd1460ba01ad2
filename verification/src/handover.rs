//! Handing a chooser result to its channel, and the proof that it was handed.
use vstd::prelude::*;
use tokio::sync::oneshot::Sender;
use crate::chooser::ChooserResult;

verus! {

/// Proof that a result was handed to a chooser's channel. Only `send_result`
/// makes one.
pub struct Delivery {
    handed: Ghost<ChooserResult>,
}

impl Delivery {
    /// The result that was handed over.
    pub closed spec fn value(&self) -> ChooserResult {
        self.handed@
    }
}

/// `oneshot::Sender::send`: hands `result` to the receiver, and gives back,
/// besides the call's own result, the proof of that hand-over. When the
/// receiver is gone the value comes back unchanged as the error. Whether the
/// receiver is still there is not known here, so which of the two comes back
/// is left open.
#[verifier::external_body]
pub(crate) fn send_result(tx: Sender<ChooserResult>, result: ChooserResult) -> (res: (Result<(), ChooserResult>, Delivery))
    ensures
        res.1.value() == result,
        res.0 matches Err(back) ==> back == result,
{
    let delivery = Delivery { handed: Ghost(result) };
    (tx.send(result), delivery)
}

} // verus!
