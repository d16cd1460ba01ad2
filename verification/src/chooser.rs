//! The file chooser's request, its result, and the one-shot hand-over of that
//! result to whoever launched the chooser.
use vstd::prelude::*;
use vstd::string::*;
use tokio::sync::oneshot::Sender;
use crate::handover::{send_result, Delivery};

verus! {

#[verifier::external_type_specification]
#[verifier::external_body]
#[verifier::reject_recursive_types(T)]
pub struct ExOneshotSender<T>(tokio::sync::oneshot::Sender<T>);

/// What the chooser was asked for.
#[derive(Debug, Clone)]
pub struct ChooserRequest {
    pub title: String,
    pub multiple: bool,
    pub directory: bool,
}

/// The plain value of a request.
pub struct RequestModel {
    pub title: Seq<char>,
    pub multiple: bool,
    pub directory: bool,
}

impl ChooserRequest {
    pub open spec fn model(&self) -> RequestModel {
        RequestModel { title: self.title@, multiple: self.multiple, directory: self.directory }
    }

}

impl Default for ChooserRequest {
    /// An untitled request for a single file.
    fn default() -> (r: ChooserRequest)
        ensures
            r.title@ == Seq::<char>::empty(),
            !r.multiple,
            !r.directory,
    {
        ChooserRequest { title: String::new(), directory: false, multiple: false }
    }
}

/// How a chooser session ended.
#[derive(Debug, Clone)]
pub enum ChooserResult {
    Cancelled,
    Selected(String),
    SelectedMany(Vec<String>),
}

impl ChooserResult {
    /// The chosen paths, in order (none when cancelled).
    pub open spec fn paths(&self) -> Seq<Seq<char>> {
        match self {
            ChooserResult::Cancelled => Seq::empty(),
            ChooserResult::Selected(p) => seq![p@],
            ChooserResult::SelectedMany(ps) => ps@.map_values(|p: String| p@),
        }
    }
}

/// A chooser request together with the channel that takes its result.
#[derive(Debug)]
pub struct ChooserLaunch {
    pub request: ChooserRequest,
    pub tx: Sender<ChooserResult>,
}

/// The running chooser: its request, and the sender until a result has been
/// handed over.
pub struct ChooserState {
    pub _request: ChooserRequest,
    tx: Option<Sender<ChooserResult>>,
    /// The proof of the hand-over to the channel, once there is one.
    handed: Option<Delivery>,
}

impl ChooserState {
    /// The sender is kept exactly until a result has been handed over.
    pub closed spec fn wf(&self) -> bool {
        self.tx.is_some() <==> self.handed.is_none()
    }

    /// Whether the chooser is still waiting for its result.
    pub closed spec fn pending(&self) -> bool {
        self.tx.is_some()
    }

    /// The request the chooser runs for.
    pub closed spec fn request(&self) -> ChooserRequest {
        self._request
    }

    /// The result handed to the channel, if any.
    pub closed spec fn delivered(&self) -> Option<ChooserResult> {
        match self.handed {
            Some(d) => Some(d.value()),
            None => None,
        }
    }

    pub fn new(_request: ChooserRequest, tx: Sender<ChooserResult>) -> (s: Self)
        ensures
            s.wf(),
            s.pending(),
            s.delivered().is_none(),
            s.request() == _request,
    {
        ChooserState { _request, tx: Some(tx), handed: None }
    }

    /// Whether the chooser is still waiting for its result.
    pub fn is_pending(&self) -> (b: bool)
        ensures
            b == self.pending(),
    {
        self.tx.is_some()
    }

    /// Hands `result` over if no result has been handed over yet; does
    /// nothing otherwise.
    pub fn submit(&mut self, result: ChooserResult)
        requires
            old(self).wf(),
        ensures
            final(self).wf(),
            !final(self).pending(),
            final(self).request() == old(self).request(),
            old(self).pending() ==> final(self).delivered() == Some(result),
            !old(self).pending() ==> final(self).delivered() == old(self).delivered(),
    {
        if let Some(tx) = self.tx.take() {
            let (_, delivery) = send_result(tx, result);
            self.handed = Some(delivery);
        }
    }

    /// Hands over `Cancelled`, if nothing has been handed over yet.
    pub fn cancel(&mut self)
        requires
            old(self).wf(),
        ensures
            final(self).wf(),
            !final(self).pending(),
            final(self).request() == old(self).request(),
            old(self).pending() ==> final(self).delivered() == Some(ChooserResult::Cancelled),
            !old(self).pending() ==> final(self).delivered() == old(self).delivered(),
    {
        self.submit(ChooserResult::Cancelled);
    }
}

/// The error text when the chooser's channel closed before a result came:
/// the receiving end's error text after a fixed lead.
pub fn channel_closed_message(err: &str) -> (s: String)
    ensures
        s@ == "chooser channel closed before result: "@ + err@,
{
    crate::text::join2("chooser channel closed before result: ", err)
}

} // verus!
