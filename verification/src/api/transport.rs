//! The boundary to whatever carries requests over the network.

use crate::api::endpoint::{Body, Method};
use crate::api::error::TransportError;
use vstd::prelude::*;
use vstd::string::StringExecFns;

verus! {

/// A request as it is handed to a transport.
#[derive(Debug, PartialEq, Eq)]
pub struct WireRequest {
    pub method: Method,
    /// The full URL: base, path and query string.
    pub url: String,
    /// The content type and the bytes of the body, where there is one.
    pub body: Option<Body>,
}

pub struct WireRequestView {
    pub method: Method,
    pub url: Seq<char>,
    pub body: Option<(Seq<char>, Seq<u8>)>,
}

impl View for WireRequest {
    type V = WireRequestView;

    open spec fn view(&self) -> WireRequestView {
        WireRequestView {
            method: self.method,
            url: self.url@,
            body: match self.body {
                Some(b) => Some((b.0@, b.1@)),
                None => None,
            },
        }
    }
}

impl Clone for WireRequest {
    fn clone(&self) -> (copy: WireRequest)
        ensures
            copy@ == self@,
    {
        WireRequest {
            method: self.method,
            url: self.url.clone(),
            body: match &self.body {
                Some(b) => Some((b.0, b.1.clone())),
                None => None,
            },
        }
    }
}

/// An answer as a transport hands it back: the status code and the bytes
/// received, not looked into.
#[derive(Debug, PartialEq, Eq)]
pub struct WireResponse {
    pub status: u16,
    pub body: Vec<u8>,
}

pub struct WireResponseView {
    pub status: u16,
    pub body: Seq<u8>,
}

impl View for WireResponse {
    type V = WireResponseView;

    open spec fn view(&self) -> WireResponseView {
        WireResponseView { status: self.status, body: self.body@ }
    }
}

impl Clone for WireResponse {
    fn clone(&self) -> (copy: WireResponse)
        ensures
            copy@ == self@,
    {
        WireResponse { status: self.status, body: self.body.clone() }
    }
}

/// How an exchange ended: with an answer, or with the transport's failure.
pub type Outcome = Result<WireResponse, TransportError>;

pub open spec fn outcome_view(outcome: Outcome) -> Result<WireResponseView, Seq<char>> {
    match outcome {
        Ok(response) => Ok(response@),
        Err(e) => Err(e@),
    }
}

/// One request sent and how it ended.
pub struct Exchange {
    pub request: WireRequestView,
    pub outcome: Result<WireResponseView, Seq<char>>,
}

/// A transport owns the session and the base URL, and does one thing: it
/// performs a fully assembled request. It decodes nothing.
pub trait Transport {
    /// The base URL that the transport is configured with.
    fn base_url(&self) -> String;

    /// Performs one request.
    fn send(&mut self, request: &WireRequest) -> Outcome;
}

/// A copy of an outcome.
pub fn copy_outcome(outcome: &Outcome) -> (copy: Outcome)
    ensures
        outcome_view(copy) == outcome_view(*outcome),
{
    match outcome {
        Ok(response) => Ok(response.clone()),
        Err(e) => Err(e.clone()),
    }
}

/// A transport that goes nowhere: it answers each request with the next of
/// the outcomes it was made with, and keeps what it was asked. Once the
/// outcomes are used up it answers with a failure.
pub struct ReplayTransport {
    base: String,
    /// The outcomes still to be given, last one first.
    script: Vec<Outcome>,
    /// The exchanges performed, oldest first.
    done: Vec<(WireRequest, Outcome)>,
}

/// The failure that a [`ReplayTransport`] answers with once its outcomes are
/// used up.
pub open spec fn replay_exhausted() -> Seq<char> {
    "no outcome left to replay"@
}

impl ReplayTransport {
    /// The base URL that the transport was made with.
    pub closed spec fn base(&self) -> Seq<char> {
        self.base@
    }

    /// Every exchange that the transport has performed, oldest first.
    pub closed spec fn history(&self) -> Seq<Exchange> {
        Seq::new(
            self.done@.len(),
            |i: int|
                Exchange { request: self.done@[i].0@, outcome: outcome_view(self.done@[i].1) },
        )
    }

    /// The outcomes still to be given, next one first.
    pub closed spec fn remaining(&self) -> Seq<Result<WireResponseView, Seq<char>>> {
        Seq::new(
            self.script@.len(),
            |i: int| outcome_view(self.script@[self.script@.len() - 1 - i]),
        )
    }

    /// A transport with the base URL `base` that gives `outcomes`, in order.
    pub fn new(base: &str, outcomes: Vec<Outcome>) -> (transport: ReplayTransport)
        ensures
            transport.base() == base@,
            transport.history() == Seq::<Exchange>::empty(),
            transport.remaining() == Seq::new(
                outcomes@.len(),
                |i: int| outcome_view(outcomes@[i]),
            ),
    {
        let ghost given = outcomes@;
        let mut outcomes = outcomes;
        let mut script: Vec<Outcome> = Vec::new();
        while outcomes.len() > 0
            invariant
                outcomes@ + script@.reverse() =~= given,
            decreases outcomes.len(),
        {
            let outcome = outcomes.pop().unwrap();
            script.push(outcome);
        }
        ReplayTransport { base: String::from_str(base), script, done: Vec::new() }
    }

    /// The number of requests received.
    pub fn sent(&self) -> (count: usize)
        ensures
            count == self.history().len(),
    {
        self.done.len()
    }

    /// The request received as the `index`-th, counted from 0.
    pub fn request(&self, index: usize) -> (request: Option<&WireRequest>)
        ensures
            match request {
                Some(r) => index < self.history().len() && r@
                    == self.history()[index as int].request,
                None => index >= self.history().len(),
            },
    {
        if index < self.done.len() {
            Some(&self.done[index].0)
        } else {
            None
        }
    }
}

impl Transport for ReplayTransport {
    fn base_url(&self) -> (base: String)
        ensures
            base@ == self.base(),
    {
        self.base.clone()
    }

    /// Answers with the next of the outcomes, or with a failure once they are
    /// used up, and adds the exchange to the history.
    fn send(&mut self, request: &WireRequest) -> (outcome: Outcome)
        ensures
            final(self).base() == old(self).base(),
            final(self).history() == old(self).history().push(
                (Exchange { request: request@, outcome: outcome_view(outcome) }),
            ),
            if old(self).remaining().len() > 0 {
                &&& outcome_view(outcome) == old(self).remaining()[0]
                &&& final(self).remaining() == old(self).remaining().skip(1)
            } else {
                &&& outcome_view(outcome) == Err::<WireResponseView, Seq<char>>(replay_exhausted())
                &&& final(self).remaining() == old(self).remaining()
            },
    {
        let ghost script = self.script@;
        let outcome = match self.script.pop() {
            Some(outcome) => outcome,
            None => Err(TransportError { message: String::from_str("no outcome left to replay") }),
        };
        self.done.push((request.clone(), copy_outcome(&outcome)));
        proof {
            if script.len() > 0 {
                assert(self.remaining() =~= old(self).remaining().skip(1));
            }
        }
        outcome
    }
}

} // verus!
