//! The seam to a gateway's query interface.

use vstd::prelude::*;
use crate::bytes::{copy_segments, segments_view};
use crate::data::{Address, QueryRequest, QueryRequestView};
use crate::error::NetworkQueryError;
use crate::network::retry::{QueryStep, RetryPolicy};
use crate::outcome::RawResponse;

verus! {

/// A query as the gateway takes it: the contract, the function and its
/// arguments, and on whose behalf and with what value the function is
/// evaluated.
#[derive(Debug)]
pub struct RawQuery {
    pub address: Address,
    pub function: String,
    pub caller: Address,
    pub value: u128,
    pub arguments: Vec<Vec<u8>>,
}

pub struct RawQueryView {
    pub address: Seq<u8>,
    pub function: Seq<char>,
    pub caller: Seq<u8>,
    pub value: u128,
    pub arguments: Seq<Seq<u8>>,
}

impl View for RawQuery {
    type V = RawQueryView;

    open spec fn view(&self) -> RawQueryView {
        RawQueryView {
            address: self.address@,
            function: self.function@,
            caller: self.caller@,
            value: self.value,
            arguments: segments_view(self.arguments@),
        }
    }
}

impl Clone for RawQuery {
    fn clone(&self) -> (copy: RawQuery)
        ensures
            copy@ == self@,
    {
        RawQuery {
            address: self.address.clone(),
            function: self.function.clone(),
            caller: self.caller.clone(),
            value: self.value,
            arguments: copy_segments(&self.arguments),
        }
    }
}

/// The raw query for a request: the contract asks itself, and no value is
/// sent along.
pub open spec fn raw_query_of(request: QueryRequestView) -> RawQueryView {
    RawQueryView {
        address: request.to,
        function: request.function,
        caller: request.to,
        value: 0,
        arguments: request.arguments,
    }
}

pub fn build_raw_query(request: &QueryRequest) -> (payload: RawQuery)
    ensures
        payload@ == raw_query_of(request@),
{
    RawQuery {
        address: request.to.clone(),
        function: request.function.clone(),
        caller: request.to.clone(),
        value: 0,
        arguments: copy_segments(&request.arguments),
    }
}

/// One thing that a proxy was asked to do.
#[allow(inconsistent_fields)]
pub enum ProxyEvent {
    /// A query went to `endpoint`, and `answer` came back.
    Sent { endpoint: Seq<char>, payload: RawQueryView, answer: Result<RawResponse, NetworkQueryError> },
    /// The proxy let `millis` milliseconds pass.
    Paused { millis: u64 },
}

/// Submits raw queries to a gateway.
///
/// A proxy promises nothing about its answers: they are the network's.
pub trait BlockchainProxy {
    /// Sends one query and waits for the answer.
    fn send_raw_query(&mut self, endpoint: &String, payload: &RawQuery) -> Result<
        RawResponse,
        NetworkQueryError,
    >;

    /// Lets `millis` milliseconds pass.
    fn pause(&mut self, millis: u64);
}

/// A proxy with an account of what it was asked to do. Nothing reaches
/// the proxy but through this account, so the contracts of those who hold
/// it can say which calls they make.
pub struct TracedProxy<P: BlockchainProxy> {
    proxy: P,
    log: Ghost<Seq<ProxyEvent>>,
}

impl<P: BlockchainProxy> TracedProxy<P> {
    /// Everything the proxy was asked to do since the account began,
    /// oldest first.
    pub closed spec fn trace(&self) -> Seq<ProxyEvent> {
        self.log@
    }

    /// The proxy that the account is kept of.
    pub closed spec fn wrapped(&self) -> P {
        self.proxy
    }

    /// Begins an account of `proxy`.
    pub fn new(proxy: P) -> (traced: Self)
        ensures
            traced.trace() == Seq::<ProxyEvent>::empty(),
            traced.wrapped() == proxy,
    {
        TracedProxy { proxy, log: Ghost(Seq::empty()) }
    }

    /// The proxy, to look at.
    pub fn inner(&self) -> (proxy: &P)
        ensures
            *proxy == self.wrapped(),
    {
        &self.proxy
    }

    /// Ends the account and hands the proxy back.
    pub fn into_inner(self) -> (proxy: P)
        ensures
            proxy == self.wrapped(),
    {
        self.proxy
    }

    /// Sends one query through the proxy and writes it down with its
    /// answer.
    pub fn send_raw_query(&mut self, endpoint: &String, payload: &RawQuery) -> (answer: Result<
        RawResponse,
        NetworkQueryError,
    >)
        ensures
            final(self).trace() == old(self).trace().push(
                ProxyEvent::Sent { endpoint: endpoint@, payload: payload@, answer },
            ),
    {
        let answer = self.proxy.send_raw_query(endpoint, payload);
        proof {
            self.log@ = self.log@.push(
                ProxyEvent::Sent { endpoint: endpoint@, payload: payload@, answer },
            );
        }
        answer
    }

    /// Lets the proxy wait and writes the wait down.
    pub fn pause(&mut self, millis: u64)
        ensures
            final(self).trace() == old(self).trace().push(ProxyEvent::Paused { millis }),
    {
        self.proxy.pause(millis);
        proof {
            self.log@ = self.log@.push(ProxyEvent::Paused { millis });
        }
    }
}

/// The wait that an event stands for; none for an event that is no wait.
pub open spec fn pause_of(event: ProxyEvent) -> u64 {
    match event {
        ProxyEvent::Paused { millis } => millis,
        ProxyEvent::Sent { .. } => 0,
    }
}

/// Says that the `i`-th event of an exchange is as the policy has it. The
/// events at even places are the attempts: each sends `payload` to
/// `endpoint`, and its answer leads to the step that the run then takes, a
/// wait of the length that the policy gives where more events follow, the
/// end where none does. The events at odd places are those waits.
pub open spec fn query_run_follows(
    policy: RetryPolicy,
    endpoint: Seq<char>,
    payload: RawQueryView,
    events: Seq<ProxyEvent>,
    i: int,
) -> bool {
    if i % 2 == 0 {
        &&& events[i] matches ProxyEvent::Sent { endpoint: to, payload: sent, answer }
        &&& to == endpoint
        &&& sent == payload
        &&& if i + 1 < events.len() {
            policy.query_step((i / 2 + 1) as u32, answer) == (QueryStep::Retry {
                millis: pause_of(events[i + 1]),
            })
        } else {
            policy.query_step((i / 2 + 1) as u32, answer) is Finish
        }
    } else {
        events[i] is Paused
    }
}

/// Says that `events` are one whole exchange under `policy`: no event at
/// all where the policy allows no attempt, and else attempts and waits in
/// turn, at most as many attempts as the policy allows, each as
/// [`query_run_follows`] has it.
pub open spec fn is_query_run(
    policy: RetryPolicy,
    endpoint: Seq<char>,
    payload: RawQueryView,
    events: Seq<ProxyEvent>,
) -> bool {
    if policy.max_attempts == 0 {
        events.len() == 0
    } else {
        &&& events.len() % 2 == 1
        &&& events.len() < 2 * policy.max_attempts
        &&& forall|i: int|
            0 <= i < events.len() ==> #[trigger] query_run_follows(
                policy,
                endpoint,
                payload,
                events,
                i,
            )
    }
}

/// The answer that an exchange ends with: that of its last attempt, and a
/// timeout after no attempt where none was made.
pub open spec fn query_run_outcome(events: Seq<ProxyEvent>) -> Result<
    RawResponse,
    NetworkQueryError,
> {
    if events.len() == 0 {
        Err(NetworkQueryError::Timeout { attempts: 0 })
    } else {
        match events.last() {
            ProxyEvent::Sent { answer, .. } => answer,
            ProxyEvent::Paused { .. } => Err(NetworkQueryError::Timeout { attempts: 0 }),
        }
    }
}

} // verus!
