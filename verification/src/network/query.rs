//! Queries over the network.
//!
//! A query changes nothing on chain. It is therefore sent again after a
//! transient failure, as often as the policy allows, and to give up on a
//! query leaves nothing behind.

use vstd::prelude::*;
use crate::base::QueryExecutor;
use crate::codec::Decode;
use crate::data::{QueryRequest, Request};
use crate::error::{ExecutorError, NetworkQueryError};
use crate::network::conclusion::{conclude, concludes};
use crate::network::proxy::{
    build_raw_query,
    is_query_run,
    query_run_follows,
    query_run_outcome,
    raw_query_of,
    BlockchainProxy,
    ProxyEvent,
    TracedProxy,
};
use crate::network::retry::{QueryStep, RetryPolicy};
use crate::outcome::RawResponse;

verus! {

/// Answers queries by sending them to a gateway through a proxy.
pub struct QueryNetworkExecutor<P: BlockchainProxy> {
    pub gateway_url: String,
    pub proxy: TracedProxy<P>,
    pub policy: RetryPolicy,
}

impl<P: BlockchainProxy> QueryNetworkExecutor<P> {
    pub fn new(gateway_url: String, proxy: P, policy: RetryPolicy) -> (executor: Self)
        ensures
            executor.gateway_url == gateway_url,
            executor.proxy.wrapped() == proxy,
            executor.proxy.trace() == Seq::<ProxyEvent>::empty(),
            executor.policy == policy,
    {
        QueryNetworkExecutor { gateway_url, proxy: TracedProxy::new(proxy), policy }
    }

    /// What the proxy was asked to do since it was in the state `before`.
    pub open spec fn added(&self, before: &Self) -> Seq<ProxyEvent> {
        self.proxy.trace().skip(before.proxy.trace().len() as int)
    }

    /// Sends the query for `request` until an answer ends the exchange,
    /// and returns that answer. The proxy is asked for one whole exchange
    /// under the policy and for nothing else.
    pub fn ask(&mut self, request: &QueryRequest) -> (outcome: Result<
        RawResponse,
        NetworkQueryError,
    >)
        ensures
            final(self).gateway_url == old(self).gateway_url,
            final(self).policy == old(self).policy,
            old(self).proxy.trace().is_prefix_of(final(self).proxy.trace()),
            is_query_run(
                old(self).policy,
                old(self).gateway_url@,
                raw_query_of(request@),
                final(self).added(old(self)),
            ),
            outcome == query_run_outcome(final(self).added(old(self))),
    {
        let ghost before = self.proxy.trace();
        let ghost endpoint = self.gateway_url@;
        let ghost policy = self.policy;
        if self.policy.max_attempts == 0 {
            assert(self.proxy.trace().skip(before.len() as int) =~= Seq::empty());
            return Err(NetworkQueryError::Timeout { attempts: 0 });
        }
        let payload = build_raw_query(request);
        let mut attempts: u32 = 0;
        let ghost mut events: Seq<ProxyEvent> = Seq::empty();
        assert(self.proxy.trace() =~= before + events);
        loop
            invariant
                self.gateway_url == old(self).gateway_url,
                self.policy == old(self).policy,
                endpoint == self.gateway_url@,
                policy == self.policy,
                before == old(self).proxy.trace(),
                payload@ == raw_query_of(request@),
                attempts < policy.max_attempts,
                self.proxy.trace() == before + events,
                events.len() == 2 * attempts,
                forall|i: int|
                    0 <= i < events.len() ==> #[trigger] query_run_follows(
                        policy,
                        endpoint,
                        payload@,
                        events,
                        i,
                    ),
            decreases policy.max_attempts - attempts,
        {
            let ghost earlier = events;
            let answer = self.proxy.send_raw_query(&self.gateway_url, &payload);
            attempts = attempts + 1;
            proof {
                events = earlier.push(
                    ProxyEvent::Sent { endpoint, payload: payload@, answer },
                );
                assert(self.proxy.trace() =~= before + events);
            }
            match self.policy.after_query(attempts, answer) {
                QueryStep::Retry { millis } => {
                    let ghost sent = events;
                    self.proxy.pause(millis);
                    proof {
                        events = sent.push(ProxyEvent::Paused { millis });
                        assert(self.proxy.trace() =~= before + events);
                        assert forall|i: int| 0 <= i < events.len() implies #[trigger] query_run_follows(
                            policy,
                            endpoint,
                            payload@,
                            events,
                            i,
                        ) by {
                            if i < earlier.len() {
                                assert(query_run_follows(policy, endpoint, payload@, earlier, i));
                            }
                        }
                    }
                },
                QueryStep::Finish(outcome) => {
                    proof {
                        assert(self.proxy.trace().skip(before.len() as int) =~= events);
                        assert forall|i: int| 0 <= i < events.len() implies #[trigger] query_run_follows(
                            policy,
                            endpoint,
                            payload@,
                            events,
                            i,
                        ) by {
                            if i < earlier.len() {
                                assert(query_run_follows(policy, endpoint, payload@, earlier, i));
                            }
                        }
                    }
                    return outcome;
                },
            }
        }
    }
}

impl<T: Decode, P: BlockchainProxy> QueryExecutor<T> for QueryNetworkExecutor<P> {
    /// Asks the gateway, and decodes the answer. The proxy is asked for one
    /// whole exchange under the policy, and the result is what the last
    /// answer of that exchange comes to.
    fn query(&mut self, request: QueryRequest) -> (result: Result<T, ExecutorError>)
        ensures
            final(self).gateway_url == old(self).gateway_url,
            final(self).policy == old(self).policy,
            old(self).proxy.trace().is_prefix_of(final(self).proxy.trace()),
            is_query_run(
                old(self).policy,
                old(self).gateway_url@,
                raw_query_of(request@),
                final(self).added(old(self)),
            ),
            concludes::<T>(
                Request::Query(request),
                query_run_outcome(final(self).added(old(self))),
                result,
            ),
    {
        let outcome = self.ask(&request);
        conclude(Request::Query(request), outcome)
    }
}

} // verus!
