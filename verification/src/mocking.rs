//! Executors that replay a script.
//!
//! A script is a queue of entries. Each holds the request that is expected
//! next and the outcome to answer it with. Every call takes the entry at
//! the head of the queue, whether the call is the expected one or not, and
//! the outcome of a matching entry is handed back as it was given: nothing
//! is decoded or checked on the way.

use std::collections::VecDeque;
use vstd::prelude::*;
use crate::base::{DeployExecutor, QueryExecutor, TransactionExecutor};
use crate::data::{Address, DeployRequest, QueryRequest, Request, TransactionRequest};
use crate::error::{ExecutorError, MockDeployError};

verus! {

/// One expected call, and the outcome that answers it.
#[allow(inconsistent_fields)]
#[derive(Debug)]
pub enum MockEntry<T> {
    Query { request: QueryRequest, outcome: Result<T, ExecutorError> },
    Execute { request: TransactionRequest, outcome: Result<T, ExecutorError> },
    Deploy { request: DeployRequest, outcome: Result<(Address, T), ExecutorError> },
}

/// What a mock answers a call with. A deployment is answered with an
/// address beside the value, the two other kinds of call with the value
/// alone.
pub enum MockReply<T> {
    Value(Result<T, ExecutorError>),
    Deployed(Result<(Address, T), ExecutorError>),
}

impl<T> MockEntry<T> {
    /// The call that this entry expects.
    pub open spec fn request(self) -> Request {
        match self {
            MockEntry::Query { request, .. } => Request::Query(request),
            MockEntry::Execute { request, .. } => Request::Transaction(request),
            MockEntry::Deploy { request, .. } => Request::Deploy(request),
        }
    }

    /// The answer that this entry holds.
    pub open spec fn reply(self) -> MockReply<T> {
        match self {
            MockEntry::Query { outcome, .. } => MockReply::Value(outcome),
            MockEntry::Execute { outcome, .. } => MockReply::Value(outcome),
            MockEntry::Deploy { outcome, .. } => MockReply::Deployed(outcome),
        }
    }

    /// Gives up the outcome and keeps the expected call.
    pub fn into_request(self) -> (request: Request)
        ensures
            request == self.request(),
    {
        match self {
            MockEntry::Query { request, .. } => Request::Query(request),
            MockEntry::Execute { request, .. } => Request::Transaction(request),
            MockEntry::Deploy { request, .. } => Request::Deploy(request),
        }
    }
}

/// The answer that turns the call `actual` down with `error`.
pub open spec fn refusal<T>(actual: Request, error: MockDeployError) -> MockReply<T> {
    match actual {
        Request::Deploy(_) => MockReply::Deployed(Err(ExecutorError::MockDeploy(error))),
        _ => MockReply::Value(Err(ExecutorError::MockDeploy(error))),
    }
}

/// The answer of a mock with the script `script` to the call `actual`:
/// - with an empty script, the call is one too many;
/// - where the call has the shape that the head of the script expects, the
///   answer is the one that the head holds;
/// - else the call is unexpected, and the error holds the expected call
///   and the actual one.
pub open spec fn reply_to<T>(script: Seq<MockEntry<T>>, actual: Request) -> MockReply<T> {
    if script.len() == 0 {
        refusal(actual, MockDeployError::NoMoreExpectedCalls { actual })
    } else if script[0].request()@ == actual@ {
        script[0].reply()
    } else {
        refusal(actual, MockDeployError::UnexpectedCall { expected: script[0].request(), actual })
    }
}

/// The script that is left after one call: the head is gone.
pub open spec fn rest<T>(script: Seq<MockEntry<T>>) -> Seq<MockEntry<T>> {
    if script.len() == 0 {
        script
    } else {
        script.drop_first()
    }
}

/// The answers to `calls`, made one after the other on `script`.
pub open spec fn replies<T>(script: Seq<MockEntry<T>>, calls: Seq<Request>) -> Seq<MockReply<T>>
    decreases calls.len(),
{
    if calls.len() == 0 {
        Seq::empty()
    } else {
        seq![reply_to(script, calls[0])] + replies(rest(script), calls.drop_first())
    }
}

/// The script that is left after `calls`, made one after the other.
pub open spec fn left_after<T>(script: Seq<MockEntry<T>>, calls: Seq<Request>) -> Seq<
    MockEntry<T>,
>
    decreases calls.len(),
{
    if calls.len() == 0 {
        script
    } else {
        left_after(rest(script), calls.drop_first())
    }
}

/// Says that `calls` are the calls that `script` expects, in its order.
pub open spec fn in_scripted_order<T>(script: Seq<MockEntry<T>>, calls: Seq<Request>) -> bool {
    &&& calls.len() == script.len()
    &&& forall|i: int| 0 <= i < script.len() ==> (#[trigger] calls[i])@ == script[i].request()@
}

/// The answers that a script holds, in its order.
pub open spec fn scripted_replies<T>(script: Seq<MockEntry<T>>) -> Seq<MockReply<T>> {
    Seq::new(script.len(), |i: int| script[i].reply())
}

/// Calls made in the scripted order get the scripted answers, each as it
/// was given, and use the script up.
pub proof fn lemma_scripted_calls_are_answered<T>(script: Seq<MockEntry<T>>, calls: Seq<Request>)
    requires
        in_scripted_order(script, calls),
    ensures
        replies(script, calls) == scripted_replies(script),
        left_after(script, calls).len() == 0,
    decreases calls.len(),
{
    if calls.len() > 0 {
        let later = calls.drop_first();
        assert(calls[0]@ == script[0].request()@);
        assert forall|i: int| 0 <= i < rest(script).len() implies (#[trigger] later[i])@ == rest(
            script,
        )[i].request()@ by {
            assert(later[i] == calls[i + 1]);
        }
        lemma_scripted_calls_are_answered(rest(script), later);
        assert(replies(script, calls) =~= scripted_replies(script));
    } else {
        assert(replies(script, calls) =~= scripted_replies(script));
    }
}

/// Once the scripted calls were made in their order, one more call of any
/// shape fails for want of an expected call, and the error holds it.
pub proof fn lemma_call_after_script_fails<T>(
    script: Seq<MockEntry<T>>,
    calls: Seq<Request>,
    extra: Request,
)
    requires
        in_scripted_order(script, calls),
    ensures
        reply_to(left_after(script, calls), extra) == refusal::<T>(
            extra,
            MockDeployError::NoMoreExpectedCalls { actual: extra },
        ),
{
    lemma_scripted_calls_are_answered(script, calls);
}

/// A call whose shape differs from the one that the head of the script
/// expects fails as unexpected, and the error holds both.
pub proof fn lemma_unexpected_call_fails<T>(script: Seq<MockEntry<T>>, actual: Request)
    requires
        script.len() > 0,
        script[0].request()@ != actual@,
    ensures
        reply_to(script, actual) == refusal::<T>(
            actual,
            MockDeployError::UnexpectedCall { expected: script[0].request(), actual },
        ),
{
}

/// An executor that answers from a script.
pub struct MockExecutor<T> {
    script: VecDeque<MockEntry<T>>,
}

impl<T> View for MockExecutor<T> {
    type V = Seq<MockEntry<T>>;

    /// The entries that no call has taken yet, the next one first.
    closed spec fn view(&self) -> Seq<MockEntry<T>> {
        self.script@
    }
}

impl<T> MockExecutor<T> {
    /// A mock with an empty script: every call is one too many.
    pub fn new() -> (mock: Self)
        ensures
            mock@ == Seq::<MockEntry<T>>::empty(),
    {
        MockExecutor { script: VecDeque::new() }
    }

    /// Adds an entry at the end of the script.
    pub fn expect(&mut self, entry: MockEntry<T>)
        ensures
            final(self)@ == old(self)@.push(entry),
    {
        self.script.push_back(entry);
    }

    /// Expects a query next, after what the script holds already.
    pub fn expect_query(&mut self, request: QueryRequest, outcome: Result<T, ExecutorError>)
        ensures
            final(self)@ == old(self)@.push(MockEntry::Query { request, outcome }),
    {
        self.expect(MockEntry::Query { request, outcome });
    }

    /// Expects a transaction next, after what the script holds already.
    pub fn expect_execute(
        &mut self,
        request: TransactionRequest,
        outcome: Result<T, ExecutorError>,
    )
        ensures
            final(self)@ == old(self)@.push(MockEntry::Execute { request, outcome }),
    {
        self.expect(MockEntry::Execute { request, outcome });
    }

    /// Expects a deployment next, after what the script holds already.
    pub fn expect_deploy(
        &mut self,
        request: DeployRequest,
        outcome: Result<(Address, T), ExecutorError>,
    )
        ensures
            final(self)@ == old(self)@.push(MockEntry::Deploy { request, outcome }),
    {
        self.expect(MockEntry::Deploy { request, outcome });
    }

    /// The number of calls that the script still expects.
    pub fn remaining(&self) -> (count: usize)
        ensures
            count == self@.len(),
    {
        self.script.len()
    }

    /// Takes the head of the script, if there is one.
    fn next(&mut self) -> (entry: Option<MockEntry<T>>)
        ensures
            final(self)@ == rest(old(self)@),
            entry == if old(self)@.len() == 0 {
                None
            } else {
                Some(old(self)@[0])
            },
    {
        let entry = self.script.pop_front();
        assert(self.script@ =~= rest(old(self)@));
        entry
    }
}

impl<T> QueryExecutor<T> for MockExecutor<T> {
    /// Answers as the script has it, and takes the head off the script.
    fn query(&mut self, request: QueryRequest) -> (result: Result<T, ExecutorError>)
        ensures
            MockReply::Value(result) == reply_to(old(self)@, Request::Query(request)),
            final(self)@ == rest(old(self)@),
    {
        match self.next() {
            None => Err(
                ExecutorError::MockDeploy(
                    MockDeployError::NoMoreExpectedCalls { actual: Request::Query(request) },
                ),
            ),
            Some(MockEntry::Query { request: expected, outcome }) => {
                if expected == request {
                    outcome
                } else {
                    Err(
                        ExecutorError::MockDeploy(
                            MockDeployError::UnexpectedCall {
                                expected: Request::Query(expected),
                                actual: Request::Query(request),
                            },
                        ),
                    )
                }
            },
            Some(entry) => Err(
                ExecutorError::MockDeploy(
                    MockDeployError::UnexpectedCall {
                        expected: entry.into_request(),
                        actual: Request::Query(request),
                    },
                ),
            ),
        }
    }
}

impl<T> TransactionExecutor<T> for MockExecutor<T> {
    /// Answers as the script has it, and takes the head off the script.
    fn execute(&mut self, request: TransactionRequest) -> (result: Result<T, ExecutorError>)
        ensures
            MockReply::Value(result) == reply_to(old(self)@, Request::Transaction(request)),
            final(self)@ == rest(old(self)@),
    {
        match self.next() {
            None => Err(
                ExecutorError::MockDeploy(
                    MockDeployError::NoMoreExpectedCalls { actual: Request::Transaction(request) },
                ),
            ),
            Some(MockEntry::Execute { request: expected, outcome }) => {
                if expected == request {
                    outcome
                } else {
                    Err(
                        ExecutorError::MockDeploy(
                            MockDeployError::UnexpectedCall {
                                expected: Request::Transaction(expected),
                                actual: Request::Transaction(request),
                            },
                        ),
                    )
                }
            },
            Some(entry) => Err(
                ExecutorError::MockDeploy(
                    MockDeployError::UnexpectedCall {
                        expected: entry.into_request(),
                        actual: Request::Transaction(request),
                    },
                ),
            ),
        }
    }
}

impl<T> DeployExecutor<T> for MockExecutor<T> {
    /// Answers as the script has it, and takes the head off the script.
    fn deploy(&mut self, request: DeployRequest) -> (result: Result<(Address, T), ExecutorError>)
        ensures
            MockReply::Deployed(result) == reply_to(old(self)@, Request::Deploy(request)),
            final(self)@ == rest(old(self)@),
    {
        match self.next() {
            None => Err(
                ExecutorError::MockDeploy(
                    MockDeployError::NoMoreExpectedCalls { actual: Request::Deploy(request) },
                ),
            ),
            Some(MockEntry::Deploy { request: expected, outcome }) => {
                if expected == request {
                    outcome
                } else {
                    Err(
                        ExecutorError::MockDeploy(
                            MockDeployError::UnexpectedCall {
                                expected: Request::Deploy(expected),
                                actual: Request::Deploy(request),
                            },
                        ),
                    )
                }
            },
            Some(entry) => Err(
                ExecutorError::MockDeploy(
                    MockDeployError::UnexpectedCall {
                        expected: entry.into_request(),
                        actual: Request::Deploy(request),
                    },
                ),
            ),
        }
    }
}

/// The address that a standard mock gives to the contract with the serial
/// number `serial`: 24 zero bytes, then the number in 8 bytes, most
/// significant byte first.
pub open spec fn mock_address(serial: u64) -> Seq<u8> {
    Seq::new(24, |i: int| 0u8) + seq![
        (serial / 0x100_0000_0000_0000) as u8,
        (serial / 0x1_0000_0000_0000 % 256) as u8,
        (serial / 0x100_0000_0000 % 256) as u8,
        (serial / 0x1_0000_0000 % 256) as u8,
        (serial / 0x100_0000 % 256) as u8,
        (serial / 0x1_0000 % 256) as u8,
        (serial / 0x100 % 256) as u8,
        (serial % 256) as u8,
    ]
}

/// Two contracts with different serial numbers get different addresses.
pub proof fn lemma_mock_addresses_differ(a: u64, b: u64)
    requires
        a != b,
    ensures
        mock_address(a) != mock_address(b),
        mock_address(a).len() == 32,
{
    if mock_address(a) == mock_address(b) {
        assert(mock_address(a)[24] == mock_address(b)[24]);
        assert(mock_address(a)[25] == mock_address(b)[25]);
        assert(mock_address(a)[26] == mock_address(b)[26]);
        assert(mock_address(a)[27] == mock_address(b)[27]);
        assert(mock_address(a)[28] == mock_address(b)[28]);
        assert(mock_address(a)[29] == mock_address(b)[29]);
        assert(mock_address(a)[30] == mock_address(b)[30]);
        assert(mock_address(a)[31] == mock_address(b)[31]);
        assert(a / 0x100_0000_0000_0000 == b / 0x100_0000_0000_0000);
        assert(a / 0x1_0000_0000_0000 % 256 == b / 0x1_0000_0000_0000 % 256);
        assert(a / 0x100_0000_0000 % 256 == b / 0x100_0000_0000 % 256);
        assert(a / 0x1_0000_0000 % 256 == b / 0x1_0000_0000 % 256);
        assert(a / 0x100_0000 % 256 == b / 0x100_0000 % 256);
        assert(a / 0x1_0000 % 256 == b / 0x1_0000 % 256);
        assert(a / 0x100 % 256 == b / 0x100 % 256);
        assert(a % 256 == b % 256);
        assert(a / 0x100_0000_0000_0000 == b / 0x100_0000_0000_0000 && a / 0x1_0000_0000_0000
            % 256 == b / 0x1_0000_0000_0000 % 256 && a / 0x100_0000_0000 % 256 == b
            / 0x100_0000_0000 % 256 && a / 0x1_0000_0000 % 256 == b / 0x1_0000_0000 % 256 && a
            / 0x100_0000 % 256 == b / 0x100_0000 % 256 && a / 0x1_0000 % 256 == b / 0x1_0000
            % 256 && a / 0x100 % 256 == b / 0x100 % 256 && a % 256 == b % 256 ==> a == b)
            by (bit_vector);
    }
}

fn make_mock_address(serial: u64) -> (address: Address)
    ensures
        address@ == mock_address(serial),
{
    let mut bytes: Vec<u8> = Vec::with_capacity(32);
    let mut i: usize = 0;
    while i < 24
        invariant
            i <= 24,
            bytes@.len() == i,
            forall|j: int| 0 <= j < i ==> bytes@[j] == 0u8,
        decreases 24 - i,
    {
        bytes.push(0u8);
        i += 1;
    }
    bytes.push((serial / 0x100_0000_0000_0000) as u8);
    bytes.push((serial / 0x1_0000_0000_0000 % 256) as u8);
    bytes.push((serial / 0x100_0000_0000 % 256) as u8);
    bytes.push((serial / 0x1_0000_0000 % 256) as u8);
    bytes.push((serial / 0x100_0000 % 256) as u8);
    bytes.push((serial / 0x1_0000 % 256) as u8);
    bytes.push((serial / 0x100 % 256) as u8);
    bytes.push((serial % 256) as u8);
    assert(bytes@ =~= mock_address(serial));
    Address::new(bytes)
}

/// A mock with defaults that spare a test some writing: a deployment that
/// is expected to succeed gets its address from the mock, which numbers
/// the contracts as they are scripted.
pub struct StandardMockExecutor<T> {
    mock: MockExecutor<T>,
    next_serial: u64,
}

impl<T> StandardMockExecutor<T> {
    /// The entries that no call has taken yet, the next one first.
    pub closed spec fn script(&self) -> Seq<MockEntry<T>> {
        self.mock@
    }

    /// The serial number of the next contract that gets an address from
    /// this mock.
    pub closed spec fn next_serial(&self) -> u64 {
        self.next_serial
    }

    /// A mock with an empty script, whose first contract has the serial
    /// number 1.
    pub fn new() -> (mock: Self)
        ensures
            mock.script() == Seq::<MockEntry<T>>::empty(),
            mock.next_serial() == 1,
    {
        StandardMockExecutor { mock: MockExecutor::new(), next_serial: 1 }
    }

    /// Expects a query next, after what the script holds already.
    pub fn expect_query(&mut self, request: QueryRequest, outcome: Result<T, ExecutorError>)
        ensures
            final(self).script() == old(self).script().push(MockEntry::Query { request, outcome }),
            final(self).next_serial() == old(self).next_serial(),
    {
        self.mock.expect_query(request, outcome);
    }

    /// Expects a transaction next, after what the script holds already.
    pub fn expect_execute(
        &mut self,
        request: TransactionRequest,
        outcome: Result<T, ExecutorError>,
    )
        ensures
            final(self).script() == old(self).script().push(
                MockEntry::Execute { request, outcome },
            ),
            final(self).next_serial() == old(self).next_serial(),
    {
        self.mock.expect_execute(request, outcome);
    }

    /// Expects a deployment next that fails with `error`.
    pub fn expect_failed_deploy(&mut self, request: DeployRequest, error: ExecutorError)
        ensures
            final(self).script() == old(self).script().push(
                MockEntry::Deploy { request, outcome: Err(error) },
            ),
            final(self).next_serial() == old(self).next_serial(),
    {
        self.mock.expect_deploy(request, Err(error));
    }

    /// Expects a deployment next that succeeds with `value`, and returns
    /// the address that the deployment will answer with: that of the next
    /// serial number. Once the serial numbers are used up, nothing is
    /// added to the script and nothing is returned.
    pub fn expect_deploy(&mut self, request: DeployRequest, value: T) -> (address: Option<Address>)
        ensures
            old(self).next_serial() == u64::MAX ==> address is None && final(self).script() == old(
                self,
            ).script() && final(self).next_serial() == old(self).next_serial(),
            old(self).next_serial() < u64::MAX ==> {
                &&& address matches Some(returned)
                &&& returned@ == mock_address(old(self).next_serial())
                &&& final(self).next_serial() == old(self).next_serial() + 1
                &&& final(self).script().len() == old(self).script().len() + 1
                &&& final(self).script().drop_last() == old(self).script()
                &&& final(self).script().last() matches MockEntry::Deploy {
                    request: expected,
                    outcome: Ok((scripted, answer)),
                }
                &&& expected == request
                &&& answer == value
                &&& scripted@ == mock_address(old(self).next_serial())
            },
    {
        if self.next_serial == u64::MAX {
            return None;
        }
        let scripted = make_mock_address(self.next_serial);
        let returned = scripted.clone();
        self.mock.expect_deploy(request, Ok((scripted, value)));
        self.next_serial = self.next_serial + 1;
        assert(self.mock@.drop_last() =~= old(self).mock@);
        Some(returned)
    }

    /// The number of calls that the script still expects.
    pub fn remaining(&self) -> (count: usize)
        ensures
            count == self.script().len(),
    {
        self.mock.remaining()
    }
}

impl<T> QueryExecutor<T> for StandardMockExecutor<T> {
    /// Answers as the script has it, and takes the head off the script.
    fn query(&mut self, request: QueryRequest) -> (result: Result<T, ExecutorError>)
        ensures
            MockReply::Value(result) == reply_to(old(self).script(), Request::Query(request)),
            final(self).script() == rest(old(self).script()),
            final(self).next_serial() == old(self).next_serial(),
    {
        self.mock.query(request)
    }
}

impl<T> TransactionExecutor<T> for StandardMockExecutor<T> {
    /// Answers as the script has it, and takes the head off the script.
    fn execute(&mut self, request: TransactionRequest) -> (result: Result<T, ExecutorError>)
        ensures
            MockReply::Value(result) == reply_to(
                old(self).script(),
                Request::Transaction(request),
            ),
            final(self).script() == rest(old(self).script()),
            final(self).next_serial() == old(self).next_serial(),
    {
        self.mock.execute(request)
    }
}

impl<T> DeployExecutor<T> for StandardMockExecutor<T> {
    /// Answers as the script has it, and takes the head off the script.
    fn deploy(&mut self, request: DeployRequest) -> (result: Result<(Address, T), ExecutorError>)
        ensures
            MockReply::Deployed(result) == reply_to(old(self).script(), Request::Deploy(request)),
            final(self).script() == rest(old(self).script()),
            final(self).next_serial() == old(self).next_serial(),
    {
        self.mock.deploy(request)
    }
}

} // verus!
