use vstd::prelude::*;
use vstd::slice::slice_to_vec;
use crate::action::PromiseAction;
use crate::engine::{conforms, lemma_conforms_push, registered, Call, Engine};
use crate::types::{AccountId, Balance, Gas, GasWeight, PromiseIndex, PublicKey};

verus! {

/// One request as a [`Recorder`] keeps it.
#[derive(Clone, Debug, PartialEq, Eq)]
pub enum RecordedCall {
    BatchCreate { account_id: AccountId, index: PromiseIndex },
    BatchThen { after: PromiseIndex, account_id: AccountId, index: PromiseIndex },
    Action { index: PromiseIndex, action: PromiseAction },
    And { promise_a: PromiseIndex, promise_b: PromiseIndex, index: PromiseIndex },
    Return { index: PromiseIndex },
}

impl View for RecordedCall {
    type V = Call;

    open spec fn view(&self) -> Call {
        match *self {
            RecordedCall::BatchCreate { account_id, index } => {
                Call::BatchCreate { account_id: account_id@, index }
            },
            RecordedCall::BatchThen { after, account_id, index } => {
                Call::BatchThen { after, account_id: account_id@, index }
            },
            RecordedCall::Action { index, action } => Call::Action { index, action: action@ },
            RecordedCall::And { promise_a, promise_b, index } => {
                Call::And { promise_a, promise_b, index }
            },
            RecordedCall::Return { index } => Call::Return { index },
        }
    }
}

/// How many requests of `trace` opened a batch or a join.
pub open spec fn opened(trace: Seq<Call>) -> nat
    decreases trace.len(),
{
    if trace.len() == 0 {
        0
    } else {
        opened(trace.drop_last()) + if trace.last().opens() {
            1nat
        } else {
            0nat
        }
    }
}

/// No more batches and joins were opened than requests were made.
pub proof fn lemma_opened_bound(trace: Seq<Call>)
    ensures
        opened(trace) <= trace.len(),
    decreases trace.len(),
{
    if trace.len() > 0 {
        lemma_opened_bound(trace.drop_last());
    }
}

/// What one more request does to the number of opened batches and joins.
pub proof fn lemma_opened_push(trace: Seq<Call>, call: Call)
    ensures
        opened(trace.push(call)) == opened(trace) + (if call.opens() {
            1nat
        } else {
            0nat
        }),
{
    assert(trace.push(call).drop_last() =~= trace);
}

/// Whether the batches and joins of `trace` are numbered from zero in the order in which they
/// were opened.
pub open spec fn numbered(trace: Seq<Call>) -> bool {
    forall|k: int|
        0 <= k < trace.len() && (#[trigger] trace[k]).opens() ==> trace[k].index() == opened(
            trace.take(k),
        )
}

/// A numbered trace stays numbered when the next request opens nothing, or opens the batch or
/// join with the next number.
pub proof fn lemma_numbered_push(trace: Seq<Call>, call: Call)
    requires
        numbered(trace),
        call.opens() ==> call.index() == opened(trace),
    ensures
        numbered(trace.push(call)),
{
    let longer = trace.push(call);
    assert forall|k: int|
        0 <= k < longer.len() && (#[trigger] longer[k]).opens() implies longer[k].index()
        == opened(longer.take(k)) by {
        if k < trace.len() {
            assert(longer.take(k) == trace.take(k));
        } else {
            assert(longer.take(k) == trace);
        }
    }
}

/// The views of the recorded requests, in order.
pub open spec fn views(calls: Seq<RecordedCall>) -> Seq<Call> {
    calls.map_values(|c: RecordedCall| c@)
}

/// The requests kept by a [`Recorder`], with the number that the next batch or join will get.
struct Log {
    calls: Vec<RecordedCall>,
    next: PromiseIndex,
}

impl Log {
    spec fn wf(&self) -> bool {
        &&& self.next == opened(views(self.calls@))
        &&& numbered(views(self.calls@))
        &&& conforms(views(self.calls@))
    }
}

impl RecordedCall {
    fn opens(&self) -> (b: bool)
        ensures
            b == self@.opens(),
    {
        match self {
            RecordedCall::BatchCreate { .. } => true,
            RecordedCall::BatchThen { .. } => true,
            RecordedCall::And { .. } => true,
            _ => false,
        }
    }
}

/// An engine that carries nothing out: it keeps every request in order and numbers the batches
/// and joins from zero in the order in which they are opened.
pub struct Recorder {
    log: Log,
}

impl Recorder {
    #[verifier::type_invariant]
    spec fn inv(&self) -> bool {
        self.log.wf()
    }

    /// A recorder that has seen no request.
    pub fn new() -> (recorder: Recorder)
        ensures
            recorder.trace() == Seq::<Call>::empty(),
    {
        Recorder { log: Log { calls: Vec::new(), next: 0 } }
    }

    /// The requests recorded so far, oldest first.
    pub fn calls(&self) -> (calls: &Vec<RecordedCall>)
        ensures
            views(calls@) == self.trace(),
            numbered(self.trace()),
            conforms(self.trace()),
    {
        proof {
            use_type_invariant(self);
        }
        &self.log.calls
    }

    /// The number that the next batch or join will get.
    fn next_index(&self) -> (index: PromiseIndex)
        ensures
            index == opened(self.trace()),
    {
        proof {
            use_type_invariant(self);
        }
        self.log.next
    }

    /// Appends `call` to the record.
    fn record(&mut self, call: RecordedCall)
        requires
            call@.opens() ==> call@.index() == opened(old(self).trace()),
            forall|index: PromiseIndex|
                call@.refers_to(index) ==> registered(old(self).trace(), index),
        ensures
            final(self).trace() == old(self).trace().push(call@),
    {
        proof {
            use_type_invariant(&*self);
        }
        // The log is taken out and put back whole, so that the record and the count never
        // disagree inside `self`.
        let mut log = Log { calls: Vec::new(), next: 0 };
        core::mem::swap(&mut self.log, &mut log);
        proof {
            lemma_opened_push(views(log.calls@), call@);
            lemma_opened_bound(views(log.calls@));
            lemma_numbered_push(views(log.calls@), call@);
            lemma_conforms_push(views(log.calls@), call@);
            assert(views(log.calls@.push(call)) =~= views(log.calls@).push(call@));
        }
        let opens = call.opens();
        log.calls.push(call);
        if opens {
            assert(log.next < log.calls.len() <= usize::MAX);
            log.next = log.next + 1;
        }
        self.log = log;
    }
}

impl Engine for Recorder {
    closed spec fn trace(&self) -> Seq<Call> {
        views(self.log.calls@)
    }

    fn promise_batch_create(&mut self, account_id: &AccountId) -> (index: PromiseIndex)
        ensures
            index == opened(old(self).trace()),
    {
        let index = self.next_index();
        self.record(RecordedCall::BatchCreate { account_id: account_id.clone(), index });
        index
    }

    fn promise_batch_then(&mut self, after: PromiseIndex, account_id: &AccountId) -> (index:
        PromiseIndex)
        ensures
            index == opened(old(self).trace()),
    {
        let index = self.next_index();
        self.record(RecordedCall::BatchThen { after, account_id: account_id.clone(), index });
        index
    }

    fn promise_and(&mut self, promise_a: PromiseIndex, promise_b: PromiseIndex) -> (index:
        PromiseIndex)
        ensures
            index == opened(old(self).trace()),
    {
        let index = self.next_index();
        self.record(RecordedCall::And { promise_a, promise_b, index });
        index
    }

    fn promise_return(&mut self, index: PromiseIndex) {
        self.record(RecordedCall::Return { index });
    }

    fn promise_batch_action_create_account(&mut self, index: PromiseIndex) {
        self.record(RecordedCall::Action { index, action: PromiseAction::CreateAccount });
    }

    fn promise_batch_action_deploy_contract(&mut self, index: PromiseIndex, code: &[u8]) {
        let action = PromiseAction::DeployContract { code: slice_to_vec(code) };
        self.record(RecordedCall::Action { index, action });
    }

    fn promise_batch_action_function_call(
        &mut self,
        index: PromiseIndex,
        function_name: &str,
        arguments: &[u8],
        amount: Balance,
        gas: Gas,
    ) {
        let action = PromiseAction::FunctionCall {
            function_name: function_name.to_owned(),
            arguments: slice_to_vec(arguments),
            amount,
            gas,
        };
        self.record(RecordedCall::Action { index, action });
    }

    fn promise_batch_action_function_call_weight(
        &mut self,
        index: PromiseIndex,
        function_name: &str,
        arguments: &[u8],
        amount: Balance,
        gas: Gas,
        weight: GasWeight,
    ) {
        let action = PromiseAction::FunctionCallWeight {
            function_name: function_name.to_owned(),
            arguments: slice_to_vec(arguments),
            amount,
            gas,
            weight,
        };
        self.record(RecordedCall::Action { index, action });
    }

    fn promise_batch_action_transfer(&mut self, index: PromiseIndex, amount: Balance) {
        self.record(RecordedCall::Action { index, action: PromiseAction::Transfer { amount } });
    }

    fn promise_batch_action_stake(
        &mut self,
        index: PromiseIndex,
        amount: Balance,
        public_key: &PublicKey,
    ) {
        let action = PromiseAction::Stake { amount, public_key: public_key.clone() };
        self.record(RecordedCall::Action { index, action });
    }

    fn promise_batch_action_add_key_with_full_access(
        &mut self,
        index: PromiseIndex,
        public_key: &PublicKey,
        nonce: u64,
    ) {
        let action = PromiseAction::AddFullAccessKey { public_key: public_key.clone(), nonce };
        self.record(RecordedCall::Action { index, action });
    }

    fn promise_batch_action_add_key_with_function_call(
        &mut self,
        index: PromiseIndex,
        public_key: &PublicKey,
        nonce: u64,
        allowance: Balance,
        receiver_id: &AccountId,
        function_names: &str,
    ) {
        let action = PromiseAction::AddAccessKey {
            public_key: public_key.clone(),
            allowance,
            receiver_id: receiver_id.clone(),
            function_names: function_names.to_owned(),
            nonce,
        };
        self.record(RecordedCall::Action { index, action });
    }

    fn promise_batch_action_delete_key(&mut self, index: PromiseIndex, public_key: &PublicKey) {
        let action = PromiseAction::DeleteKey { public_key: public_key.clone() };
        self.record(RecordedCall::Action { index, action });
    }

    fn promise_batch_action_delete_account(
        &mut self,
        index: PromiseIndex,
        beneficiary_id: &AccountId,
    ) {
        let action = PromiseAction::DeleteAccount { beneficiary_id: beneficiary_id.clone() };
        self.record(RecordedCall::Action { index, action });
    }
}

} // verus!
