use vstd::prelude::*;
use crate::types::{AccountId, Balance, Gas, GasWeight, PromiseIndex, PublicKey};

verus! {

/// What one action asks for, as the engine sees it.
pub enum ActionView {
    CreateAccount,
    DeployContract { code: Seq<u8> },
    FunctionCall { function_name: Seq<char>, arguments: Seq<u8>, amount: Balance, gas: Gas },
    FunctionCallWeight {
        function_name: Seq<char>,
        arguments: Seq<u8>,
        amount: Balance,
        gas: Gas,
        weight: GasWeight,
    },
    Transfer { amount: Balance },
    Stake { amount: Balance, public_key: Seq<u8> },
    AddFullAccessKey { public_key: Seq<u8>, nonce: u64 },
    AddAccessKey {
        public_key: Seq<u8>,
        allowance: Balance,
        receiver_id: Seq<char>,
        function_names: Seq<char>,
        nonce: u64,
    },
    DeleteKey { public_key: Seq<u8> },
    DeleteAccount { beneficiary_id: Seq<char> },
}

/// One request that the engine has served, together with the index it answered with where the
/// request opens a batch or a join.
pub enum Call {
    /// A batch for `account_id` that waits for nothing.
    BatchCreate { account_id: Seq<char>, index: PromiseIndex },
    /// A batch for `account_id` that runs once `after` has finished.
    BatchThen { after: PromiseIndex, account_id: Seq<char>, index: PromiseIndex },
    /// One more action at the end of batch `index`.
    Action { index: PromiseIndex, action: ActionView },
    /// A join that finishes once both `promise_a` and `promise_b` have.
    And { promise_a: PromiseIndex, promise_b: PromiseIndex, index: PromiseIndex },
    /// The result of `index` becomes the result of the current call.
    Return { index: PromiseIndex },
}

impl Call {
    /// Whether this request opened a batch or a join.
    pub open spec fn opens(self) -> bool {
        self is BatchCreate || self is BatchThen || self is And
    }

    /// The batch or join that this request opened, or of which it speaks.
    pub open spec fn index(self) -> PromiseIndex {
        match self {
            Call::BatchCreate { index, .. } => index,
            Call::BatchThen { index, .. } => index,
            Call::Action { index, .. } => index,
            Call::And { index, .. } => index,
            Call::Return { index } => index,
        }
    }

    /// Whether this request opened the batch or join known as `index`.
    pub open spec fn creates(self, index: PromiseIndex) -> bool {
        self.opens() && self.index() == index
    }

    /// Whether this request names `index` as a batch or join that exists already: the one to
    /// wait for, the batch to add to, an operand of a join, or the one whose result is returned.
    pub open spec fn refers_to(self, index: PromiseIndex) -> bool {
        match self {
            Call::BatchCreate { .. } => false,
            Call::BatchThen { after, .. } => after == index,
            Call::Action { index: batch, .. } => batch == index,
            Call::And { promise_a, promise_b, .. } => promise_a == index || promise_b == index,
            Call::Return { index: returned } => returned == index,
        }
    }
}

/// Whether some request of `trace` opened the batch or join known as `index`.
pub open spec fn registered(trace: Seq<Call>, index: PromiseIndex) -> bool {
    exists|k: int| 0 <= k < trace.len() && (#[trigger] trace[k]).creates(index)
}

/// Whether some request of `trace` made the result of `index` the result of the current call.
pub open spec fn returned(trace: Seq<Call>, index: PromiseIndex) -> bool {
    exists|k: int| 0 <= k < trace.len() && #[trigger] trace[k] == (Call::Return { index })
}

/// Whether every request of `trace` names only batches and joins that were opened before it.
pub open spec fn conforms(trace: Seq<Call>) -> bool {
    forall|k: int, index: PromiseIndex|
        0 <= k < trace.len() && #[trigger] trace[k].refers_to(index) ==> registered(
            trace.take(k),
            index,
        )
}

/// An index stays registered whatever is requested afterwards.
pub proof fn lemma_registered_extends(trace: Seq<Call>, more: Seq<Call>, index: PromiseIndex)
    requires
        registered(trace, index),
    ensures
        registered(trace + more, index),
{
    let k = choose|k: int| 0 <= k < trace.len() && (#[trigger] trace[k]).creates(index);
    assert((trace + more)[k] == trace[k]);
}

/// Requests that name only what was opened before them still do so after one more request
/// that names only what is registered.
pub proof fn lemma_conforms_push(trace: Seq<Call>, call: Call)
    requires
        conforms(trace),
        forall|index: PromiseIndex| call.refers_to(index) ==> registered(trace, index),
    ensures
        conforms(trace.push(call)),
{
    let longer = trace.push(call);
    assert forall|k: int, index: PromiseIndex|
        0 <= k < longer.len() && #[trigger] longer[k].refers_to(index) implies registered(
        longer.take(k),
        index,
    ) by {
        if k < trace.len() {
            assert(longer.take(k) == trace.take(k));
        } else {
            assert(longer.take(k) == trace);
        }
    }
}

/// A return value stays named whatever is requested afterwards.
pub proof fn lemma_returned_extends(trace: Seq<Call>, more: Seq<Call>, index: PromiseIndex)
    requires
        returned(trace, index),
    ensures
        returned(trace + more, index),
{
    let k = choose|k: int| 0 <= k < trace.len() && #[trigger] trace[k] == (Call::Return { index });
    assert((trace + more)[k] == trace[k]);
}

/// A request that opens `index` registers it.
pub proof fn lemma_registered_by(trace: Seq<Call>, call: Call, index: PromiseIndex)
    requires
        call.creates(index),
    ensures
        registered(trace.push(call), index),
{
    assert(trace.push(call)[trace.len() as int] == call);
}

/// The execution engine that carries out batches and joins. It serves one request at a time and
/// remembers them in order; nothing else is assumed of it. A request that names an index must name
/// one that the engine handed out before.
pub trait Engine {
    /// The requests served so far, oldest first.
    spec fn trace(&self) -> Seq<Call>;

    /// Opens a batch of actions for `account_id`.
    fn promise_batch_create(&mut self, account_id: &AccountId) -> (index: PromiseIndex)
        ensures
            final(self).trace() == old(self).trace().push(
                Call::BatchCreate { account_id: account_id@, index },
            ),
    ;

    /// Opens a batch of actions for `account_id` that runs after `after`.
    fn promise_batch_then(&mut self, after: PromiseIndex, account_id: &AccountId) -> (index:
        PromiseIndex)
        requires
            registered(old(self).trace(), after),
        ensures
            final(self).trace() == old(self).trace().push(
                Call::BatchThen { after, account_id: account_id@, index },
            ),
    ;

    /// Opens a join of `promise_a` and `promise_b`.
    fn promise_and(&mut self, promise_a: PromiseIndex, promise_b: PromiseIndex) -> (index:
        PromiseIndex)
        requires
            registered(old(self).trace(), promise_a),
            registered(old(self).trace(), promise_b),
        ensures
            final(self).trace() == old(self).trace().push(
                Call::And { promise_a, promise_b, index },
            ),
    ;

    /// Makes the result of `index` the result of the current call.
    fn promise_return(&mut self, index: PromiseIndex)
        requires
            registered(old(self).trace(), index),
        ensures
            final(self).trace() == old(self).trace().push(Call::Return { index }),
    ;

    /// Asks batch `index` to create the account it acts on.
    fn promise_batch_action_create_account(&mut self, index: PromiseIndex)
        requires
            registered(old(self).trace(), index),
        ensures
            final(self).trace() == old(self).trace().push(
                Call::Action { index, action: ActionView::CreateAccount },
            ),
    ;

    /// Asks batch `index` to deploy the contract `code` to its account.
    fn promise_batch_action_deploy_contract(&mut self, index: PromiseIndex, code: &[u8])
        requires
            registered(old(self).trace(), index),
        ensures
            final(self).trace() == old(self).trace().push(
                Call::Action { index, action: ActionView::DeployContract { code: code@ } },
            ),
    ;

    /// Asks batch `index` to call `function_name` of its account with `arguments`, attaching
    /// `amount` tokens and `gas` gas.
    fn promise_batch_action_function_call(
        &mut self,
        index: PromiseIndex,
        function_name: &str,
        arguments: &[u8],
        amount: Balance,
        gas: Gas,
    )
        requires
            registered(old(self).trace(), index),
        ensures
            final(self).trace() == old(self).trace().push(
                Call::Action {
                    index,
                    action: ActionView::FunctionCall {
                        function_name: function_name@,
                        arguments: arguments@,
                        amount,
                        gas,
                    },
                },
            ),
    ;

    /// Asks batch `index` for a function call that also takes a share, by `weight`, of the gas
    /// left unused at the end of the scheduling call.
    fn promise_batch_action_function_call_weight(
        &mut self,
        index: PromiseIndex,
        function_name: &str,
        arguments: &[u8],
        amount: Balance,
        gas: Gas,
        weight: GasWeight,
    )
        requires
            registered(old(self).trace(), index),
        ensures
            final(self).trace() == old(self).trace().push(
                Call::Action {
                    index,
                    action: ActionView::FunctionCallWeight {
                        function_name: function_name@,
                        arguments: arguments@,
                        amount,
                        gas,
                        weight,
                    },
                },
            ),
    ;

    /// Asks batch `index` to transfer `amount` tokens to its account.
    fn promise_batch_action_transfer(&mut self, index: PromiseIndex, amount: Balance)
        requires
            registered(old(self).trace(), index),
        ensures
            final(self).trace() == old(self).trace().push(
                Call::Action { index, action: ActionView::Transfer { amount } },
            ),
    ;

    /// Asks batch `index` to stake `amount` tokens of its account with `public_key`.
    fn promise_batch_action_stake(
        &mut self,
        index: PromiseIndex,
        amount: Balance,
        public_key: &PublicKey,
    )
        requires
            registered(old(self).trace(), index),
        ensures
            final(self).trace() == old(self).trace().push(
                Call::Action {
                    index,
                    action: ActionView::Stake { amount, public_key: public_key@ },
                },
            ),
    ;

    /// Asks batch `index` to give `public_key` full access to its account.
    fn promise_batch_action_add_key_with_full_access(
        &mut self,
        index: PromiseIndex,
        public_key: &PublicKey,
        nonce: u64,
    )
        requires
            registered(old(self).trace(), index),
        ensures
            final(self).trace() == old(self).trace().push(
                Call::Action {
                    index,
                    action: ActionView::AddFullAccessKey { public_key: public_key@, nonce },
                },
            ),
    ;

    /// Asks batch `index` to let `public_key` call the methods `function_names` of
    /// `receiver_id`, spending up to `allowance`.
    fn promise_batch_action_add_key_with_function_call(
        &mut self,
        index: PromiseIndex,
        public_key: &PublicKey,
        nonce: u64,
        allowance: Balance,
        receiver_id: &AccountId,
        function_names: &str,
    )
        requires
            registered(old(self).trace(), index),
        ensures
            final(self).trace() == old(self).trace().push(
                Call::Action {
                    index,
                    action: ActionView::AddAccessKey {
                        public_key: public_key@,
                        allowance,
                        receiver_id: receiver_id@,
                        function_names: function_names@,
                        nonce,
                    },
                },
            ),
    ;

    /// Asks batch `index` to remove `public_key` from its account.
    fn promise_batch_action_delete_key(&mut self, index: PromiseIndex, public_key: &PublicKey)
        requires
            registered(old(self).trace(), index),
        ensures
            final(self).trace() == old(self).trace().push(
                Call::Action { index, action: ActionView::DeleteKey { public_key: public_key@ } },
            ),
    ;

    /// Asks batch `index` to delete its account and leave what it holds to `beneficiary_id`.
    fn promise_batch_action_delete_account(
        &mut self,
        index: PromiseIndex,
        beneficiary_id: &AccountId,
    )
        requires
            registered(old(self).trace(), index),
        ensures
            final(self).trace() == old(self).trace().push(
                Call::Action {
                    index,
                    action: ActionView::DeleteAccount { beneficiary_id: beneficiary_id@ },
                },
            ),
    ;
}

} // verus!
