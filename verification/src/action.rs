use vstd::prelude::*;
use crate::engine::{registered, ActionView, Call, Engine};
use crate::types::{AccountId, Balance, Gas, GasWeight, PromiseIndex, PublicKey};

verus! {

/// One primitive operation of a batch, with the data needed to request it.
#[derive(Clone, Debug, PartialEq, Eq)]
pub enum PromiseAction {
    CreateAccount,
    DeployContract { code: Vec<u8> },
    FunctionCall { function_name: String, arguments: Vec<u8>, amount: Balance, gas: Gas },
    FunctionCallWeight {
        function_name: String,
        arguments: Vec<u8>,
        amount: Balance,
        gas: Gas,
        weight: GasWeight,
    },
    Transfer { amount: Balance },
    Stake { amount: Balance, public_key: PublicKey },
    AddFullAccessKey { public_key: PublicKey, nonce: u64 },
    AddAccessKey {
        public_key: PublicKey,
        allowance: Balance,
        receiver_id: AccountId,
        function_names: String,
        nonce: u64,
    },
    DeleteKey { public_key: PublicKey },
    DeleteAccount { beneficiary_id: AccountId },
}

impl View for PromiseAction {
    type V = ActionView;

    open spec fn view(&self) -> ActionView {
        match *self {
            PromiseAction::CreateAccount => ActionView::CreateAccount,
            PromiseAction::DeployContract { code } => ActionView::DeployContract { code: code@ },
            PromiseAction::FunctionCall { function_name, arguments, amount, gas } => {
                ActionView::FunctionCall {
                    function_name: function_name@,
                    arguments: arguments@,
                    amount,
                    gas,
                }
            },
            PromiseAction::FunctionCallWeight { function_name, arguments, amount, gas, weight } => {
                ActionView::FunctionCallWeight {
                    function_name: function_name@,
                    arguments: arguments@,
                    amount,
                    gas,
                    weight,
                }
            },
            PromiseAction::Transfer { amount } => ActionView::Transfer { amount },
            PromiseAction::Stake { amount, public_key } => {
                ActionView::Stake { amount, public_key: public_key@ }
            },
            PromiseAction::AddFullAccessKey { public_key, nonce } => {
                ActionView::AddFullAccessKey { public_key: public_key@, nonce }
            },
            PromiseAction::AddAccessKey {
                public_key,
                allowance,
                receiver_id,
                function_names,
                nonce,
            } => {
                ActionView::AddAccessKey {
                    public_key: public_key@,
                    allowance,
                    receiver_id: receiver_id@,
                    function_names: function_names@,
                    nonce,
                }
            },
            PromiseAction::DeleteKey { public_key } => {
                ActionView::DeleteKey { public_key: public_key@ }
            },
            PromiseAction::DeleteAccount { beneficiary_id } => {
                ActionView::DeleteAccount { beneficiary_id: beneficiary_id@ }
            },
        }
    }
}

impl PromiseAction {
    /// Requests this action of the engine, as the next one of the batch `promise_index`. The
    /// engine sees exactly one more request, which carries the action's data unchanged.
    pub fn add<E: Engine>(&self, promise_index: PromiseIndex, engine: &mut E)
        requires
            registered(old(engine).trace(), promise_index),
        ensures
            final(engine).trace() == old(engine).trace().push(
                Call::Action { index: promise_index, action: self@ },
            ),
    {
        match self {
            PromiseAction::CreateAccount => {
                engine.promise_batch_action_create_account(promise_index)
            },
            PromiseAction::DeployContract { code } => {
                engine.promise_batch_action_deploy_contract(promise_index, code.as_slice())
            },
            PromiseAction::FunctionCall { function_name, arguments, amount, gas } => {
                engine.promise_batch_action_function_call(
                    promise_index,
                    function_name.as_str(),
                    arguments.as_slice(),
                    *amount,
                    *gas,
                )
            },
            PromiseAction::FunctionCallWeight { function_name, arguments, amount, gas, weight } => {
                engine.promise_batch_action_function_call_weight(
                    promise_index,
                    function_name.as_str(),
                    arguments.as_slice(),
                    *amount,
                    *gas,
                    GasWeight(weight.0),
                )
            },
            PromiseAction::Transfer { amount } => {
                engine.promise_batch_action_transfer(promise_index, *amount)
            },
            PromiseAction::Stake { amount, public_key } => {
                engine.promise_batch_action_stake(promise_index, *amount, public_key)
            },
            PromiseAction::AddFullAccessKey { public_key, nonce } => {
                engine.promise_batch_action_add_key_with_full_access(
                    promise_index,
                    public_key,
                    *nonce,
                )
            },
            PromiseAction::AddAccessKey {
                public_key,
                allowance,
                receiver_id,
                function_names,
                nonce,
            } => {
                engine.promise_batch_action_add_key_with_function_call(
                    promise_index,
                    public_key,
                    *nonce,
                    *allowance,
                    receiver_id,
                    function_names.as_str(),
                )
            },
            PromiseAction::DeleteKey { public_key } => {
                engine.promise_batch_action_delete_key(promise_index, public_key)
            },
            PromiseAction::DeleteAccount { beneficiary_id } => {
                engine.promise_batch_action_delete_account(promise_index, beneficiary_id)
            },
        }
    }
}

} // verus!
