use vstd::prelude::*;
use core::marker::PhantomData;
use crate::action::PromiseAction;
use crate::engine::{
    lemma_registered_extends, lemma_returned_extends, registered, returned, ActionView, Call,
    Engine,
};
use crate::joint::PromiseJoint;
use crate::single::{PromiseSingle, SingleView};
use crate::types::{AccountId, Balance, Gas, GasWeight, PromiseIndex, PublicKey};

verus! {

/// What a promise wraps: a batch or a join.
enum PromiseSubtype {
    Single(PromiseSingle),
    Joint(PromiseJoint),
}

/// What a promise wraps, as a mathematical value.
pub enum SubtypeView {
    Single(SingleView),
    Joint(PromiseJoint),
}

impl SubtypeView {
    /// Every index that the node holds was handed out in `trace`.
    pub open spec fn wf(self, trace: Seq<Call>) -> bool {
        match self {
            SubtypeView::Single(single) => single.wf(trace),
            SubtypeView::Joint(joint) => joint.wf(trace),
        }
    }

    /// The index of the node, once it is registered.
    pub open spec fn promise_index(self) -> Option<PromiseIndex> {
        match self {
            SubtypeView::Single(single) => single.promise_index,
            SubtypeView::Joint(joint) => joint.promise_index,
        }
    }

    /// The requests that register the node when the engine answers `index`; none for a node that
    /// is registered.
    pub open spec fn construct_calls(self, index: PromiseIndex) -> Seq<Call> {
        match self {
            SubtypeView::Single(single) => single.construct_calls(index),
            SubtypeView::Joint(joint) => joint.construct_calls(index),
        }
    }

    /// The node once it is registered as `index`.
    pub open spec fn constructed(self, index: PromiseIndex) -> SubtypeView {
        match self {
            SubtypeView::Single(single) => SubtypeView::Single(single.constructed(index)),
            SubtypeView::Joint(joint) => SubtypeView::Joint(joint.constructed(index)),
        }
    }
}

impl View for PromiseSubtype {
    type V = SubtypeView;

    closed spec fn view(&self) -> SubtypeView {
        match *self {
            PromiseSubtype::Single(single) => SubtypeView::Single(single@),
            PromiseSubtype::Joint(joint) => SubtypeView::Joint(joint),
        }
    }
}

/// A promise as a mathematical value: the node it wraps, whether its result is to become the
/// result of the current call, and whether the engine has been told so.
pub struct PromiseView {
    pub subtype: SubtypeView,
    pub should_return: bool,
    pub reported: bool,
}

impl PromiseView {
    /// A promise for `account_id` with nothing to do yet.
    pub open spec fn fresh(account_id: Seq<char>) -> PromiseView {
        PromiseView {
            subtype: SubtypeView::Single(SingleView::fresh(account_id)),
            should_return: false,
            reported: false,
        }
    }

    /// Every index that the promise holds was handed out in `trace`, and if the engine has
    /// been told that the result of the promise is the result of the current call, then the
    /// promise is marked so and registered, and a request of `trace` names its index so.
    pub open spec fn wf(self, trace: Seq<Call>) -> bool {
        &&& self.subtype.wf(trace)
        &&& self.reported ==> self.should_return && (self.subtype.promise_index() matches Some(
            index,
        ) && returned(trace, index))
    }

    /// Whether the promise wraps a join.
    pub open spec fn is_joint(self) -> bool {
        self.subtype is Joint
    }

    /// Whether the promise wraps a batch that waits for another batch or join.
    pub open spec fn has_predecessor(self) -> bool {
        self.subtype matches SubtypeView::Single(single) && single.after is Some
    }

    /// Whether the node has been registered with the engine.
    pub open spec fn is_registered(self) -> bool {
        self.subtype.promise_index() is Some
    }

    /// Whether an action can be added: the promise wraps a batch, and the batch has not been
    /// registered, so that the action will still reach the engine.
    pub open spec fn accepts_actions(self) -> bool {
        !self.is_joint() && !self.is_registered()
    }

    /// Whether the promise can be made to wait for another: it wraps a batch that waits for none.
    pub open spec fn accepts_predecessor(self) -> bool {
        !self.is_joint() && !self.has_predecessor()
    }

    /// Whether finalizing the promise can yield `index`: once registered it yields the index it
    /// has, before that whatever the engine answers.
    pub open spec fn admits(self, index: PromiseIndex) -> bool {
        self.subtype.promise_index() matches Some(known) ==> index == known
    }

    /// The promise with `action` added at the end of its batch. A join stays as it is.
    pub open spec fn with_action(self, action: ActionView) -> PromiseView {
        match self.subtype {
            SubtypeView::Single(single) => PromiseView {
                subtype: SubtypeView::Single(
                    SingleView { actions: single.actions.push(action), ..single },
                ),
                ..self
            },
            SubtypeView::Joint(_) => self,
        }
    }

    /// The promise made to wait for `after`. A join stays as it is.
    pub open spec fn with_predecessor(self, after: PromiseIndex) -> PromiseView {
        match self.subtype {
            SubtypeView::Single(single) => PromiseView {
                subtype: SubtypeView::Single(SingleView { after: Some(after), ..single }),
                ..self
            },
            SubtypeView::Joint(_) => self,
        }
    }

    /// The promise marked as the one whose result the current call returns.
    pub open spec fn as_return(self) -> PromiseView {
        PromiseView { should_return: true, ..self }
    }

    /// Whether the next finalization has to tell the engine that the result of the promise is
    /// the result of the current call: the promise is marked so, and the engine has not been
    /// told yet.
    pub open spec fn owes_report(self) -> bool {
        self.should_return && !self.reported
    }

    /// The requests that finalizing the promise makes when the engine answers `index`: those
    /// that register its node, if it is not registered yet, and then, if the promise owes the
    /// report, the one that makes `index` the result of the current call.
    pub open spec fn construct_calls(self, index: PromiseIndex) -> Seq<Call> {
        self.subtype.construct_calls(index) + if self.owes_report() {
            seq![Call::Return { index }]
        } else {
            Seq::empty()
        }
    }

    /// The promise once it is finalized with the engine answering `index`: its node is
    /// registered as `index`, and a report that was owed has been made.
    pub open spec fn constructed(self, index: PromiseIndex) -> PromiseView {
        PromiseView {
            subtype: self.subtype.constructed(index),
            reported: self.reported || self.should_return,
            ..self
        }
    }
}

/// Indices that a promise holds stay registered whatever is requested afterwards.
pub proof fn lemma_wf_extends(promise: PromiseView, trace: Seq<Call>, more: Seq<Call>)
    requires
        promise.wf(trace),
    ensures
        promise.wf(trace + more),
{
    match promise.subtype {
        SubtypeView::Single(single) => {
            if let Some(after) = single.after {
                lemma_registered_extends(trace, more, after);
            }
            if let Some(index) = single.promise_index {
                lemma_registered_extends(trace, more, index);
            }
        },
        SubtypeView::Joint(joint) => {
            lemma_registered_extends(trace, more, joint.promise_a);
            lemma_registered_extends(trace, more, joint.promise_b);
            if let Some(index) = joint.promise_index {
                lemma_registered_extends(trace, more, index);
            }
        },
    }
    if promise.reported {
        lemma_returned_extends(trace, more, promise.subtype.promise_index()->Some_0);
    }
}

/// The result of work scheduled on another account: a batch of actions, or the join of two
/// promises. Nothing reaches the engine before the promise is finalized, or named in `then` or
/// `and`; after that the engine knows its node under one index for good.
pub struct Promise<T = ()> {
    subtype: PromiseSubtype,
    should_return: bool,
    /// Whether the engine has been told that the result of this promise is the result of the
    /// current call. It is told once.
    reported: bool,
    _marker: PhantomData<T>,
}

impl<T> View for Promise<T> {
    type V = PromiseView;

    closed spec fn view(&self) -> PromiseView {
        PromiseView {
            subtype: self.subtype@,
            should_return: self.should_return,
            reported: self.reported,
        }
    }
}

impl Promise<()> {
    /// Creates a promise that acts on the given account.
    pub fn new(account_id: AccountId) -> (promise: Self)
        ensures
            promise@ == PromiseView::fresh(account_id@),
    {
        Self::new_with_return(account_id)
    }
}

impl<T> Promise<T> {
    /// Creates a promise that acts on the given account and whose result has type `T`.
    pub fn new_with_return(account_id: AccountId) -> (promise: Self)
        ensures
            promise@ == PromiseView::fresh(account_id@),
    {
        let promise = Self {
            subtype: PromiseSubtype::Single(
                PromiseSingle {
                    account_id,
                    actions: Vec::new(),
                    after: None,
                    promise_index: None,
                },
            ),
            should_return: false,
            reported: false,
            _marker: PhantomData,
        };
        assert(promise@.subtype->Single_0.actions == Seq::<ActionView>::empty());
        promise
    }

    /// Adds `action` at the end of the batch. The promise must wrap a batch that is not
    /// registered yet: a join takes no actions, and a registered batch would lose this one.
    fn add_action(self, action: PromiseAction) -> (promise: Self)
        requires
            self@.accepts_actions(),
        ensures
            promise@ == self@.with_action(action@),
    {
        let mut promise = self;
        match &mut promise.subtype {
            PromiseSubtype::Single(x) => {
                x.actions.push(action);
            },
            PromiseSubtype::Joint(_) => {},
        }
        assert(promise@.subtype->Single_0.actions == self@.subtype->Single_0.actions.push(action@));
        promise
    }

    /// Marks the promise as the one whose result the current call returns. Nothing is requested
    /// of the engine before the promise is finalized, and the engine is told once, however
    /// often the promise is marked or finalized.
    pub fn as_return(self) -> (promise: Self)
        ensures
            promise@ == self@.as_return(),
    {
        let mut promise = self;
        promise.should_return = true;
        promise
    }

    /// Whether the promise wraps a join, which takes no actions and no predecessor.
    pub fn is_joint(&self) -> (b: bool)
        ensures
            b == self@.is_joint(),
    {
        match &self.subtype {
            PromiseSubtype::Single(_) => false,
            PromiseSubtype::Joint(_) => true,
        }
    }

    /// Whether the promise wraps a batch that already waits for another batch or join.
    pub fn has_predecessor(&self) -> (b: bool)
        ensures
            b == self@.has_predecessor(),
    {
        match &self.subtype {
            PromiseSubtype::Single(x) => x.after.is_some(),
            PromiseSubtype::Joint(_) => false,
        }
    }

    /// Whether the node of the promise has been registered with the engine.
    pub fn is_registered(&self) -> (b: bool)
        ensures
            b == self@.is_registered(),
    {
        match &self.subtype {
            PromiseSubtype::Single(x) => x.promise_index.is_some(),
            PromiseSubtype::Joint(x) => x.promise_index.is_some(),
        }
    }

    /// Create account on which this promise acts.
    pub fn create_account(self) -> (promise: Self)
        requires
            self@.accepts_actions(),
        ensures
            promise@ == self@.with_action(ActionView::CreateAccount),
    {
        self.add_action(PromiseAction::CreateAccount)
    }

    /// Deploy a smart contract to the account on which this promise acts.
    pub fn deploy_contract(self, code: Vec<u8>) -> (promise: Self)
        requires
            self@.accepts_actions(),
        ensures
            promise@ == self@.with_action(ActionView::DeployContract { code: code@ }),
    {
        self.add_action(PromiseAction::DeployContract { code })
    }

    /// A low-level interface for making a function call to the account that this promise acts
    /// on.
    pub fn function_call(
        self,
        function_name: String,
        arguments: Vec<u8>,
        amount: Balance,
        gas: Gas,
    ) -> (promise: Self)
        requires
            self@.accepts_actions(),
        ensures
            promise@ == self@.with_action(
                ActionView::FunctionCall {
                    function_name: function_name@,
                    arguments: arguments@,
                    amount,
                    gas,
                },
            ),
    {
        self.add_action(PromiseAction::FunctionCall { function_name, arguments, amount, gas })
    }

    /// A low-level interface for making a function call to the account that this promise acts
    /// on. Unlike [`Promise::function_call`], this function accepts a weight to use relative
    /// unused gas on this function call at the end of the scheduling method execution.
    pub fn function_call_weight(
        self,
        function_name: String,
        arguments: Vec<u8>,
        amount: Balance,
        gas: Gas,
        weight: GasWeight,
    ) -> (promise: Self)
        requires
            self@.accepts_actions(),
        ensures
            promise@ == self@.with_action(
                ActionView::FunctionCallWeight {
                    function_name: function_name@,
                    arguments: arguments@,
                    amount,
                    gas,
                    weight,
                },
            ),
    {
        self.add_action(
            PromiseAction::FunctionCallWeight { function_name, arguments, amount, gas, weight },
        )
    }

    /// Transfer tokens to the account that this promise acts on.
    pub fn transfer(self, amount: Balance) -> (promise: Self)
        requires
            self@.accepts_actions(),
        ensures
            promise@ == self@.with_action(ActionView::Transfer { amount }),
    {
        self.add_action(PromiseAction::Transfer { amount })
    }

    /// Stake the account for the given amount of tokens using the given public key.
    pub fn stake(self, amount: Balance, public_key: PublicKey) -> (promise: Self)
        requires
            self@.accepts_actions(),
        ensures
            promise@ == self@.with_action(ActionView::Stake { amount, public_key: public_key@ }),
    {
        self.add_action(PromiseAction::Stake { amount, public_key })
    }

    /// Add full access key to the given account.
    pub fn add_full_access_key(self, public_key: PublicKey) -> (promise: Self)
        requires
            self@.accepts_actions(),
        ensures
            promise@ == self@.with_action(
                ActionView::AddFullAccessKey { public_key: public_key@, nonce: 0 },
            ),
    {
        self.add_full_access_key_with_nonce(public_key, 0)
    }

    /// Add full access key to the given account with a provided nonce.
    pub fn add_full_access_key_with_nonce(self, public_key: PublicKey, nonce: u64) -> (promise:
        Self)
        requires
            self@.accepts_actions(),
        ensures
            promise@ == self@.with_action(
                ActionView::AddFullAccessKey { public_key: public_key@, nonce },
            ),
    {
        self.add_action(PromiseAction::AddFullAccessKey { public_key, nonce })
    }

    /// Add an access key that is restricted to only calling a smart contract on some account
    /// using only a restricted set of methods. Here `function_names` is a comma separated list
    /// of methods, e.g. `"method_a,method_b".to_string()`.
    pub fn add_access_key(
        self,
        public_key: PublicKey,
        allowance: Balance,
        receiver_id: AccountId,
        function_names: String,
    ) -> (promise: Self)
        requires
            self@.accepts_actions(),
        ensures
            promise@ == self@.with_action(
                ActionView::AddAccessKey {
                    public_key: public_key@,
                    allowance,
                    receiver_id: receiver_id@,
                    function_names: function_names@,
                    nonce: 0,
                },
            ),
    {
        self.add_access_key_with_nonce(public_key, allowance, receiver_id, function_names, 0)
    }

    /// Add an access key with a provided nonce.
    pub fn add_access_key_with_nonce(
        self,
        public_key: PublicKey,
        allowance: Balance,
        receiver_id: AccountId,
        function_names: String,
        nonce: u64,
    ) -> (promise: Self)
        requires
            self@.accepts_actions(),
        ensures
            promise@ == self@.with_action(
                ActionView::AddAccessKey {
                    public_key: public_key@,
                    allowance,
                    receiver_id: receiver_id@,
                    function_names: function_names@,
                    nonce,
                },
            ),
    {
        self.add_action(
            PromiseAction::AddAccessKey {
                public_key,
                allowance,
                receiver_id,
                function_names,
                nonce,
            },
        )
    }

    /// Delete access key from the given account.
    pub fn delete_key(self, public_key: PublicKey) -> (promise: Self)
        requires
            self@.accepts_actions(),
        ensures
            promise@ == self@.with_action(ActionView::DeleteKey { public_key: public_key@ }),
    {
        self.add_action(PromiseAction::DeleteKey { public_key })
    }

    /// Delete the given account.
    pub fn delete_account(self, beneficiary_id: AccountId) -> (promise: Self)
        requires
            self@.accepts_actions(),
        ensures
            promise@ == self@.with_action(
                ActionView::DeleteAccount { beneficiary_id: beneficiary_id@ },
            ),
    {
        self.add_action(PromiseAction::DeleteAccount { beneficiary_id })
    }

    /// Merges this promise with another one, so that further work can be scheduled right after
    /// both have finished.
    ///
    /// Both promises are finalized here, this one first: when the call returns the engine knows
    /// both, with all their actions, and the new promise holds their indices. The join itself is
    /// requested only when the new promise is finalized. The new promise takes no actions.
    pub fn and<O, E: Engine>(self, other: Promise<O>, engine: &mut E) -> (promise: Promise<
        PromiseAnd<T, O>,
    >)
        requires
            self@.wf(old(engine).trace()),
            other@.wf(old(engine).trace()),
        ensures
            !promise@.should_return,
            !promise@.reported,
            (promise@.subtype matches SubtypeView::Joint(joint) && {
                &&& joint.promise_index is None
                &&& self@.admits(joint.promise_a)
                &&& other@.admits(joint.promise_b)
                &&& final(engine).trace() == old(engine).trace() + self@.construct_calls(
                    joint.promise_a,
                ) + other@.construct_calls(joint.promise_b)
            }),
            promise@.wf(final(engine).trace()),
    {
        let mut first = self;
        let mut second = other;
        let promise_a = first.construct_recursively(engine);
        proof {
            lemma_wf_extends(other@, old(engine).trace(), self@.construct_calls(promise_a));
        }
        let promise_b = second.construct_recursively(engine);
        proof {
            lemma_registered_extends(
                old(engine).trace() + self@.construct_calls(promise_a),
                other@.construct_calls(promise_b),
                promise_a,
            );
        }
        Promise {
            subtype: PromiseSubtype::Joint(
                PromiseJoint { promise_a, promise_b, promise_index: None },
            ),
            should_return: false,
            reported: false,
            _marker: PhantomData,
        }
    }

    /// Schedules `other` to run right after this promise has finished, and returns `other`.
    ///
    /// This promise is finalized here: when the call returns the engine knows it, with all its
    /// actions, and `other` holds its index as the one to wait for. `other` itself is registered
    /// only when it is finalized in turn. `other` must wrap a batch that waits for nothing yet.
    pub fn then<O, E: Engine>(self, other: Promise<O>, engine: &mut E) -> (promise: Promise<O>)
        requires
            self@.wf(old(engine).trace()),
            other@.accepts_predecessor(),
        ensures
            (promise@.subtype matches SubtypeView::Single(single) && single.after matches Some(
                after,
            ) && {
                &&& self@.admits(after)
                &&& promise@ == other@.with_predecessor(after)
                &&& final(engine).trace() == old(engine).trace() + self@.construct_calls(after)
                &&& registered(final(engine).trace(), after)
            }),
            other@.wf(old(engine).trace()) ==> promise@.wf(final(engine).trace()),
    {
        other.wait_for(self, engine)
    }

    /// Makes this promise wait for `first`, and returns this promise: `next.wait_for(first, ..)`
    /// is `first.then(next, ..)`, read from the side of the promise that waits.
    ///
    /// `first` is finalized here: when the call returns the engine knows it, with all its
    /// actions, and this promise holds its index as the one to wait for. This promise itself is
    /// registered only when it is finalized in turn. It must wrap a batch that waits for nothing
    /// yet.
    pub fn wait_for<F, E: Engine>(self, first: Promise<F>, engine: &mut E) -> (promise: Self)
        requires
            first@.wf(old(engine).trace()),
            self@.accepts_predecessor(),
        ensures
            (promise@.subtype matches SubtypeView::Single(single) && single.after matches Some(
                after,
            ) && {
                &&& first@.admits(after)
                &&& promise@ == self@.with_predecessor(after)
                &&& final(engine).trace() == old(engine).trace() + first@.construct_calls(after)
                &&& registered(final(engine).trace(), after)
            }),
            self@.wf(old(engine).trace()) ==> promise@.wf(final(engine).trace()),
    {
        let mut predecessor = first;
        let mut promise = self;
        let after = predecessor.construct_recursively(engine);
        match &mut promise.subtype {
            PromiseSubtype::Single(x) => {
                x.after = Some(after);
            },
            PromiseSubtype::Joint(_) => {},
        }
        proof {
            if self@.wf(old(engine).trace()) {
                lemma_wf_extends(self@, old(engine).trace(), first@.construct_calls(after));
            }
        }
        promise
    }

    /// Finalizes the promise: registers its node with the engine unless that was done before,
    /// then, if the promise is marked as the return value and the engine has not been told yet,
    /// tells the engine that the node's index is the result of the current call. Returns the
    /// index.
    ///
    /// Finalizing again returns the same index and requests nothing, unless the promise was
    /// marked in between: then the one request that names the return value is made.
    pub fn construct_recursively<E: Engine>(&mut self, engine: &mut E) -> (index: PromiseIndex)
        requires
            old(self)@.wf(old(engine).trace()),
        ensures
            old(self)@.admits(index),
            final(self)@ == old(self)@.constructed(index),
            final(engine).trace() == old(engine).trace() + old(self)@.construct_calls(index),
            final(self)@.wf(final(engine).trace()),
    {
        let res = match &mut self.subtype {
            PromiseSubtype::Single(x) => x.construct_recursively(engine),
            PromiseSubtype::Joint(x) => x.construct_recursively(engine),
        };
        let ghost registered_trace = engine.trace();
        proof {
            if old(self)@.reported {
                lemma_returned_extends(
                    old(engine).trace(),
                    old(self)@.subtype.construct_calls(res),
                    res,
                );
            }
        }
        if self.should_return && !self.reported {
            let ghost registered_promise = self@;
            engine.promise_return(res);
            self.reported = true;
            proof {
                let call = Call::Return { index: res };
                assert(registered_trace.push(call) == registered_trace + seq![call]);
                lemma_wf_extends(registered_promise, registered_trace, seq![call]);
                assert(engine.trace()[registered_trace.len() as int] == call);
            }
        }
        res
    }
}

/// Either a promise or a value that is known already, for a call that may answer with one or
/// the other.
pub enum PromiseOrValue<T> {
    Promise(Promise<T>),
    Value(T),
}

impl<T> PromiseOrValue<T> {
    /// Prepares the content for being handed out as the result of the current call: a promise
    /// is marked as the one whose result the call returns, and reports it to the engine when it
    /// is finalized; a value stays as it is, ready to be encoded.
    pub fn as_return(self) -> (marked: Self)
        ensures
            (match self {
                PromiseOrValue::Promise(promise) => marked matches PromiseOrValue::Promise(p)
                    && p@ == promise@.as_return(),
                PromiseOrValue::Value(value) => marked == PromiseOrValue::Value(value),
            }),
    {
        match self {
            PromiseOrValue::Promise(promise) => PromiseOrValue::Promise(promise.as_return()),
            PromiseOrValue::Value(value) => PromiseOrValue::Value(value),
        }
    }
}

impl<T> From<Promise<T>> for PromiseOrValue<T> {
    fn from(promise: Promise<T>) -> (wrapped: Self) {
        PromiseOrValue::Promise(promise)
    }
}

impl<T> vstd::std_specs::convert::FromSpecImpl<Promise<T>> for PromiseOrValue<T> {
    open spec fn obeys_from_spec() -> bool {
        true
    }

    open spec fn from_spec(promise: Promise<T>) -> Self {
        PromiseOrValue::Promise(promise)
    }
}

/// Marks the result type of promises that were merged and run in parallel: the result of the
/// left one, then that of the right one.
pub struct PromiseAnd<L, R> {
    _marker: PhantomData<(L, R)>,
}

impl<L, R> PromiseAnd<L, R> {
    /// The name under which the result type of two merged promises is declared, given the
    /// names under which the left and the right result type are declared.
    pub fn declaration(left: &str, right: &str) -> (name: String)
        ensures
            name@ == "PromiseAnd<"@ + left@ + ", "@ + right@ + ">"@,
    {
        let mut name = String::from_str("PromiseAnd<");
        name.append(left);
        name.append(", ");
        name.append(right);
        name.append(">");
        name
    }

    /// The names of the parts of which the result of two merged promises consists, given the
    /// names under which the left and the right result type are declared: the left one, then
    /// the right one.
    pub fn elements(left: String, right: String) -> (parts: Vec<String>)
        ensures
            parts@ == seq![left, right],
    {
        let mut parts = Vec::new();
        parts.push(left);
        parts.push(right);
        parts
    }
}

} // verus!
