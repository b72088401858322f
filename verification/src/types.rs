use vstd::prelude::*;

verus! {

/// Name of an account. Its syntax is the engine's concern and is not examined here.
pub type AccountId = String;

/// Public key in its binary encoding. The encoding is the engine's concern.
pub type PublicKey = Vec<u8>;

/// Token amount, in the smallest unit.
pub type Balance = u128;

/// Amount of gas attached to a function call.
pub type Gas = u64;

/// Index under which the engine knows a registered batch or join.
pub type PromiseIndex = u64;

/// Share of the gas left unused at the end of the scheduling call that a function call receives,
/// relative to the weights of the other calls.
#[derive(Clone, Copy, Debug, PartialEq, Eq)]
pub struct GasWeight(pub u64);

} // verus!
