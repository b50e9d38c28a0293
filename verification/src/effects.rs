use vstd::prelude::*;

verus! {

/// A holder of tokens or shares: the vault itself, or a principal known by
/// its identifier.
#[derive(Copy, Clone, Debug, PartialEq, Eq, Hash, Structural)]
pub enum Account {
    Vault,
    Principal(u64),
}

/// A movement of value that an operation asks the token contracts to make.
#[derive(Copy, Clone, Debug, PartialEq, Eq, Structural)]
pub enum Effect {
    /// Move `amount` of the underlying asset.
    TransferTokens { from: Account, to: Account, amount: i128 },
    /// Move `amount` of the share token.
    TransferShares { from: Account, to: Account, amount: i128 },
    /// Create `amount` new shares for `receiver`.
    MintShares { receiver: u64, amount: i128 },
    /// Destroy `amount` shares held in the vault's custody.
    BurnShares { amount: i128 },
}

/// What an operation reports to observers once it has succeeded.
#[derive(Copy, Clone, Debug, PartialEq, Eq, Structural)]
pub enum VaultEvent {
    Deposit { receiver: u64, tokens: i128, shares: i128 },
    Mint { receiver: u64, shares: i128, tokens: i128 },
    RequestRedeem { owner: u64, shares: i128, unlock_time: u64 },
    Redeem { owner: u64, receiver: u64, shares: i128, tokens: i128 },
    EmergencyRedeem { owner: u64, shares: i128, tokens: i128, penalty: i128 },
    CancelRedeem { owner: u64, shares: i128 },
    Borrow { strategy: u64, amount: i128, borrowed: i128 },
    Repay { strategy: u64, amount: i128, borrowed: i128 },
    TransferTo { strategy: u64, amount: i128, net_impact: i128 },
    TransferFrom { strategy: u64, amount: i128, net_impact: i128 },
    ShareTransfer { from: u64, to: u64, amount: i128 },
}

/// The outcome of a successful operation: the amount it returns to its
/// caller, the value movements to carry out, in order, and the event to
/// publish.
#[derive(Debug)]
pub struct Receipt {
    pub amount: i128,
    pub effects: Vec<Effect>,
    pub event: VaultEvent,
}

/// The list of one effect.
pub fn one_effect(a: Effect) -> (r: Vec<Effect>)
    ensures
        r@ == seq![a],
{
    let mut v: Vec<Effect> = Vec::new();
    v.push(a);
    assert(v@ =~= seq![a]);
    v
}

/// The list of two effects, in the order given.
pub fn two_effects(a: Effect, b: Effect) -> (r: Vec<Effect>)
    ensures
        r@ == seq![a, b],
{
    let mut v: Vec<Effect> = Vec::new();
    v.push(a);
    v.push(b);
    assert(v@ =~= seq![a, b]);
    v
}

/// The list of three effects, in the order given.
pub fn three_effects(a: Effect, b: Effect, c: Effect) -> (r: Vec<Effect>)
    ensures
        r@ == seq![a, b, c],
{
    let mut v: Vec<Effect> = Vec::new();
    v.push(a);
    v.push(b);
    v.push(c);
    assert(v@ =~= seq![a, b, c]);
    v
}

impl Receipt {
    /// Whether this receipt reports `amount`, asks for exactly `effects`
    /// and publishes `event`.
    pub open spec fn reports(self, amount: int, effects: Seq<Effect>, event: VaultEvent) -> bool {
        &&& self.amount == amount
        &&& self.effects@ == effects
        &&& self.event == event
    }
}

} // verus!
