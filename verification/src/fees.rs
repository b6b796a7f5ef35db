use vstd::prelude::*;

verus! {

/// How a requested transfer amount splits between the recipient and the two
/// fee recipients. Derived from the amount alone, never persisted.
#[derive(Clone, Copy, Debug, PartialEq, Eq, Structural)]
pub struct FeeSplit {
    /// The total fee withheld: 2% of the amount, truncated.
    pub tax: u64,
    /// The developer wallet's share: half of the tax, truncated.
    pub developer_fee: u64,
    /// The treasury's share: the tax minus the developer fee, so the
    /// treasury absorbs the odd unit when the tax is odd.
    pub treasury_fee: u64,
    /// What actually reaches the destination: the amount minus the tax.
    pub net_amount: u64,
}

/// The total fee withheld from a transfer: 2% with truncation toward zero.
pub open spec fn spec_tax(amount: u64) -> int {
    amount as int / 50
}

/// The developer's half of the tax, truncated.
pub open spec fn spec_developer_fee(amount: u64) -> int {
    spec_tax(amount) / 2
}

/// The treasury's share: whatever of the tax the developer fee leaves.
pub open spec fn spec_treasury_fee(amount: u64) -> int {
    spec_tax(amount) - spec_developer_fee(amount)
}

/// The portion of the amount that reaches the destination after tax.
pub open spec fn spec_net_amount(amount: u64) -> int {
    amount as int - spec_tax(amount)
}

/// The full fee breakdown for a requested amount.
pub open spec fn spec_fee_split(amount: u64) -> FeeSplit {
    FeeSplit {
        tax: spec_tax(amount) as u64,
        developer_fee: spec_developer_fee(amount) as u64,
        treasury_fee: spec_treasury_fee(amount) as u64,
        net_amount: spec_net_amount(amount) as u64,
    }
}

/// The tax never exceeds the amount, and the developer fee never exceeds
/// the tax, so the two subtractions in the split cannot underflow.
pub proof fn lemma_fee_split_bounds(amount: u64)
    ensures
        0 <= spec_tax(amount) <= amount,
        0 <= spec_developer_fee(amount) <= spec_tax(amount),
{
    assert(0 <= amount as int / 50 <= amount) by (nonlinear_arith);
    assert(0 <= spec_tax(amount) / 2 <= spec_tax(amount)) by (nonlinear_arith)
        requires 0 <= spec_tax(amount);
}

/// No value is created or lost by the split: the developer fee, the treasury
/// fee and the net amount always reconstruct the requested amount exactly.
pub proof fn lemma_fee_split_conserves_amount(amount: u64)
    ensures
        spec_fee_split(amount).developer_fee + spec_fee_split(amount).treasury_fee
            + spec_fee_split(amount).net_amount == amount,
{
    lemma_fee_split_bounds(amount);
}

/// Computes the fee breakdown for a requested transfer amount: a 2% tax,
/// truncated, half of it (truncated) to the developer, the rest of the tax
/// to the treasury, and the remainder of the amount to the destination.
pub fn compute_fee_split(amount: u64) -> (r: FeeSplit)
    ensures
        r == spec_fee_split(amount),
        r.tax == amount as int / 50,
        r.developer_fee == (amount as int / 50) / 2,
        r.treasury_fee == amount as int / 50 - (amount as int / 50) / 2,
        r.net_amount == amount as int - amount as int / 50,
        r.developer_fee + r.treasury_fee + r.net_amount == amount,
{
    proof {
        lemma_fee_split_bounds(amount);
    }
    let tax = amount / 50;
    let developer_fee = tax / 2;
    let treasury_fee = tax - developer_fee;
    let net_amount = amount - tax;
    FeeSplit { tax, developer_fee, treasury_fee, net_amount }
}

} // verus!
