//! The library's laws: properties that relate several operations, stated
//! over the same spec functions the operations' own contracts use, and
//! proved once and for all.

use vstd::prelude::*;

use crate::access::ONE_UNIT;
use crate::contract::spec_declared_used;
use crate::contract::spec_refund_actual;
use crate::contract::spec_resolve_effect;
use crate::contract::spec_resolve_outcome;
use crate::contract::spec_transfer_effect;
use crate::contract::Contract;
use crate::errors::ErrorClass;
use crate::ledger::lemma_total_supply_is_balance_sum;
use crate::ledger::sum_balances;
use crate::ledger::Ledger;
use crate::metadata::TokenMetadata;

verus! {

/// Law: at every observable point the reported total supply equals the sum
/// of the stored balances, and every ledger entry reports its own balance
/// through `balance_of`. The operations' own contracts keep `wf()` across
/// every register, deposit, withdraw, transfer and resolution, so the
/// equality holds along any sequence of them; the one deviation, a burn,
/// lowers the total by exactly the amount of the burn event it logs (see
/// `spec_resolve_effect`).
pub proof fn lemma_conservation(l: Ledger)
    requires
        l.wf(),
    ensures
        l.total as int == sum_balances(l.entries@),
        forall|i: int|
            0 <= i < l.entries@.len() ==> #[trigger] l.spec_balance_of(l.entries@[i].id)
                == l.entries@[i].balance,
{
    lemma_total_supply_is_balance_sum(l);
}

/// Law: a transfer immediately followed by the reverse transfer of the
/// same amount restores both balances (round trip). The reverse transfer
/// is always admissible once the first one went through.
pub proof fn lemma_transfer_round_trip(
    c0: Contract,
    c1: Contract,
    c2: Contract,
    a: u64,
    b: u64,
    n: u128,
)
    requires
        c0.transfer_check(a, b, n, ONE_UNIT) is None,
        spec_transfer_effect(c0, c1, a, b, n),
        spec_transfer_effect(c1, c2, b, a, n),
    ensures
        c1.transfer_check(b, a, n, ONE_UNIT) is None,
        c2.spec_balance_of(a) == c0.spec_balance_of(a),
        c2.spec_balance_of(b) == c0.spec_balance_of(b),
        forall|x: u64|
            x != a && x != b ==> #[trigger] c2.spec_balance_of(x) == c0.spec_balance_of(x),
        c2.token.total == c0.token.total,
{
}

/// Law: a transfer-with-callback whose receiver declares that it used
/// nothing is, once resolved, a no-op on the ledger: the full amount flows
/// back to the sender (who, having just funded the commit phase, is still
/// registered), nothing is burned, nothing is logged, and the resolution
/// reports zero used.
pub proof fn lemma_transfer_call_full_refund(
    c0: Contract,
    c1: Contract,
    c2: Contract,
    sender: u64,
    receiver: u64,
    amount: u128,
)
    requires
        c0.transfer_check(sender, receiver, amount, ONE_UNIT) is None,
        spec_transfer_effect(c0, c1, sender, receiver, amount),
        spec_resolve_effect(c1, c2, sender, receiver, amount, Some(0u128)),
    ensures
        spec_resolve_outcome(c1, sender, receiver, amount, Some(0u128)) == (0u128, 0u128),
        forall|x: u64| #[trigger] c2.spec_balance_of(x) == c0.spec_balance_of(x),
        forall|x: u64| #[trigger] c2.spec_registered(x) == c0.spec_registered(x),
        c2.token.total == c0.token.total,
        c2.log@ == c0.log@,
        c2.frozen == c0.frozen,
{
    assert(spec_refund_actual(c1, receiver, amount, Some(0u128)) == amount);
}

/// Law: a receiver claiming to have used more than the transferred amount
/// is clamped — resolution behaves in every respect as if it had claimed
/// exactly the transferred amount.
pub proof fn lemma_resolve_clamps_overclaim(
    pre: Contract,
    sender: u64,
    receiver: u64,
    amount: u128,
    used: u128,
)
    requires
        used > amount,
    ensures
        spec_declared_used(amount, Some(used)) == spec_declared_used(amount, Some(amount)),
        spec_refund_actual(pre, receiver, amount, Some(used)) == spec_refund_actual(
            pre,
            receiver,
            amount,
            Some(amount),
        ),
        spec_resolve_outcome(pre, sender, receiver, amount, Some(used)) == spec_resolve_outcome(
            pre,
            sender,
            receiver,
            amount,
            Some(amount),
        ),
        forall|post: Contract| #[trigger] spec_resolve_effect(
            pre,
            post,
            sender,
            receiver,
            amount,
            Some(used),
        ) == spec_resolve_effect(pre, post, sender, receiver, amount, Some(amount)),
{
}

/// Law: every mutating owner-only operation invoked by a non-owner is
/// rejected with an authorization-class error (the feature gate, when it
/// fires first, is authorization too), and the operations' own contracts
/// then leave the state exactly as it was.
pub proof fn lemma_non_owner_rejected(
    c: Contract,
    caller: u64,
    attached: u128,
    amount: u128,
    metadata: TokenMetadata,
)
    requires
        caller != c.owner_id,
    ensures
        c.toggle_check(caller, attached) matches Some(e) && e.spec_class()
            == ErrorClass::Authorization,
        c.mint_check(caller, attached, amount) matches Some(e) && e.spec_class()
            == ErrorClass::Authorization,
        c.freeze_check(caller, attached) matches Some(e) && e.spec_class()
            == ErrorClass::Authorization,
        c.update_metadata_check(caller, attached, metadata) matches Some(e) && e.spec_class()
            == ErrorClass::Authorization,
{
}

} // verus!
