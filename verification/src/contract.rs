//! The token contract: the ledger, the freeze registry, the feature
//! toggles, the metadata record and the event log, together with the
//! transfer protocol.
//!
//! Every entry point takes the facts the host would supply — the caller's
//! identity and the attached deposit — as plain arguments, checks its whole
//! precondition cascade before touching any state, and on rejection leaves
//! the contract exactly as it was (atomic abort).

use vstd::prelude::*;

use crate::access;
use crate::errors::Feature;
use crate::errors::TokenError;
use crate::events::Event;
use crate::freeze::FreezeRegistry;
use crate::ledger::Ledger;
use crate::metadata::TokenMetadata;
use crate::storage::ACCOUNT_STORAGE_COST;

verus! {

/// Version tag of the metadata schema `default_metadata` follows.
pub const FT_METADATA_SPEC: &'static str = "ft-1.0.0";

/// The three independent feature toggles, mutable only by the owner.
#[derive(Clone, Copy, Debug, PartialEq, Eq, Structural)]
pub struct Config {
    pub use_mint: bool,
    pub use_freeze: bool,
    pub use_update_metadata: bool,
}

/// A committed transfer-with-callback, awaiting the receiver's usage report
/// and the resolution callback. The surrounding process dispatches
/// `(sender_id, amount, msg)` to the receiver and later hands the outcome
/// to `ft_resolve_transfer`.
pub struct PendingTransfer {
    pub sender_id: u64,
    pub receiver_id: u64,
    pub amount: u128,
    pub msg: String,
}

/// The single-ledger token contract.
pub struct Contract {
    pub token: Ledger,
    pub metadata: TokenMetadata,
    pub owner_id: u64,
    pub frozen: FreezeRegistry,
    pub config: Config,
    pub log: Vec<Event>,
}

/// Neither owner, toggles nor metadata changed.
pub open spec fn same_admin(pre: Contract, post: Contract) -> bool {
    &&& post.owner_id == pre.owner_id
    &&& post.config == pre.config
    &&& post.metadata == pre.metadata
}

/// No account's balance changed.
pub open spec fn same_balances(pre: Contract, post: Contract) -> bool {
    forall|x: u64| #[trigger] post.spec_balance_of(x) == pre.spec_balance_of(x)
}

/// No account's registration changed.
pub open spec fn same_registered(pre: Contract, post: Contract) -> bool {
    forall|x: u64| #[trigger] post.spec_registered(x) == pre.spec_registered(x)
}

/// Everything a successful transfer of `amount` from `sender` to
/// `receiver` does, and nothing more: the amount moves, every other
/// balance, the registrations, the total supply, the freeze registry, the
/// log and the administrative state stay.
pub open spec fn spec_transfer_effect(
    pre: Contract,
    post: Contract,
    sender: u64,
    receiver: u64,
    amount: u128,
) -> bool {
    &&& post.token.wf()
    &&& post.spec_balance_of(sender) == pre.spec_balance_of(sender) - amount
    &&& post.spec_balance_of(receiver) == pre.spec_balance_of(receiver) + amount
    &&& forall|x: u64|
        x != sender && x != receiver ==> #[trigger] post.spec_balance_of(x)
            == pre.spec_balance_of(x)
    &&& same_registered(pre, post)
    &&& post.token.total == pre.token.total
    &&& post.frozen == pre.frozen
    &&& post.log@ == pre.log@
    &&& same_admin(pre, post)
}

/// The amount the receiver is taken to have used: its declared figure
/// clamped to the transferred amount, or zero when the receiver's call
/// failed outright.
pub open spec fn spec_declared_used(amount: u128, response: Option<u128>) -> u128 {
    match response {
        Some(u) => if u > amount {
            amount
        } else {
            u
        },
        None => 0,
    }
}

/// The refund the resolution step actually moves: the unused remainder,
/// capped by what the receiver still holds.
pub open spec fn spec_refund_actual(
    pre: Contract,
    receiver: u64,
    amount: u128,
    response: Option<u128>,
) -> u128 {
    let request = (amount - spec_declared_used(amount, response)) as u128;
    let held = pre.spec_balance_of(receiver);
    if request <= held {
        request
    } else {
        held
    }
}

/// What `ft_resolve_transfer` reports: the amount treated as used by the
/// receiver, and the amount burned because the sender's account vanished.
pub open spec fn spec_resolve_outcome(
    pre: Contract,
    sender: u64,
    receiver: u64,
    amount: u128,
    response: Option<u128>,
) -> (u128, u128) {
    let refund = spec_refund_actual(pre, receiver, amount, response);
    if refund > 0 {
        if pre.spec_registered(sender) {
            (((amount - refund) as u128), 0)
        } else {
            (amount, refund)
        }
    } else {
        (amount, 0)
    }
}

/// Everything the resolution step does, and nothing more: the refund moves
/// back from the receiver to a still-registered sender, or is burned — the
/// total supply dropping by exactly the burned amount, with a burn event
/// logged — when the sender's entry is gone.
pub open spec fn spec_resolve_effect(
    pre: Contract,
    post: Contract,
    sender: u64,
    receiver: u64,
    amount: u128,
    response: Option<u128>,
) -> bool {
    let refund = spec_refund_actual(pre, receiver, amount, response);
    let burned = spec_resolve_outcome(pre, sender, receiver, amount, response).1;
    let returned = if burned == 0 {
        refund
    } else {
        0
    };
    &&& post.token.wf()
    &&& post.spec_balance_of(receiver) == pre.spec_balance_of(receiver) - refund
    &&& post.spec_balance_of(sender) == pre.spec_balance_of(sender) + returned
    &&& forall|x: u64|
        x != sender && x != receiver ==> #[trigger] post.spec_balance_of(x)
            == pre.spec_balance_of(x)
    &&& same_registered(pre, post)
    &&& post.token.total == pre.token.total - burned
    &&& post.log@ == if burned > 0 {
        pre.log@.push(Event::Burn { account: sender, amount: burned })
    } else {
        pre.log@
    }
    &&& post.frozen == pre.frozen
    &&& same_admin(pre, post)
}

/// A default metadata record, for constructions that do not supply one.
pub fn default_metadata() -> (m: TokenMetadata)
    ensures
        m.valid(),
        m.spec_version@ == FT_METADATA_SPEC@,
        m.name@ == "Example NEAR fungible token"@,
        m.symbol@ == "EXAMPLE"@,
        m.icon is Some,
        m.reference is None,
        m.reference_hash is None,
        m.decimals == 24,
{
    proof {
        reveal_strlit("Example NEAR fungible token");
        reveal_strlit("EXAMPLE");
    }
    TokenMetadata {
        spec_version: String::from_str(FT_METADATA_SPEC),
        name: String::from_str("Example NEAR fungible token"),
        symbol: String::from_str("EXAMPLE"),
        icon: Some(String::from_str(
            "data:image/svg+xml,%3Csvg xmlns='http://www.w3.org/2000/svg' viewBox='0 0 288 288'%3E%3Cg id='l' data-name='l'%3E%3Cpath d='M187.58,79.81l-30.1,44.69a3.2,3.2,0,0,0,4.75,4.2L191.86,103a1.2,1.2,0,0,1,2,.91v80.46a1.2,1.2,0,0,1-2.12.77L102.18,77.93A15.35,15.35,0,0,0,90.47,72.5H87.34A15.34,15.34,0,0,0,72,87.84V201.16A15.34,15.34,0,0,0,87.34,216.5h0a15.35,15.35,0,0,0,13.08-7.31l30.1-44.69a3.2,3.2,0,0,0-4.75-4.2L96.14,186a1.2,1.2,0,0,1-2-.91V104.61a1.2,1.2,0,0,1,2.12-.77l89.55,107.23a15.35,15.35,0,0,0,11.71,5.43h3.13A15.34,15.34,0,0,0,216,201.16V87.84A15.34,15.34,0,0,0,200.66,72.5h0A15.35,15.35,0,0,0,187.58,79.81Z'/%3E%3C/g%3E%3C/svg%3E",
        )),
        reference: None,
        reference_hash: None,
        decimals: 24,
    }
}

impl Contract {
    /// Well-formed: the ledger conserves its total and accounts are unique,
    /// in the ledger and in the freeze registry alike.
    pub open spec fn wf(self) -> bool {
        &&& self.token.wf()
        &&& self.frozen.distinct()
    }

    pub open spec fn spec_balance_of(self, account: u64) -> u128 {
        self.token.spec_balance_of(account)
    }

    pub open spec fn spec_registered(self, account: u64) -> bool {
        self.token.spec_registered(account)
    }

    pub open spec fn spec_frozen(self, account: u64) -> bool {
        self.frozen.spec_frozen(account)
    }

    /// Why construction is rejected, if it is.
    pub open spec fn new_check(metadata: TokenMetadata) -> Option<TokenError> {
        if !metadata.valid() {
            Some(TokenError::InvalidMetadata)
        } else {
            None
        }
    }

    /// Initializes the contract: the whole supply is minted to the owner,
    /// who holds the only ledger entry, and one mint event is logged.
    /// Whether the surrounding process already holds an initialized
    /// instance is the process's own check, made before this call.
    pub fn new(
        owner_id: u64,
        total_supply: u128,
        metadata: TokenMetadata,
        use_mint: bool,
        use_freeze: bool,
        use_update_metadata: bool,
    ) -> (r: Result<Contract, TokenError>)
        ensures
            match r {
                Ok(c) => {
                    &&& Self::new_check(metadata) is None
                    &&& c.wf()
                    &&& c.owner_id == owner_id
                    &&& c.spec_balance_of(owner_id) == total_supply
                    &&& forall|x: u64| #[trigger] c.spec_registered(x) == (x == owner_id)
                    &&& forall|x: u64|
                        x != owner_id ==> #[trigger] c.spec_balance_of(x) == 0
                    &&& c.token.total == total_supply
                    &&& forall|x: u64| !(#[trigger] c.spec_frozen(x))
                    &&& c.config == (Config { use_mint, use_freeze, use_update_metadata })
                    &&& c.metadata == metadata
                    &&& c.log@ == seq![Event::Mint { owner: owner_id, amount: total_supply }]
                },
                Err(e) => Self::new_check(metadata) == Some(e),
            },
    {
        if !metadata.is_valid() {
            return Err(TokenError::InvalidMetadata);
        }
        let mut token = Ledger::new();
        let reg = token.register(owner_id);
        proof {
            assert(reg is Ok);
        }
        let dep = token.deposit(owner_id, total_supply);
        proof {
            assert(dep is Ok);
        }
        let mut log: Vec<Event> = Vec::new();
        log.push(Event::Mint { owner: owner_id, amount: total_supply });
        Ok(
            Contract {
                token,
                metadata,
                owner_id,
                frozen: FreezeRegistry::new(),
                config: Config { use_mint, use_freeze, use_update_metadata },
                log,
            },
        )
    }

    /// Initializes the contract with the default metadata record and all
    /// three feature toggles off.
    pub fn new_default_meta(owner_id: u64, total_supply: u128) -> (r: Result<
        Contract,
        TokenError,
    >)
        ensures
            match r {
                Ok(c) => {
                    &&& c.wf()
                    &&& c.owner_id == owner_id
                    &&& c.spec_balance_of(owner_id) == total_supply
                    &&& forall|x: u64| #[trigger] c.spec_registered(x) == (x == owner_id)
                    &&& forall|x: u64|
                        x != owner_id ==> #[trigger] c.spec_balance_of(x) == 0
                    &&& c.token.total == total_supply
                    &&& forall|x: u64| !(#[trigger] c.spec_frozen(x))
                    &&& c.config == (Config {
                        use_mint: false,
                        use_freeze: false,
                        use_update_metadata: false,
                    })
                    &&& c.metadata.valid()
                    &&& c.log@ == seq![Event::Mint { owner: owner_id, amount: total_supply }]
                },
                Err(_) => false,
            },
    {
        Self::new(owner_id, total_supply, default_metadata(), false, false, false)
    }

    pub fn get_use_mint(&self) -> (r: bool)
        ensures
            r == self.config.use_mint,
    {
        self.config.use_mint
    }

    pub fn get_use_freeze(&self) -> (r: bool)
        ensures
            r == self.config.use_freeze,
    {
        self.config.use_freeze
    }

    pub fn get_use_update_metadata(&self) -> (r: bool)
        ensures
            r == self.config.use_update_metadata,
    {
        self.config.use_update_metadata
    }

    /// The stored metadata record.
    pub fn ft_metadata(&self) -> (m: &TokenMetadata)
        ensures
            *m == self.metadata,
    {
        &self.metadata
    }

    /// The total supply: the sum of all ledger entries.
    pub fn ft_total_supply(&self) -> (r: u128)
        ensures
            r == self.token.total,
    {
        self.token.total_supply()
    }

    /// The balance of an account; zero for unregistered accounts, never an
    /// error.
    pub fn ft_balance_of(&self, account_id: u64) -> (r: u128)
        requires
            self.wf(),
        ensures
            r == self.spec_balance_of(account_id),
    {
        self.token.balance_of(account_id)
    }

    /// The event log so far.
    pub fn events(&self) -> (r: &Vec<Event>)
        ensures
            r@ == self.log@,
    {
        &self.log
    }

    /// Why an owner-gated toggle update is rejected, if it is.
    pub open spec fn toggle_check(self, caller: u64, attached: u128) -> Option<TokenError> {
        if caller != self.owner_id {
            Some(TokenError::NotOwner)
        } else if attached != access::ONE_UNIT {
            Some(TokenError::DepositMismatch)
        } else {
            None
        }
    }

    /// Switches the mint feature on or off. Owner-only, one-unit deposit.
    pub fn update_use_mint(&mut self, caller: u64, attached: u128, use_mint: bool) -> (r: Result<
        (),
        TokenError,
    >)
        requires
            old(self).wf(),
        ensures
            final(self).wf(),
            match old(self).toggle_check(caller, attached) {
                Some(e) => r == Err::<(), TokenError>(e) && *final(self) == *old(self),
                None => {
                    &&& r == Ok::<(), TokenError>(())
                    &&& final(self).config == (Config { use_mint, ..old(self).config })
                    &&& final(self).token == old(self).token
                    &&& final(self).frozen == old(self).frozen
                    &&& final(self).owner_id == old(self).owner_id
                    &&& final(self).metadata == old(self).metadata
                    &&& final(self).log@ == old(self).log@.push(
                        Event::MintToggled { enabled: use_mint },
                    )
                },
            },
            caller != old(self).owner_id ==> *final(self) == *old(self) && (r matches Err(e)
                && e.spec_class() == crate::errors::ErrorClass::Authorization),
    {
        match access::require_owner(self.owner_id, caller) {
            Err(e) => return Err(e),
            Ok(()) => {},
        }
        match access::require_exact_one_unit_deposit(attached) {
            Err(e) => return Err(e),
            Ok(()) => {},
        }
        self.config.use_mint = use_mint;
        self.log.push(Event::MintToggled { enabled: use_mint });
        Ok(())
    }

    /// Switches the freeze feature on or off. Owner-only, one-unit deposit.
    pub fn update_use_freeze(&mut self, caller: u64, attached: u128, use_freeze: bool) -> (r:
        Result<(), TokenError>)
        requires
            old(self).wf(),
        ensures
            final(self).wf(),
            match old(self).toggle_check(caller, attached) {
                Some(e) => r == Err::<(), TokenError>(e) && *final(self) == *old(self),
                None => {
                    &&& r == Ok::<(), TokenError>(())
                    &&& final(self).config == (Config { use_freeze, ..old(self).config })
                    &&& final(self).token == old(self).token
                    &&& final(self).frozen == old(self).frozen
                    &&& final(self).owner_id == old(self).owner_id
                    &&& final(self).metadata == old(self).metadata
                    &&& final(self).log@ == old(self).log@.push(
                        Event::FreezeToggled { enabled: use_freeze },
                    )
                },
            },
            caller != old(self).owner_id ==> *final(self) == *old(self) && (r matches Err(e)
                && e.spec_class() == crate::errors::ErrorClass::Authorization),
    {
        match access::require_owner(self.owner_id, caller) {
            Err(e) => return Err(e),
            Ok(()) => {},
        }
        match access::require_exact_one_unit_deposit(attached) {
            Err(e) => return Err(e),
            Ok(()) => {},
        }
        self.config.use_freeze = use_freeze;
        self.log.push(Event::FreezeToggled { enabled: use_freeze });
        Ok(())
    }

    /// Switches the metadata-update feature on or off. Owner-only, one-unit
    /// deposit.
    pub fn update_use_update_metadata(
        &mut self,
        caller: u64,
        attached: u128,
        use_update_metadata: bool,
    ) -> (r: Result<(), TokenError>)
        requires
            old(self).wf(),
        ensures
            final(self).wf(),
            match old(self).toggle_check(caller, attached) {
                Some(e) => r == Err::<(), TokenError>(e) && *final(self) == *old(self),
                None => {
                    &&& r == Ok::<(), TokenError>(())
                    &&& final(self).config == (Config {
                        use_update_metadata,
                        ..old(self).config
                    })
                    &&& final(self).token == old(self).token
                    &&& final(self).frozen == old(self).frozen
                    &&& final(self).owner_id == old(self).owner_id
                    &&& final(self).metadata == old(self).metadata
                    &&& final(self).log@ == old(self).log@.push(
                        Event::MetadataUpdateToggled { enabled: use_update_metadata },
                    )
                },
            },
            caller != old(self).owner_id ==> *final(self) == *old(self) && (r matches Err(e)
                && e.spec_class() == crate::errors::ErrorClass::Authorization),
    {
        match access::require_owner(self.owner_id, caller) {
            Err(e) => return Err(e),
            Ok(()) => {},
        }
        match access::require_exact_one_unit_deposit(attached) {
            Err(e) => return Err(e),
            Ok(()) => {},
        }
        self.config.use_update_metadata = use_update_metadata;
        self.log.push(Event::MetadataUpdateToggled { enabled: use_update_metadata });
        Ok(())
    }

    /// Why a mint is rejected, if it is.
    pub open spec fn mint_check(self, caller: u64, attached: u128, amount: u128) -> Option<
        TokenError,
    > {
        if !self.config.use_mint {
            Some(TokenError::FeatureDisabled(Feature::Mint))
        } else if caller != self.owner_id {
            Some(TokenError::NotOwner)
        } else if attached != access::ONE_UNIT {
            Some(TokenError::DepositMismatch)
        } else if !self.spec_registered(self.owner_id) {
            Some(TokenError::NotRegistered)
        } else if self.token.total + amount > u128::MAX {
            Some(TokenError::Overflow)
        } else {
            None
        }
    }

    /// Mints `amount` new tokens to the owner's own balance and logs a mint
    /// event. Requires the mint feature, the owner as caller, and a
    /// one-unit deposit.
    pub fn mint(&mut self, caller: u64, attached: u128, amount: u128) -> (r: Result<
        (),
        TokenError,
    >)
        requires
            old(self).wf(),
        ensures
            final(self).wf(),
            match old(self).mint_check(caller, attached, amount) {
                Some(e) => r == Err::<(), TokenError>(e) && *final(self) == *old(self),
                None => {
                    &&& r == Ok::<(), TokenError>(())
                    &&& final(self).spec_balance_of(old(self).owner_id) == old(
                        self,
                    ).spec_balance_of(old(self).owner_id) + amount
                    &&& forall|x: u64|
                        x != old(self).owner_id ==> #[trigger] final(self).spec_balance_of(x)
                            == old(self).spec_balance_of(x)
                    &&& same_registered(*old(self), *final(self))
                    &&& final(self).token.total == old(self).token.total + amount
                    &&& final(self).log@ == old(self).log@.push(
                        Event::Mint { owner: old(self).owner_id, amount },
                    )
                    &&& final(self).frozen == old(self).frozen
                    &&& same_admin(*old(self), *final(self))
                },
            },
            caller != old(self).owner_id ==> *final(self) == *old(self) && (r matches Err(e)
                && e.spec_class() == crate::errors::ErrorClass::Authorization),
    {
        match access::require_feature_enabled(self.config.use_mint, Feature::Mint) {
            Err(e) => return Err(e),
            Ok(()) => {},
        }
        match access::require_owner(self.owner_id, caller) {
            Err(e) => return Err(e),
            Ok(()) => {},
        }
        match access::require_exact_one_unit_deposit(attached) {
            Err(e) => return Err(e),
            Ok(()) => {},
        }
        let owner = self.owner_id;
        match self.token.deposit(owner, amount) {
            Err(e) => Err(e),
            Ok(()) => {
                self.log.push(Event::Mint { owner, amount });
                Ok(())
            },
        }
    }

    /// Why a freeze or unfreeze is rejected, if it is.
    pub open spec fn freeze_check(self, caller: u64, attached: u128) -> Option<TokenError> {
        if !self.config.use_freeze {
            Some(TokenError::FeatureDisabled(Feature::Freeze))
        } else if caller != self.owner_id {
            Some(TokenError::NotOwner)
        } else if attached != access::ONE_UNIT {
            Some(TokenError::DepositMismatch)
        } else {
            None
        }
    }

    /// Raises the account's freeze flag, idempotently. Requires the freeze
    /// feature, the owner as caller, and a one-unit deposit.
    pub fn freeze_account(&mut self, caller: u64, attached: u128, account_id: u64) -> (r: Result<
        (),
        TokenError,
    >)
        requires
            old(self).wf(),
        ensures
            final(self).wf(),
            match old(self).freeze_check(caller, attached) {
                Some(e) => r == Err::<(), TokenError>(e) && *final(self) == *old(self),
                None => {
                    &&& r == Ok::<(), TokenError>(())
                    &&& final(self).spec_frozen(account_id)
                    &&& forall|x: u64|
                        x != account_id ==> #[trigger] final(self).spec_frozen(x) == old(
                            self,
                        ).spec_frozen(x)
                    &&& final(self).token == old(self).token
                    &&& final(self).log@ == old(self).log@.push(
                        Event::AccountFrozen { account: account_id },
                    )
                    &&& same_admin(*old(self), *final(self))
                },
            },
            caller != old(self).owner_id ==> *final(self) == *old(self) && (r matches Err(e)
                && e.spec_class() == crate::errors::ErrorClass::Authorization),
    {
        match access::require_feature_enabled(self.config.use_freeze, Feature::Freeze) {
            Err(e) => return Err(e),
            Ok(()) => {},
        }
        match access::require_owner(self.owner_id, caller) {
            Err(e) => return Err(e),
            Ok(()) => {},
        }
        match access::require_exact_one_unit_deposit(attached) {
            Err(e) => return Err(e),
            Ok(()) => {},
        }
        self.frozen.set(account_id, true);
        self.log.push(Event::AccountFrozen { account: account_id });
        Ok(())
    }

    /// Clears the account's freeze flag, idempotently. Requires the freeze
    /// feature, the owner as caller, and a one-unit deposit.
    pub fn unfreeze_account(&mut self, caller: u64, attached: u128, account_id: u64) -> (r:
        Result<(), TokenError>)
        requires
            old(self).wf(),
        ensures
            final(self).wf(),
            match old(self).freeze_check(caller, attached) {
                Some(e) => r == Err::<(), TokenError>(e) && *final(self) == *old(self),
                None => {
                    &&& r == Ok::<(), TokenError>(())
                    &&& !final(self).spec_frozen(account_id)
                    &&& forall|x: u64|
                        x != account_id ==> #[trigger] final(self).spec_frozen(x) == old(
                            self,
                        ).spec_frozen(x)
                    &&& final(self).token == old(self).token
                    &&& final(self).log@ == old(self).log@.push(
                        Event::AccountUnfrozen { account: account_id },
                    )
                    &&& same_admin(*old(self), *final(self))
                },
            },
            caller != old(self).owner_id ==> *final(self) == *old(self) && (r matches Err(e)
                && e.spec_class() == crate::errors::ErrorClass::Authorization),
    {
        match access::require_feature_enabled(self.config.use_freeze, Feature::Freeze) {
            Err(e) => return Err(e),
            Ok(()) => {},
        }
        match access::require_owner(self.owner_id, caller) {
            Err(e) => return Err(e),
            Ok(()) => {},
        }
        match access::require_exact_one_unit_deposit(attached) {
            Err(e) => return Err(e),
            Ok(()) => {},
        }
        self.frozen.set(account_id, false);
        self.log.push(Event::AccountUnfrozen { account: account_id });
        Ok(())
    }

    /// Whether the account is frozen. Queryable only while the freeze
    /// feature is live; false for accounts with no explicit flag.
    pub fn is_frozen(&self, account_id: u64) -> (r: Result<bool, TokenError>)
        requires
            self.wf(),
        ensures
            r == if self.config.use_freeze {
                Ok::<bool, TokenError>(self.spec_frozen(account_id))
            } else {
                Err::<bool, TokenError>(TokenError::FeatureDisabled(Feature::Freeze))
            },
    {
        match access::require_feature_enabled(self.config.use_freeze, Feature::Freeze) {
            Err(e) => Err(e),
            Ok(()) => Ok(self.frozen.is_frozen(account_id)),
        }
    }

    /// Why a metadata replacement is rejected, if it is.
    pub open spec fn update_metadata_check(
        self,
        caller: u64,
        attached: u128,
        metadata: TokenMetadata,
    ) -> Option<TokenError> {
        if !self.config.use_update_metadata {
            Some(TokenError::FeatureDisabled(Feature::MetadataUpdate))
        } else if caller != self.owner_id {
            Some(TokenError::NotOwner)
        } else if attached != access::ONE_UNIT {
            Some(TokenError::DepositMismatch)
        } else if !metadata.valid() {
            Some(TokenError::InvalidMetadata)
        } else {
            None
        }
    }

    /// Replaces the stored metadata record wholesale. Requires the
    /// metadata-update feature, the owner as caller, a one-unit deposit,
    /// and a structurally valid record.
    pub fn update_metadata(&mut self, caller: u64, attached: u128, metadata: TokenMetadata) -> (r:
        Result<(), TokenError>)
        requires
            old(self).wf(),
        ensures
            final(self).wf(),
            match old(self).update_metadata_check(caller, attached, metadata) {
                Some(e) => r == Err::<(), TokenError>(e) && *final(self) == *old(self),
                None => {
                    &&& r == Ok::<(), TokenError>(())
                    &&& final(self).metadata == metadata
                    &&& final(self).token == old(self).token
                    &&& final(self).frozen == old(self).frozen
                    &&& final(self).config == old(self).config
                    &&& final(self).owner_id == old(self).owner_id
                    &&& final(self).log@ == old(self).log@
                },
            },
            caller != old(self).owner_id ==> *final(self) == *old(self) && (r matches Err(e)
                && e.spec_class() == crate::errors::ErrorClass::Authorization),
    {
        match access::require_feature_enabled(
            self.config.use_update_metadata,
            Feature::MetadataUpdate,
        ) {
            Err(e) => return Err(e),
            Ok(()) => {},
        }
        match access::require_owner(self.owner_id, caller) {
            Err(e) => return Err(e),
            Ok(()) => {},
        }
        match access::require_exact_one_unit_deposit(attached) {
            Err(e) => return Err(e),
            Ok(()) => {},
        }
        if !metadata.is_valid() {
            return Err(TokenError::InvalidMetadata);
        }
        self.metadata = metadata;
        Ok(())
    }

    /// Why an account registration is rejected, if it is.
    pub open spec fn register_check(self, account_id: u64, attached: u128) -> Option<TokenError> {
        if self.spec_registered(account_id) {
            Some(TokenError::AlreadyRegistered)
        } else if attached < ACCOUNT_STORAGE_COST {
            Some(TokenError::InsufficientStorageDeposit)
        } else {
            None
        }
    }

    /// Registers an account with a zero balance, paid for by the attached
    /// storage deposit; the excess over the storage cost is returned for
    /// the process to refund.
    pub fn register_account(&mut self, account_id: u64, attached: u128) -> (r: Result<
        u128,
        TokenError,
    >)
        requires
            old(self).wf(),
        ensures
            final(self).wf(),
            match old(self).register_check(account_id, attached) {
                Some(e) => r == Err::<u128, TokenError>(e) && *final(self) == *old(self),
                None => {
                    &&& r == Ok::<u128, TokenError>((attached - ACCOUNT_STORAGE_COST) as u128)
                    &&& forall|x: u64| #[trigger] final(self).spec_registered(x) == (x
                        == account_id || old(self).spec_registered(x))
                    &&& same_balances(*old(self), *final(self))
                    &&& final(self).token.total == old(self).token.total
                    &&& final(self).frozen == old(self).frozen
                    &&& final(self).log@ == old(self).log@
                    &&& same_admin(*old(self), *final(self))
                },
            },
    {
        if attached < ACCOUNT_STORAGE_COST {
            if self.token.is_registered(account_id) {
                return Err(TokenError::AlreadyRegistered);
            }
            return Err(TokenError::InsufficientStorageDeposit);
        }
        match self.token.register(account_id) {
            Err(e) => Err(e),
            Ok(()) => Ok(attached - ACCOUNT_STORAGE_COST),
        }
    }

    /// Why an account unregistration is rejected, if it is.
    pub open spec fn unregister_check(self, account_id: u64) -> Option<TokenError> {
        if !self.spec_registered(account_id) {
            Some(TokenError::NotRegistered)
        } else if self.spec_balance_of(account_id) != 0 {
            Some(TokenError::BalanceNonZero)
        } else {
            None
        }
    }

    /// Gives up the account's (zero-balance) ledger entry, logs the
    /// closure, and returns the storage cost for the process to refund.
    pub fn unregister_account(&mut self, account_id: u64) -> (r: Result<u128, TokenError>)
        requires
            old(self).wf(),
        ensures
            final(self).wf(),
            match old(self).unregister_check(account_id) {
                Some(e) => r == Err::<u128, TokenError>(e) && *final(self) == *old(self),
                None => {
                    &&& r == Ok::<u128, TokenError>(ACCOUNT_STORAGE_COST)
                    &&& forall|x: u64| #[trigger] final(self).spec_registered(x) == (old(
                        self,
                    ).spec_registered(x) && x != account_id)
                    &&& same_balances(*old(self), *final(self))
                    &&& final(self).token.total == old(self).token.total
                    &&& final(self).frozen == old(self).frozen
                    &&& final(self).log@ == old(self).log@.push(
                        Event::AccountClosed { account: account_id, balance: 0 },
                    )
                    &&& same_admin(*old(self), *final(self))
                },
            },
    {
        match self.token.unregister(account_id) {
            Err(e) => Err(e),
            Ok(()) => {
                self.log.push(Event::AccountClosed { account: account_id, balance: 0 });
                Ok(ACCOUNT_STORAGE_COST)
            },
        }
    }

    /// Why a transfer is rejected, if it is: frozen parties first (when the
    /// freeze feature is live), then the deposit convention, then the
    /// request's own shape, then the receiver's registration, then the
    /// sender's funds.
    pub open spec fn transfer_check(
        self,
        sender: u64,
        receiver: u64,
        amount: u128,
        attached: u128,
    ) -> Option<TokenError> {
        if self.config.use_freeze && self.spec_frozen(sender) {
            Some(TokenError::SenderFrozen)
        } else if self.config.use_freeze && self.spec_frozen(receiver) {
            Some(TokenError::ReceiverFrozen)
        } else if attached != access::ONE_UNIT {
            Some(TokenError::DepositMismatch)
        } else if sender == receiver {
            Some(TokenError::SelfTransfer)
        } else if amount == 0 {
            Some(TokenError::ZeroAmount)
        } else if !self.spec_registered(receiver) {
            Some(TokenError::NotRegistered)
        } else if amount > self.spec_balance_of(sender) {
            Some(TokenError::InsufficientBalance)
        } else {
            None
        }
    }

    /// The shared body of `ft_transfer` and the commit phase of
    /// `ft_transfer_call`: checks the whole cascade, then moves the amount.
    fn transfer_internal(&mut self, sender: u64, receiver: u64, amount: u128, attached: u128) -> (r:
        Result<(), TokenError>)
        requires
            old(self).wf(),
        ensures
            final(self).wf(),
            match old(self).transfer_check(sender, receiver, amount, attached) {
                Some(e) => r == Err::<(), TokenError>(e) && *final(self) == *old(self),
                None => r == Ok::<(), TokenError>(()) && spec_transfer_effect(
                    *old(self),
                    *final(self),
                    sender,
                    receiver,
                    amount,
                ),
            },
    {
        if self.config.use_freeze {
            if self.frozen.is_frozen(sender) {
                return Err(TokenError::SenderFrozen);
            }
            if self.frozen.is_frozen(receiver) {
                return Err(TokenError::ReceiverFrozen);
            }
        }
        match access::require_exact_one_unit_deposit(attached) {
            Err(e) => return Err(e),
            Ok(()) => {},
        }
        if sender == receiver {
            return Err(TokenError::SelfTransfer);
        }
        if amount == 0 {
            return Err(TokenError::ZeroAmount);
        }
        if !self.token.is_registered(receiver) {
            return Err(TokenError::NotRegistered);
        }
        match self.token.withdraw(sender, amount) {
            Err(e) => Err(e),
            Ok(()) => {
                let dep = self.token.deposit(receiver, amount);
                proof {
                    assert(dep is Ok);
                }
                Ok(())
            },
        }
    }

    /// Synchronous transfer: moves `amount` from the caller to a
    /// registered, unfrozen receiver; no partial effect on any rejection.
    #[allow(unused_variables)]
    pub fn ft_transfer(
        &mut self,
        caller: u64,
        attached: u128,
        receiver_id: u64,
        amount: u128,
        memo: Option<String>,
    ) -> (r: Result<(), TokenError>)
        requires
            old(self).wf(),
        ensures
            final(self).wf(),
            match old(self).transfer_check(caller, receiver_id, amount, attached) {
                Some(e) => r == Err::<(), TokenError>(e) && *final(self) == *old(self),
                None => r == Ok::<(), TokenError>(()) && spec_transfer_effect(
                    *old(self),
                    *final(self),
                    caller,
                    receiver_id,
                    amount,
                ),
            },
    {
        self.transfer_internal(caller, receiver_id, amount, attached)
    }

    /// The commit phase of a transfer-with-callback: the same checks and
    /// the same optimistic movement as `ft_transfer`, plus the dispatch
    /// record the process must deliver to the receiver, whose eventual
    /// outcome feeds `ft_resolve_transfer`.
    #[allow(unused_variables)]
    pub fn ft_transfer_call(
        &mut self,
        caller: u64,
        attached: u128,
        receiver_id: u64,
        amount: u128,
        memo: Option<String>,
        msg: String,
    ) -> (r: Result<PendingTransfer, TokenError>)
        requires
            old(self).wf(),
        ensures
            final(self).wf(),
            match old(self).transfer_check(caller, receiver_id, amount, attached) {
                Some(e) => r == Err::<PendingTransfer, TokenError>(e) && *final(self) == *old(
                    self,
                ),
                None => r matches Ok(p) && p.sender_id == caller && p.receiver_id == receiver_id
                    && p.amount == amount && p.msg == msg && spec_transfer_effect(
                    *old(self),
                    *final(self),
                    caller,
                    receiver_id,
                    amount,
                ),
            },
    {
        match self.transfer_internal(caller, receiver_id, amount, attached) {
            Err(e) => Err(e),
            Ok(()) => Ok(
                PendingTransfer { sender_id: caller, receiver_id, amount, msg },
            ),
        }
    }

    /// The resolution step of a transfer-with-callback. `response` is what
    /// the host delivered: the receiver's declared used amount, or nothing
    /// when the receiver's call failed outright (treated as used = 0). The
    /// unused remainder — clamped so no more than the transferred amount
    /// counts as used, and capped by what the receiver still holds — goes
    /// back to the sender, or is burned when the sender's entry is gone.
    /// Returns the amount treated as used and the amount burned. The host
    /// lets only the system itself invoke this, exactly once per dispatched
    /// `ft_transfer_call`, on the sender and receiver of that call (so the
    /// two differ).
    pub fn ft_resolve_transfer(
        &mut self,
        sender_id: u64,
        receiver_id: u64,
        amount: u128,
        response: Option<u128>,
    ) -> (r: (u128, u128))
        requires
            old(self).wf(),
            sender_id != receiver_id,
        ensures
            final(self).wf(),
            r == spec_resolve_outcome(*old(self), sender_id, receiver_id, amount, response),
            spec_resolve_effect(*old(self), *final(self), sender_id, receiver_id, amount, response),
    {
        let declared: u128 = match response {
            Some(u) => if u > amount {
                amount
            } else {
                u
            },
            None => 0,
        };
        let request = amount - declared;
        let held = self.token.balance_of(receiver_id);
        let refund = if request <= held {
            request
        } else {
            held
        };
        if refund > 0 {
            let w = self.token.withdraw(receiver_id, refund);
            proof {
                assert(w is Ok);
            }
            if self.token.is_registered(sender_id) {
                let dep = self.token.deposit(sender_id, refund);
                proof {
                    assert(dep is Ok);
                }
                (amount - refund, 0)
            } else {
                self.log.push(Event::Burn { account: sender_id, amount: refund });
                (amount, refund)
            }
        } else {
            (amount, 0)
        }
    }
}

} // verus!
