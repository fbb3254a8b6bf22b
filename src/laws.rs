use vstd::prelude::*;
use crate::error::ContractError;
use crate::execute::{
    freeze_outcome, mint_outcome, reserve_outcome, reserve_paid, set_minter_outcome,
    update_outcome, MAX_RESERVED,
};
use crate::state::{Coin, ConfigModel};

verus! {

/// With a supply ceiling of `n`, a mint is refused with `MaxTokenSupply`
/// whenever `n` tokens or more are live, whoever asks; while fewer are live,
/// an authorized mint of a valid owner under a free id succeeds (and the
/// count grows by one, so the `n`-th mint brings the count to `n`).
pub proof fn lemma_supply_ceiling(
    c: ConfigModel,
    n: u64,
    count: nat,
    sender: Seq<char>,
    owner_valid: bool,
    claimed: bool,
)
    requires
        c.token_supply == Some(n),
    ensures
        count >= n ==> mint_outcome(c, count, sender, owner_valid, claimed)
            == Err::<(), ContractError>(ContractError::MaxTokenSupply),
        count < n && sender == c.minter && owner_valid && !claimed ==> mint_outcome(
            c,
            count,
            sender,
            owner_valid,
            claimed,
        ) is Ok,
{
}

/// Mints never carry the live count past a configured ceiling.
pub proof fn lemma_supply_never_exceeded(
    c: ConfigModel,
    n: u64,
    count: nat,
    sender: Seq<char>,
    owner_valid: bool,
    claimed: bool,
)
    requires
        c.token_supply == Some(n),
        count <= n,
    ensures
        mint_outcome(c, count, sender, owner_valid, claimed) is Ok ==> count + 1 <= n,
{
}

/// A paid reservation when one place is left succeeds and fills the last
/// place; the next paid reservation is refused with `MaxTokenSupply`.
pub proof fn lemma_reserve_last_place(c: ConfigModel, funds: Seq<Coin>, next_funds: Seq<Coin>)
    requires
        c.reserved_tokens == MAX_RESERVED - 1,
        reserve_paid(funds),
        reserve_paid(next_funds),
    ensures
        reserve_outcome(c, funds, true) matches Ok(c1) && c1.reserved_tokens == MAX_RESERVED
            && reserve_outcome(c1, next_funds, true) == Err::<ConfigModel, ContractError>(
            ContractError::MaxTokenSupply,
        ),
{
}

/// A reservation that is not paid for is refused with `Funds`, whatever the
/// count; the handler then leaves the count as it was.
pub proof fn lemma_reserve_unpaid(c: ConfigModel, funds: Seq<Coin>, address_valid: bool)
    requires
        !reserve_paid(funds),
    ensures
        reserve_outcome(c, funds, address_valid) == Err::<ConfigModel, ContractError>(
            ContractError::Funds,
        ),
{
}

/// Reservations count up by one at a time and never pass the maximum.
pub proof fn lemma_reserve_bounded(c: ConfigModel, funds: Seq<Coin>, address_valid: bool)
    requires
        0 <= c.reserved_tokens <= MAX_RESERVED,
    ensures
        reserve_outcome(c, funds, address_valid) matches Ok(c1) ==> c1.reserved_tokens
            == c.reserved_tokens + 1 && c1.reserved_tokens <= MAX_RESERVED,
{
}

/// Every call of freeze checks the administrator again, frozen or not; an
/// accepted freeze leaves the contract frozen, and freezing a frozen contract
/// changes nothing.
pub proof fn lemma_freeze_idempotent(c: ConfigModel, sender: Seq<char>)
    ensures
        freeze_outcome(c, sender) is Ok <==> sender == c.minter,
        sender != c.minter ==> freeze_outcome(c, sender) == Err::<ConfigModel, ContractError>(
            ContractError::Unauthorized,
        ),
        freeze_outcome(c, sender) matches Ok(c1) ==> c1.frozen && freeze_outcome(c1, sender) == Ok::<
            ConfigModel,
            ContractError,
        >(c1),
{
}

/// Once frozen, every update is refused with `ContractFrozen`, whoever asks,
/// the administrator included.
pub proof fn lemma_update_after_freeze(
    c: ConfigModel,
    admin: Seq<char>,
    sender: Seq<char>,
    exists: bool,
)
    requires
        freeze_outcome(c, admin) is Ok,
    ensures
        update_outcome(freeze_outcome(c, admin)->Ok_0, sender, exists) == Err::<(), ContractError>(
            ContractError::ContractFrozen,
        ),
{
}

/// No accepted request unfreezes the contract or lowers the reservation count.
pub proof fn lemma_config_monotone(
    c: ConfigModel,
    sender: Seq<char>,
    new_minter: Option<String>,
    funds: Seq<Coin>,
    address_valid: bool,
)
    ensures
        freeze_outcome(c, sender) matches Ok(c1) ==> (c.frozen ==> c1.frozen) && c1.reserved_tokens
            == c.reserved_tokens,
        set_minter_outcome(c, sender, new_minter) matches Ok(c1) ==> c1.frozen == c.frozen
            && c1.reserved_tokens == c.reserved_tokens,
        reserve_outcome(c, funds, address_valid) matches Ok(c1) ==> c1.frozen == c.frozen
            && c1.reserved_tokens > c.reserved_tokens,
{
}

} // verus!
