use vstd::prelude::*;
use crate::access::{can_send, check_can_send};
use crate::error::ContractError;
use crate::response::{attr_is, BankMsg, Response};
use crate::state::{
    BlockInfo, Coin, ConfigModel, MessageInfo, MintMsg, Store, Token, TokenInfo,
};

verus! {

/// The most reservations that can ever be paid for.
pub const MAX_RESERVED: i32 = 5555;

/// The least payment that a reservation accepts.
pub const RESERVE_PRICE: u128 = 50000000;

/// The currency a reservation must be paid in.
pub const RESERVE_DENOM: &'static str = "uusd";

/// Freeze: only the administrator may freeze; freezing sets the flag and
/// touches nothing else.
pub open spec fn freeze_outcome(c: ConfigModel, sender: Seq<char>) -> Result<ConfigModel, ContractError> {
    if sender != c.minter {
        Err(ContractError::Unauthorized)
    } else {
        Ok(ConfigModel { frozen: true, ..c })
    }
}

/// Update: refused on a frozen contract whoever asks; otherwise
/// administrator only, on an existing token.
pub open spec fn update_outcome(c: ConfigModel, sender: Seq<char>, exists: bool) -> Result<(), ContractError> {
    if c.frozen {
        Err(ContractError::ContractFrozen)
    } else if sender != c.minter {
        Err(ContractError::Unauthorized)
    } else if !exists {
        Err(ContractError::TokenNotFound)
    } else {
        Ok(())
    }
}

/// Handing on the administrator role: only the current administrator may,
/// and only to an address the validator accepted.
pub open spec fn set_minter_outcome(
    c: ConfigModel,
    sender: Seq<char>,
    new_minter: Option<String>,
) -> Result<ConfigModel, ContractError> {
    if sender != c.minter {
        Err(ContractError::Unauthorized)
    } else {
        match new_minter {
            Some(m) => Ok(ConfigModel { minter: m@, ..c }),
            None => Err(ContractError::InvalidAddress),
        }
    }
}

/// Mint: refused at the supply ceiling (or where the count could not grow),
/// then only the administrator may mint, to a valid owner, under an id not
/// yet taken.
pub open spec fn mint_outcome(
    c: ConfigModel,
    count: nat,
    sender: Seq<char>,
    owner_valid: bool,
    claimed: bool,
) -> Result<(), ContractError> {
    if (c.token_supply is Some && count >= c.token_supply->0) || count >= u64::MAX {
        Err(ContractError::MaxTokenSupply)
    } else if sender != c.minter {
        Err(ContractError::Unauthorized)
    } else if !owner_valid {
        Err(ContractError::InvalidAddress)
    } else if claimed {
        Err(ContractError::Claimed)
    } else {
        Ok(())
    }
}

/// The first coin attached pays the reservation price in its currency.
pub open spec fn reserve_paid(funds: Seq<Coin>) -> bool {
    funds.len() > 0 && funds[0].denom@ == RESERVE_DENOM@ && funds[0].amount >= RESERVE_PRICE
}

/// Reserve: payment first, then the reservation ceiling, then the address;
/// success counts one more reservation.
pub open spec fn reserve_outcome(
    c: ConfigModel,
    funds: Seq<Coin>,
    address_valid: bool,
) -> Result<ConfigModel, ContractError> {
    if !reserve_paid(funds) {
        Err(ContractError::Funds)
    } else if c.reserved_tokens >= MAX_RESERVED {
        Err(ContractError::MaxTokenSupply)
    } else if !address_valid {
        Err(ContractError::InvalidAddress)
    } else {
        Ok(ConfigModel { reserved_tokens: (c.reserved_tokens + 1) as i32, ..c })
    }
}

/// Sweep: administrator only, and only of a nonzero balance.
pub open spec fn sweep_outcome(c: ConfigModel, sender: Seq<char>, balance: u128) -> Result<(), ContractError> {
    if sender != c.minter {
        Err(ContractError::Unauthorized)
    } else if balance == 0 {
        Err(ContractError::NoFunds)
    } else {
        Ok(())
    }
}

/// Burn: the token must exist, and the sender must pass the access check.
pub open spec fn burn_outcome<T>(s: Store<T>, block: BlockInfo, sender: Seq<char>, id: Seq<char>) -> Result<(), ContractError> {
    if !s.has_token(id) {
        Err(ContractError::TokenNotFound)
    } else if !can_send(s.operators@, block, sender, s.token(id)) {
        Err(ContractError::Unauthorized)
    } else {
        Ok(())
    }
}

/// Destroys the token `token_id`, on behalf of its owner, an approved
/// spender or an operator of its owner; the live count drops by one.
pub fn execute_burn<T>(
    store: &mut Store<T>,
    block: &BlockInfo,
    info: &MessageInfo,
    token_id: String,
) -> (r: Result<Response, ContractError>)
    requires
        old(store).wf(),
    ensures
        final(store).wf(),
        match burn_outcome(*old(store), *block, info.sender@, token_id@) {
            Ok(_) => {
                &&& r matches Ok(resp) && resp.messages@.len() == 0 && resp.attributes@.len() == 2
                    && attr_is(resp.attributes@[0], "action"@, "burn"@)
                    && attr_is(resp.attributes@[1], "token_id"@, token_id@)
                &&& final(store).tokens@ == old(store).tokens@.remove(old(store).index_of(token_id@))
                &&& !final(store).has_token(token_id@)
                &&& final(store).count() == old(store).count() - 1
                &&& final(store).config == old(store).config
                &&& final(store).operators == old(store).operators
            },
            Err(e) => r == Err::<Response, ContractError>(e) && *final(store) == *old(store),
        },
{
    let idx = match store.find_token(&token_id) {
        Some(i) => i,
        None => return Err(ContractError::TokenNotFound),
    };
    // validate send permissions
    match check_can_send(&store.operators, block, &info.sender, &store.tokens[idx].info) {
        Ok(()) => {},
        Err(e) => return Err(e),
    }
    let ghost before = store.tokens@;
    store.tokens.remove(idx);
    store.token_count = store.token_count - 1;
    proof {
        let i = idx as int;
        assert forall|k: int| 0 <= k < store.tokens@.len() implies #[trigger] store.tokens@[k].id@
            != token_id@ by {
            if k < i {
                assert(before[k].id@ != before[i].id@);
            } else {
                assert(before[i].id@ != before[k + 1].id@);
            }
        }
        assert forall|a: int, b: int| 0 <= a < b < store.tokens@.len() implies #[trigger] store.tokens@[a].id@
            != #[trigger] store.tokens@[b].id@ by {
            let a2 = if a < i { a } else { a + 1 };
            let b2 = if b < i { b } else { b + 1 };
            assert(before[a2].id@ != before[b2].id@);
        }
    }
    Ok(Response::new().add_attribute("action", String::from_str("burn")).add_attribute("token_id", token_id))
}

/// Replaces the uri and the extension of the token `token_id` wholesale;
/// refused with `ContractFrozen` on a frozen contract whoever asks, and
/// otherwise administrator only.
pub fn execute_update<T>(
    store: &mut Store<T>,
    info: &MessageInfo,
    token_id: String,
    token_uri: Option<String>,
    extension: T,
) -> (r: Result<Response, ContractError>)
    requires
        old(store).wf(),
    ensures
        final(store).wf(),
        match update_outcome(old(store).config@, info.sender@, old(store).has_token(token_id@)) {
            Ok(_) => {
                let k = old(store).index_of(token_id@);
                let prev = old(store).tokens@[k];
                &&& r matches Ok(resp) && resp.messages@.len() == 0 && resp.attributes@.len() == 2
                    && attr_is(resp.attributes@[0], "action"@, "update"@)
                    && attr_is(resp.attributes@[1], "token_id"@, token_id@)
                &&& final(store).tokens@ == old(store).tokens@.update(
                    k,
                    Token {
                        id: prev.id,
                        info: TokenInfo {
                            owner: prev.info.owner,
                            approvals: prev.info.approvals,
                            token_uri,
                            extension,
                        },
                    },
                )
                &&& final(store).token_count == old(store).token_count
                &&& final(store).config == old(store).config
                &&& final(store).operators == old(store).operators
            },
            Err(e) => r == Err::<Response, ContractError>(e) && *final(store) == *old(store),
        },
{
    if store.config.frozen {
        return Err(ContractError::ContractFrozen);
    }
    if info.sender != store.config.minter {
        return Err(ContractError::Unauthorized);
    }
    let idx = match store.find_token(&token_id) {
        Some(i) => i,
        None => return Err(ContractError::TokenNotFound),
    };
    let ghost before = store.tokens@;
    let prev = store.tokens.remove(idx);
    let updated = Token {
        id: prev.id,
        info: TokenInfo {
            owner: prev.info.owner,
            approvals: prev.info.approvals,
            token_uri,
            extension,
        },
    };
    store.tokens.insert(idx, updated);
    proof {
        let i = idx as int;
        assert(store.tokens@ =~= before.update(i, store.tokens@[i]));
        assert forall|a: int, b: int| 0 <= a < b < store.tokens@.len() implies #[trigger] store.tokens@[a].id@
            != #[trigger] store.tokens@[b].id@ by {
            assert(before[a].id@ != before[b].id@);
        }
    }
    Ok(Response::new().add_attribute("action", String::from_str("update")).add_attribute("token_id", token_id))
}

/// Freezes the contract: token content can no longer change. Administrator
/// only, checked on every call; freezing again leaves the flag set.
pub fn execute_freeze<T>(store: &mut Store<T>, info: &MessageInfo) -> (r: Result<Response, ContractError>)
    ensures
        match freeze_outcome(old(store).config@, info.sender@) {
            Ok(c) => {
                &&& r matches Ok(resp) && resp.messages@.len() == 0 && resp.attributes@.len() == 1
                    && attr_is(resp.attributes@[0], "action"@, "freeze"@)
                &&& final(store).config@ == c
                &&& final(store).token_count == old(store).token_count
                &&& final(store).tokens == old(store).tokens
                &&& final(store).operators == old(store).operators
            },
            Err(e) => r == Err::<Response, ContractError>(e) && *final(store) == *old(store),
        },
{
    if info.sender != store.config.minter {
        return Err(ContractError::Unauthorized);
    }
    store.config.frozen = true;
    Ok(Response::new().add_attribute("action", String::from_str("freeze")))
}

/// Creates a token, unless the live count has reached the supply ceiling.
/// Administrator only; the owner must be a validated address and the id
/// must be free. The new token has no approvals.
pub fn execute_mint<T>(store: &mut Store<T>, info: &MessageInfo, mint_msg: MintMsg<T>) -> (r: Result<Response, ContractError>)
    requires
        old(store).wf(),
    ensures
        final(store).wf(),
        match mint_outcome(
            old(store).config@,
            old(store).count(),
            info.sender@,
            mint_msg.owner is Some,
            old(store).has_token(mint_msg.token_id@),
        ) {
            Ok(_) => {
                let t = final(store).tokens@.last();
                &&& r matches Ok(resp) && resp.messages@.len() == 0 && resp.attributes@.len() == 3
                    && attr_is(resp.attributes@[0], "action"@, "mint"@)
                    && attr_is(resp.attributes@[1], "minter"@, info.sender@)
                    && attr_is(resp.attributes@[2], "token_id"@, mint_msg.token_id@)
                &&& final(store).count() == old(store).count() + 1
                &&& final(store).tokens@.len() == old(store).tokens@.len() + 1
                &&& final(store).tokens@.drop_last() == old(store).tokens@
                &&& t.id == mint_msg.token_id
                &&& t.info.owner == mint_msg.owner->0
                &&& t.info.approvals@.len() == 0
                &&& t.info.token_uri == mint_msg.token_uri
                &&& t.info.extension == mint_msg.extension
                &&& final(store).config == old(store).config
                &&& final(store).operators == old(store).operators
            },
            Err(e) => r == Err::<Response, ContractError>(e) && *final(store) == *old(store),
        },
{
    let current_count = store.token_count();
    match store.config.token_supply {
        Some(supply) => {
            if current_count >= supply {
                return Err(ContractError::MaxTokenSupply);
            }
        },
        None => {},
    }
    if current_count == u64::MAX {
        return Err(ContractError::MaxTokenSupply);
    }
    if info.sender != store.config.minter {
        return Err(ContractError::Unauthorized);
    }
    let owner = match mint_msg.owner {
        Some(o) => o,
        None => return Err(ContractError::InvalidAddress),
    };
    if store.find_token(&mint_msg.token_id).is_some() {
        return Err(ContractError::Claimed);
    }
    let token_id = mint_msg.token_id.clone();
    let ghost before = store.tokens@;
    store.token_count = current_count + 1;
    store.tokens.push(
        Token {
            id: mint_msg.token_id,
            info: TokenInfo {
                owner,
                approvals: Vec::new(),
                token_uri: mint_msg.token_uri,
                extension: mint_msg.extension,
            },
        },
    );
    proof {
        assert(store.tokens@.drop_last() =~= before);
        assert forall|a: int, b: int| 0 <= a < b < store.tokens@.len() implies #[trigger] store.tokens@[a].id@
            != #[trigger] store.tokens@[b].id@ by {
            if b < before.len() {
                assert(before[a].id@ != before[b].id@);
            } else {
                assert(before[a].id@ == store.tokens@[a].id@);
            }
        }
    }
    Ok(
        Response::new().add_attribute("action", String::from_str("mint")).add_attribute(
            "minter",
            info.sender.clone(),
        ).add_attribute("token_id", token_id),
    )
}

/// Hands the administrator role to `new_minter`, the address as the
/// validator returned it (`None` where it refused the supplied text).
/// Only the current administrator may do so.
pub fn execute_set_minter<T>(
    store: &mut Store<T>,
    info: &MessageInfo,
    new_minter: Option<String>,
) -> (r: Result<Response, ContractError>)
    ensures
        match set_minter_outcome(old(store).config@, info.sender@, new_minter) {
            Ok(c) => {
                &&& r matches Ok(resp) && resp.messages@.len() == 0 && resp.attributes@.len() == 1
                    && attr_is(resp.attributes@[0], "action"@, "set_minter"@)
                &&& final(store).config@ == c
                &&& final(store).token_count == old(store).token_count
                &&& final(store).tokens == old(store).tokens
                &&& final(store).operators == old(store).operators
            },
            Err(e) => r == Err::<Response, ContractError>(e) && *final(store) == *old(store),
        },
{
    if info.sender != store.config.minter {
        return Err(ContractError::Unauthorized);
    }
    let new_minter = match new_minter {
        Some(m) => m,
        None => return Err(ContractError::InvalidAddress),
    };
    store.config.minter = new_minter;
    Ok(Response::new().add_attribute("action", String::from_str("set_minter")))
}

/// Sends the contract's whole `balance` of `denom` (as the balance query
/// returned it) to the administrator, in one transfer. Administrator only;
/// a zero balance is refused.
pub fn execute_sweep<T>(store: &Store<T>, info: &MessageInfo, denom: String, balance: u128) -> (r: Result<Response, ContractError>)
    ensures
        match sweep_outcome(store.config@, info.sender@, balance) {
            Ok(_) => r matches Ok(resp) && resp.attributes@.len() == 1
                && attr_is(resp.attributes@[0], "sweep"@, denom@)
                && resp.messages@.len() == 1
                && resp.messages@[0].to_address@ == info.sender@
                && resp.messages@[0].amount@.len() == 1
                && resp.messages@[0].amount@[0].denom@ == denom@
                && resp.messages@[0].amount@[0].amount == balance,
            Err(e) => r == Err::<Response, ContractError>(e),
        },
{
    if info.sender != store.config.minter {
        return Err(ContractError::Unauthorized);
    }
    if balance == 0 {
        return Err(ContractError::NoFunds);
    }
    let coin = Coin { denom: denom.clone(), amount: balance };
    let amount = vec![coin];
    Ok(
        Response::new().add_attribute("sweep", denom).add_message(
            BankMsg { to_address: info.sender.clone(), amount },
        ),
    )
}

/// Records a paid reservation of `token_id` for `reserve_address` (the
/// address as the validator returned it, `None` where it refused it). The
/// first attached coin must pay the reservation price in its currency, and
/// fewer than the maximum reservations may have been made; no token is
/// created.
pub fn reserve_nft<T>(
    store: &mut Store<T>,
    info: &MessageInfo,
    reserve_address: Option<String>,
    token_id: String,
) -> (r: Result<Response, ContractError>)
    ensures
        match reserve_outcome(old(store).config@, info.funds@, reserve_address is Some) {
            Ok(c) => {
                &&& r matches Ok(resp) && resp.messages@.len() == 0 && resp.attributes@.len() == 3
                    && attr_is(resp.attributes@[0], "action"@, "reserve_nft"@)
                    && attr_is(resp.attributes@[1], "reserve_address"@, reserve_address->0@)
                    && attr_is(resp.attributes@[2], "token_id"@, token_id@)
                &&& final(store).config@ == c
                &&& final(store).token_count == old(store).token_count
                &&& final(store).tokens == old(store).tokens
                &&& final(store).operators == old(store).operators
            },
            Err(e) => r == Err::<Response, ContractError>(e) && *final(store) == *old(store),
        },
{
    if info.funds.len() == 0 {
        return Err(ContractError::Funds);
    }
    let coins = &info.funds[0];
    if coins.denom != String::from_str(RESERVE_DENOM) || coins.amount < RESERVE_PRICE {
        return Err(ContractError::Funds);
    }
    if store.config.reserved_tokens >= MAX_RESERVED {
        return Err(ContractError::MaxTokenSupply);
    }
    let reserve_address = match reserve_address {
        Some(a) => a,
        None => return Err(ContractError::InvalidAddress),
    };
    store.config.reserved_tokens = store.config.reserved_tokens + 1;
    Ok(
        Response::new().add_attribute("action", String::from_str("reserve_nft")).add_attribute(
            "reserve_address",
            reserve_address,
        ).add_attribute("token_id", token_id),
    )
}

} // verus!
