use vstd::prelude::*;
use crate::error::ContractError;
use crate::state::{expired_at, BlockInfo, OperatorGrant, TokenInfo};

verus! {

/// `sender` holds an individual approval on `token` that has not lapsed at `block`.
pub open spec fn approved<T>(token: &TokenInfo<T>, sender: Seq<char>, block: BlockInfo) -> bool {
    exists|i: int|
        0 <= i < token.approvals@.len() && #[trigger] token.approvals@[i].spender@ == sender
            && !expired_at(token.approvals@[i].expires, block)
}

/// `owner` has made `sender` an operator, and the grant has not lapsed at `block`.
pub open spec fn operator_of(
    operators: Seq<OperatorGrant>,
    owner: Seq<char>,
    sender: Seq<char>,
    block: BlockInfo,
) -> bool {
    exists|j: int|
        0 <= j < operators.len() && #[trigger] operators[j].owner@ == owner
            && operators[j].operator@ == sender && !expired_at(operators[j].expires, block)
}

/// `sender` may transfer or destroy `token` at `block`: as its owner, through
/// a live individual approval, or as a live operator of its owner.
pub open spec fn can_send<T>(
    operators: Seq<OperatorGrant>,
    block: BlockInfo,
    sender: Seq<char>,
    token: &TokenInfo<T>,
) -> bool {
    ||| token.owner@ == sender
    ||| approved(token, sender, block)
    ||| operator_of(operators, token.owner@, sender, block)
}

/// Decides whether `sender` may transfer or destroy `token`; reads nothing
/// but its arguments and changes nothing.
pub fn check_can_send<T>(
    operators: &Vec<OperatorGrant>,
    block: &BlockInfo,
    sender: &String,
    token: &TokenInfo<T>,
) -> (r: Result<(), ContractError>)
    ensures
        r is Ok <==> can_send(operators@, *block, sender@, token),
        r is Err ==> r == Err::<(), ContractError>(ContractError::Unauthorized),
{
    // the owner can send
    if token.owner == *sender {
        return Ok(());
    }
    // so can any holder of an approval that has not lapsed
    let mut i: usize = 0;
    while i < token.approvals.len()
        invariant
            i <= token.approvals@.len(),
            forall|k: int|
                0 <= k < i ==> !(#[trigger] token.approvals@[k].spender@ == sender@
                    && !expired_at(token.approvals@[k].expires, *block)),
        decreases token.approvals@.len() - i,
    {
        let apr = &token.approvals[i];
        if apr.spender == *sender && !apr.expires.is_expired(block) {
            return Ok(());
        }
        i = i + 1;
    }
    // and an operator of the owner whose grant has not lapsed
    let mut j: usize = 0;
    while j < operators.len()
        invariant
            j <= operators@.len(),
            forall|k: int|
                0 <= k < j ==> !(#[trigger] operators@[k].owner@ == token.owner@
                    && operators@[k].operator@ == sender@
                    && !expired_at(operators@[k].expires, *block)),
        decreases operators@.len() - j,
    {
        let op = &operators[j];
        if op.owner == token.owner && op.operator == *sender && !op.expires.is_expired(block) {
            return Ok(());
        }
        j = j + 1;
    }
    Err(ContractError::Unauthorized)
}

} // verus!
