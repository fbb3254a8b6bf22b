use rest_nft_base::access::check_can_send;
use rest_nft_base::error::ContractError;
use rest_nft_base::state::{Approval, BlockInfo, Expiration, OperatorGrant, TokenInfo};

const BLOCK: BlockInfo = BlockInfo { height: 100, time: 5_000 };

fn token(approvals: Vec<Approval>) -> TokenInfo<()> {
    TokenInfo { owner: "alice".to_string(), approvals, token_uri: None, extension: () }
}

fn approval(spender: &str, expires: Expiration) -> Approval {
    Approval { spender: spender.to_string(), expires }
}

fn grant(owner: &str, operator: &str, expires: Expiration) -> OperatorGrant {
    OperatorGrant { owner: owner.to_string(), operator: operator.to_string(), expires }
}

#[test]
fn expiration_lapses_at_its_bound() {
    assert!(Expiration::AtHeight(100).is_expired(&BLOCK));
    assert!(!Expiration::AtHeight(101).is_expired(&BLOCK));
    assert!(Expiration::AtTime(5_000).is_expired(&BLOCK));
    assert!(!Expiration::AtTime(5_001).is_expired(&BLOCK));
    assert!(!Expiration::Never.is_expired(&BLOCK));
}

#[test]
fn owner_may_send() {
    let t = token(vec![]);
    assert_eq!(check_can_send(&vec![], &BLOCK, &"alice".to_string(), &t), Ok(()));
}

#[test]
fn stranger_may_not_send() {
    let t = token(vec![]);
    assert_eq!(
        check_can_send(&vec![], &BLOCK, &"bob".to_string(), &t),
        Err(ContractError::Unauthorized)
    );
}

#[test]
fn live_approval_may_send() {
    let t = token(vec![approval("bob", Expiration::AtHeight(200))]);
    assert_eq!(check_can_send(&vec![], &BLOCK, &"bob".to_string(), &t), Ok(()));
    let t = token(vec![approval("bob", Expiration::Never)]);
    assert_eq!(check_can_send(&vec![], &BLOCK, &"bob".to_string(), &t), Ok(()));
}

#[test]
fn expired_approval_may_not_send() {
    let t = token(vec![approval("bob", Expiration::AtTime(5_000))]);
    assert_eq!(
        check_can_send(&vec![], &BLOCK, &"bob".to_string(), &t),
        Err(ContractError::Unauthorized)
    );
}

#[test]
fn approval_of_another_spender_does_not_count() {
    let t = token(vec![approval("carol", Expiration::Never)]);
    assert_eq!(
        check_can_send(&vec![], &BLOCK, &"bob".to_string(), &t),
        Err(ContractError::Unauthorized)
    );
}

#[test]
fn duplicate_approvals_are_harmless() {
    let t = token(vec![
        approval("bob", Expiration::AtHeight(50)),
        approval("bob", Expiration::AtHeight(500)),
    ]);
    assert_eq!(check_can_send(&vec![], &BLOCK, &"bob".to_string(), &t), Ok(()));
}

#[test]
fn live_operator_may_send() {
    let t = token(vec![]);
    let ops = vec![grant("alice", "bob", Expiration::AtTime(9_000))];
    assert_eq!(check_can_send(&ops, &BLOCK, &"bob".to_string(), &t), Ok(()));
}

#[test]
fn expired_operator_may_not_send() {
    let t = token(vec![]);
    let ops = vec![grant("alice", "bob", Expiration::AtHeight(99))];
    assert_eq!(
        check_can_send(&ops, &BLOCK, &"bob".to_string(), &t),
        Err(ContractError::Unauthorized)
    );
}

#[test]
fn operator_of_another_owner_does_not_count() {
    let t = token(vec![]);
    let ops = vec![grant("dave", "bob", Expiration::Never)];
    assert_eq!(
        check_can_send(&ops, &BLOCK, &"bob".to_string(), &t),
        Err(ContractError::Unauthorized)
    );
}

#[test]
fn grant_truth_table() {
    // approval: none / live / expired, operator: none / live / expired
    let approvals = [
        None,
        Some(Expiration::Never),
        Some(Expiration::AtHeight(10)),
    ];
    let operators = [
        None,
        Some(Expiration::AtTime(6_000)),
        Some(Expiration::AtTime(4_000)),
    ];
    for (ai, a) in approvals.iter().enumerate() {
        for (oi, o) in operators.iter().enumerate() {
            let t = token(a.iter().map(|e| approval("bob", *e)).collect());
            let ops: Vec<OperatorGrant> = o.iter().map(|e| grant("alice", "bob", *e)).collect();
            let expected = ai == 1 || oi == 1;
            let r = check_can_send(&ops, &BLOCK, &"bob".to_string(), &t);
            assert_eq!(r.is_ok(), expected, "approval {} operator {}", ai, oi);
            // the owner is allowed in every combination
            assert_eq!(check_can_send(&ops, &BLOCK, &"alice".to_string(), &t), Ok(()));
        }
    }
}
