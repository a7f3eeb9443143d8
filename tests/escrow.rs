use cw_contracts::common::{Coin, MessageInfo, Response};
use cw_contracts::escrow::{
    execute, instantiate, query, ContractError, EscrowStatus, ExecuteMsg, InstantiateMsg, QueryMsg,
    State,
};

/// Block time of the host's test environment, in seconds.
const NOW: u64 = 1_571_797_419;

fn info(sender: &str, funds: &[(u128, &str)]) -> MessageInfo {
    MessageInfo {
        sender: sender.to_string(),
        funds: funds.iter().map(|(a, d)| Coin::new(*a, d)).collect(),
    }
}

fn setup() -> State {
    let msg = InstantiateMsg {
        seller: "seller".to_string(),
        amount: Coin::new(100, "token"),
        lock_time: 100,
    };
    let (state, _) = instantiate(&info("buyer", &[]), NOW, msg, true).unwrap();
    state
}

fn funded() -> State {
    let mut state = setup();
    execute(&mut state, &info("buyer", &[(100, "token")]), NOW, ExecuteMsg::Deposit {}).unwrap();
    state
}

fn status_of(state: &State) -> String {
    query(state, QueryMsg::GetConfig {}).status
}

fn attr(resp: &Response, i: usize) -> (&str, &str) {
    (resp.attributes[i].key.as_str(), resp.attributes[i].value.as_str())
}

#[test]
fn proper_initialization() {
    let state = setup();
    let value = query(&state, QueryMsg::GetConfig {});
    assert_eq!("buyer", value.buyer);
    assert_eq!("seller", value.seller);
    assert_eq!("Idle", value.status);
}

#[test]
fn deposit_and_release() {
    let mut state = setup();
    execute(&mut state, &info("buyer", &[(100, "token")]), NOW, ExecuteMsg::Deposit {}).unwrap();
    assert_eq!("Funded", status_of(&state));

    let res = execute(&mut state, &info("buyer", &[]), NOW, ExecuteMsg::Release {}).unwrap();
    assert_eq!(1, res.messages.len());
    assert_eq!("Released", status_of(&state));
}

#[test]
fn refund_after_expiry() {
    let mut state = funded();
    let err = execute(&mut state, &info("buyer", &[]), NOW, ExecuteMsg::Refund {}).unwrap_err();
    match err {
        ContractError::NotExpired {} => {}
        _ => panic!("Expected NotExpired error"),
    }
    let res = execute(&mut state, &info("buyer", &[]), NOW + 200, ExecuteMsg::Refund {}).unwrap();
    assert_eq!(1, res.messages.len());
}

#[test]
fn instantiate_records_parties_and_deadline() {
    let msg = InstantiateMsg {
        seller: "seller".to_string(),
        amount: Coin::new(100, "token"),
        lock_time: 100,
    };
    let (state, resp) = instantiate(&info("buyer", &[]), 1000, msg, true).unwrap();
    assert_eq!(state.buyer, "buyer");
    assert_eq!(state.seller, "seller");
    assert_eq!(state.amount.amount, 100);
    assert_eq!(state.amount.denom, "token");
    assert_eq!(state.expiration, 1100);
    assert_eq!(state.status, EscrowStatus::Idle);
    assert!(resp.messages.is_empty());
    assert_eq!(attr(&resp, 0), ("method", "instantiate"));
    assert_eq!(attr(&resp, 1), ("buyer", "buyer"));
    assert_eq!(attr(&resp, 2), ("seller", "seller"));
    assert_eq!(attr(&resp, 3), ("expiration", "1100"));
}

#[test]
fn instantiate_rejects_invalid_seller() {
    let msg = InstantiateMsg {
        seller: "not an address".to_string(),
        amount: Coin::new(100, "token"),
        lock_time: 100,
    };
    let err = instantiate(&info("buyer", &[]), NOW, msg, false).unwrap_err();
    assert_eq!(err, ContractError::InvalidAddress {});
}

#[test]
fn scenario_release_before_expiry_pays_seller() {
    let mut state = setup();
    assert_eq!(state.status, EscrowStatus::Idle);
    let resp =
        execute(&mut state, &info("buyer", &[(100, "token")]), NOW, ExecuteMsg::Deposit {}).unwrap();
    assert!(resp.messages.is_empty());
    assert_eq!(attr(&resp, 0), ("action", "deposit"));
    assert_eq!(attr(&resp, 1), ("amount", "100token"));
    assert_eq!(state.status, EscrowStatus::Funded);

    let resp = execute(&mut state, &info("buyer", &[]), NOW + 99, ExecuteMsg::Release {}).unwrap();
    assert_eq!(state.status, EscrowStatus::Released);
    assert_eq!(resp.messages.len(), 1);
    assert_eq!(resp.messages[0].to_address, "seller");
    assert_eq!(resp.messages[0].amount.amount, 100);
    assert_eq!(resp.messages[0].amount.denom, "token");
    assert_eq!(attr(&resp, 0), ("action", "release"));
    assert_eq!(attr(&resp, 1), ("to", "seller"));
}

#[test]
fn scenario_refund_waits_for_expiry() {
    let mut state = funded();
    let err = execute(&mut state, &info("buyer", &[]), NOW, ExecuteMsg::Refund {}).unwrap_err();
    assert_eq!(err, ContractError::NotExpired {});
    assert_eq!(state.status, EscrowStatus::Funded);

    let resp = execute(&mut state, &info("buyer", &[]), NOW + 200, ExecuteMsg::Refund {}).unwrap();
    assert_eq!(state.status, EscrowStatus::Refunded);
    assert_eq!(resp.messages.len(), 1);
    assert_eq!(resp.messages[0].to_address, "buyer");
    assert_eq!(resp.messages[0].amount.amount, 100);
    assert_eq!(resp.messages[0].amount.denom, "token");
    assert_eq!(attr(&resp, 1), ("to", "buyer"));
}

#[test]
fn scenario_short_deposit_is_rejected() {
    let mut state = setup();
    let err =
        execute(&mut state, &info("buyer", &[(50, "token")]), NOW, ExecuteMsg::Deposit {}).unwrap_err();
    assert_eq!(err, ContractError::InsufficientFunds {});
    assert_eq!(state.status, EscrowStatus::Idle);
}

#[test]
fn scenario_deposit_by_stranger_is_rejected() {
    let mut state = setup();
    let err = execute(&mut state, &info("mallory", &[(100, "token")]), NOW, ExecuteMsg::Deposit {})
        .unwrap_err();
    assert_eq!(err, ContractError::Unauthorized {});
    assert_eq!(state.status, EscrowStatus::Idle);
}

#[test]
fn deposit_in_wrong_denomination_is_rejected() {
    let mut state = setup();
    let err = execute(&mut state, &info("buyer", &[(500, "other")]), NOW, ExecuteMsg::Deposit {})
        .unwrap_err();
    assert_eq!(err, ContractError::InsufficientFunds {});
    let err = execute(&mut state, &info("buyer", &[]), NOW, ExecuteMsg::Deposit {}).unwrap_err();
    assert_eq!(err, ContractError::InsufficientFunds {});
    assert_eq!(state.status, EscrowStatus::Idle);
}

#[test]
fn deposit_keeps_excess_and_accepts_any_covering_coin() {
    let mut state = setup();
    execute(
        &mut state,
        &info("buyer", &[(7, "other"), (150, "token"), (1, "token")]),
        NOW,
        ExecuteMsg::Deposit {},
    )
    .unwrap();
    assert_eq!(state.status, EscrowStatus::Funded);

    let mut state = setup();
    let resp = execute(
        &mut state,
        &info("buyer", &[(1, "token"), (150, "token"), (120, "token")]),
        NOW,
        ExecuteMsg::Deposit {},
    )
    .unwrap();
    assert_eq!(state.status, EscrowStatus::Funded);
    assert_eq!(state.amount.amount, 100);
    assert!(resp.messages.is_empty());
    assert_eq!(attr(&resp, 1), ("amount", "150token"));

    let mut state = setup();
    let err = execute(
        &mut state,
        &info("buyer", &[(60, "token"), (60, "token")]),
        NOW,
        ExecuteMsg::Deposit {},
    )
    .unwrap_err();
    assert_eq!(err, ContractError::InsufficientFunds {});
    assert_eq!(state.status, EscrowStatus::Idle);
}

#[test]
fn second_deposit_is_already_funded() {
    let mut state = funded();
    let err = execute(&mut state, &info("buyer", &[(100, "token")]), NOW, ExecuteMsg::Deposit {})
        .unwrap_err();
    assert_eq!(err, ContractError::AlreadyFunded {});
    assert_eq!(state.status, EscrowStatus::Funded);
}

#[test]
fn release_and_refund_need_funding() {
    let mut state = setup();
    let err = execute(&mut state, &info("buyer", &[]), NOW, ExecuteMsg::Release {}).unwrap_err();
    assert_eq!(err, ContractError::NotFunded {});
    let err = execute(&mut state, &info("buyer", &[]), NOW + 500, ExecuteMsg::Refund {}).unwrap_err();
    assert_eq!(err, ContractError::NotFunded {});
    assert_eq!(state.status, EscrowStatus::Idle);
}

#[test]
fn release_at_deadline_is_expired() {
    let mut state = funded();
    let err = execute(&mut state, &info("buyer", &[]), NOW + 100, ExecuteMsg::Release {}).unwrap_err();
    assert_eq!(err, ContractError::Expired {});
    assert_eq!(state.status, EscrowStatus::Funded);
    let resp = execute(&mut state, &info("buyer", &[]), NOW + 100, ExecuteMsg::Refund {}).unwrap();
    assert_eq!(resp.messages.len(), 1);
}

#[test]
fn only_buyer_releases_or_refunds() {
    let mut state = funded();
    let err = execute(&mut state, &info("seller", &[]), NOW, ExecuteMsg::Release {}).unwrap_err();
    assert_eq!(err, ContractError::Unauthorized {});
    let err = execute(&mut state, &info("seller", &[]), NOW + 500, ExecuteMsg::Refund {}).unwrap_err();
    assert_eq!(err, ContractError::Unauthorized {});
    assert_eq!(state.status, EscrowStatus::Funded);
}

#[test]
fn unauthorized_is_reported_before_state_and_time() {
    let mut state = setup();
    let err = execute(&mut state, &info("seller", &[]), NOW + 500, ExecuteMsg::Release {}).unwrap_err();
    assert_eq!(err, ContractError::Unauthorized {});
    let mut state = funded();
    let err = execute(&mut state, &info("buyer", &[]), NOW + 500, ExecuteMsg::Release {}).unwrap_err();
    assert_eq!(err, ContractError::Expired {});
}

#[test]
fn settled_escrow_rejects_everything() {
    let mut released = funded();
    execute(&mut released, &info("buyer", &[]), NOW, ExecuteMsg::Release {}).unwrap();
    let mut refunded = funded();
    execute(&mut refunded, &info("buyer", &[]), NOW + 100, ExecuteMsg::Refund {}).unwrap();
    for (state, end) in [(&mut released, EscrowStatus::Released), (&mut refunded, EscrowStatus::Refunded)] {
        assert!(state.status.is_settled());
        for now in [NOW, NOW + 1000] {
            for msg in [ExecuteMsg::Deposit {}, ExecuteMsg::Release {}, ExecuteMsg::Refund {}] {
                let r = execute(state, &info("buyer", &[(100, "token")]), now, msg);
                assert!(r.is_err());
                assert_eq!(state.status, end);
            }
        }
    }
    assert_eq!(
        execute(&mut released, &info("buyer", &[]), NOW + 1000, ExecuteMsg::Refund {}).unwrap_err(),
        ContractError::NotFunded {}
    );
}

#[test]
fn query_shows_amount_and_expiration() {
    let state = funded();
    let value = query(&state, QueryMsg::GetConfig {});
    assert_eq!(value.amount.amount, 100);
    assert_eq!(value.amount.denom, "token");
    assert_eq!(value.expiration, NOW + 100);
    assert_eq!(value.status, "Funded");
}

#[test]
fn stranger_deposit_is_unauthorized_in_every_status() {
    let mut state = funded();
    let err = execute(&mut state, &info("mallory", &[(100, "token")]), NOW, ExecuteMsg::Deposit {})
        .unwrap_err();
    assert_eq!(err, ContractError::Unauthorized {});
    assert_eq!(state.status, EscrowStatus::Funded);

    execute(&mut state, &info("buyer", &[]), NOW, ExecuteMsg::Release {}).unwrap();
    let err = execute(&mut state, &info("mallory", &[(100, "token")]), NOW, ExecuteMsg::Deposit {})
        .unwrap_err();
    assert_eq!(err, ContractError::Unauthorized {});
    assert_eq!(state.status, EscrowStatus::Released);
}

#[test]
fn invalid_seller_is_rejected_whatever_the_lock_time() {
    let msg = InstantiateMsg {
        seller: "not an address".to_string(),
        amount: Coin::new(100, "token"),
        lock_time: u64::MAX,
    };
    let err = instantiate(&info("buyer", &[]), NOW, msg, false).unwrap_err();
    assert_eq!(err, ContractError::InvalidAddress {});
}
