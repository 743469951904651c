use bounty_ledger::contract::{
    execute, execute_create_bounty, execute_expire_bounty, execute_finalize_bounty, instantiate,
    query, query_all_bounties, query_bounty,
};
use bounty_ledger::decimal::u64_to_string;
use bounty_ledger::error::ContractError;
use bounty_ledger::msg::{
    Coin, CreateBountyMsg, Env, ExecuteMsg, ExpireBountyMsg, FinalizeBountyMsg, InstantiateMsg,
    MessageInfo, QueryAnswer, QueryBountyMsg, QueryMsg,
};
use bounty_ledger::state::{
    bounty_id_by_owner, check_expired, ensure_bounty_open, BountyLedger, BountyStatus,
};

fn env_at(height: u64, time: u64) -> Env {
    Env { height, time }
}

fn info_with(sender: &str, funds: Vec<Coin>) -> MessageInfo {
    MessageInfo { sender: sender.to_string(), funds }
}

fn coin(amount: u128, denom: &str) -> Coin {
    Coin { denom: denom.to_string(), amount }
}

fn fresh_ledger() -> BountyLedger {
    let info = info_with("creator", vec![]);
    let (ledger, _res) = instantiate(&info, InstantiateMsg {});
    ledger
}

fn create_msg(recipient: Option<&str>, end_height: Option<u64>, quantity: u128) -> CreateBountyMsg {
    CreateBountyMsg {
        title: "A task".to_string(),
        description: "Do the task".to_string(),
        recipient: recipient.map(|r| r.to_string()),
        end_height,
        end_time: None,
        token_denom: "token".to_string(),
        quantity,
    }
}

/// A created bounty escrows exactly the attached amount, even above the
/// declared quantity, and starts `Open`.
#[test]
fn created_bounty_holds_attached_amount_open() {
    let mut ledger = fresh_ledger();
    let env = env_at(100, 1_000);
    let info = info_with("creator", vec![coin(700, "token")]);
    let res = execute_create_bounty(&mut ledger, &env, &info, create_msg(None, None, 500)).unwrap();
    assert_eq!(res.messages.len(), 0);
    assert_eq!(res.attributes[1].value, "1");

    let bounty = query_bounty(&ledger, 1).unwrap();
    assert_eq!(bounty.balance, 700);
    assert_eq!(bounty.quantity, 500);
    assert_eq!(bounty.status, BountyStatus::Open);
    assert_eq!(bounty.issuer, "creator");
}

#[test]
fn create_rejects_missing_funds() {
    let mut ledger = fresh_ledger();
    let env = env_at(100, 1_000);
    let info = info_with("creator", vec![]);
    let err = execute_create_bounty(&mut ledger, &env, &info, create_msg(None, None, 500));
    assert!(matches!(err, Err(ContractError::InvalidFunds)));
    assert_eq!(ledger.next_bounty_id, 1);
    assert_eq!(ledger.bounties.len(), 0);
}

#[test]
fn create_rejects_wrong_denom() {
    let mut ledger = fresh_ledger();
    let env = env_at(100, 1_000);
    let info = info_with("creator", vec![coin(500, "stone")]);
    let err = execute_create_bounty(&mut ledger, &env, &info, create_msg(None, None, 500));
    assert!(matches!(err, Err(ContractError::InvalidFunds)));
}

#[test]
fn create_rejects_multiple_fund_entries() {
    let mut ledger = fresh_ledger();
    let env = env_at(100, 1_000);
    let info = info_with("creator", vec![coin(500, "token"), coin(1, "stone")]);
    let err = execute_create_bounty(&mut ledger, &env, &info, create_msg(None, None, 500));
    assert!(matches!(err, Err(ContractError::InvalidFunds)));
}

#[test]
fn create_rejects_insufficient_amount() {
    let mut ledger = fresh_ledger();
    let env = env_at(100, 1_000);
    let info = info_with("creator", vec![coin(499, "token")]);
    let err = execute_create_bounty(&mut ledger, &env, &info, create_msg(None, None, 500));
    assert!(matches!(err, Err(ContractError::InsufficientFunds)));
    assert_eq!(ledger.bounties.len(), 0);
}

/// Neither finalize nor expire is open to anyone but the issuer.
#[test]
fn only_issuer_may_finalize_or_expire() {
    let mut ledger = fresh_ledger();
    let env = env_at(100, 1_000);
    let info = info_with("creator", vec![coin(500, "token")]);
    execute_create_bounty(&mut ledger, &env, &info, create_msg(Some("dev"), Some(101), 500))
        .unwrap();

    let stranger = info_with("stranger", vec![]);
    let err = execute_finalize_bounty(
        &mut ledger,
        &env,
        &stranger,
        FinalizeBountyMsg { bounty_id: 1, success: true },
    );
    assert!(matches!(err, Err(ContractError::Unauthorized)));
    let err = execute_expire_bounty(&mut ledger, &env, &stranger, ExpireBountyMsg { bounty_id: 1 });
    assert!(matches!(err, Err(ContractError::Unauthorized)));
    assert_eq!(query_bounty(&ledger, 1).unwrap().status, BountyStatus::Open);
}

/// A success claim without a recipient on record is rejected and changes
/// nothing.
#[test]
fn finalize_success_needs_recipient() {
    let mut ledger = fresh_ledger();
    let env = env_at(100, 1_000);
    let info = info_with("creator", vec![coin(500, "token")]);
    execute_create_bounty(&mut ledger, &env, &info, create_msg(None, None, 500)).unwrap();

    let err = execute_finalize_bounty(
        &mut ledger,
        &env,
        &info,
        FinalizeBountyMsg { bounty_id: 1, success: true },
    );
    assert!(matches!(err, Err(ContractError::RecipientNotSet)));
    let bounty = query_bounty(&ledger, 1).unwrap();
    assert_eq!(bounty.status, BountyStatus::Open);
    assert_eq!(bounty.balance, 500);
}

/// A success finalize completes the bounty and schedules the whole balance
/// for the recipient.
#[test]
fn finalize_success_pays_recipient() {
    let mut ledger = fresh_ledger();
    let env = env_at(100, 1_000);
    let info = info_with("creator", vec![coin(600, "token")]);
    execute_create_bounty(&mut ledger, &env, &info, create_msg(Some("dev"), None, 500)).unwrap();

    let res = execute_finalize_bounty(
        &mut ledger,
        &env,
        &info,
        FinalizeBountyMsg { bounty_id: 1, success: true },
    )
    .unwrap();
    assert_eq!(res.messages.len(), 1);
    assert_eq!(res.messages[0].to_address, "dev");
    assert_eq!(res.messages[0].amount.len(), 1);
    assert_eq!(res.messages[0].amount[0].denom, "token");
    assert_eq!(res.messages[0].amount[0].amount, 600);

    let bounty = query_bounty(&ledger, 1).unwrap();
    assert_eq!(bounty.status, BountyStatus::Completed);
    assert_eq!(bounty.balance, 0);
}

/// A failure finalize expires the bounty and refunds the issuer.
#[test]
fn finalize_failure_refunds_issuer() {
    let mut ledger = fresh_ledger();
    let env = env_at(100, 1_000);
    let info = info_with("creator", vec![coin(500, "token")]);
    execute_create_bounty(&mut ledger, &env, &info, create_msg(Some("dev"), None, 500)).unwrap();

    let res = execute_finalize_bounty(
        &mut ledger,
        &env,
        &info,
        FinalizeBountyMsg { bounty_id: 1, success: false },
    )
    .unwrap();
    assert_eq!(res.messages.len(), 1);
    assert_eq!(res.messages[0].to_address, "creator");
    assert_eq!(res.messages[0].amount[0].amount, 500);
    assert_eq!(res.attributes[2].value, "expired");

    let bounty = query_bounty(&ledger, 1).unwrap();
    assert_eq!(bounty.status, BountyStatus::Expired);
    assert_eq!(bounty.balance, 0);
}

/// Expire fails before the deadline passes and succeeds after, refunding
/// the issuer.
#[test]
fn expire_honors_deadline() {
    let mut ledger = fresh_ledger();
    let env = env_at(100, 1_000);
    let info = info_with("creator", vec![coin(500, "token")]);
    execute_create_bounty(&mut ledger, &env, &info, create_msg(None, Some(150), 500)).unwrap();

    let err = execute_expire_bounty(&mut ledger, &env, &info, ExpireBountyMsg { bounty_id: 1 });
    assert!(matches!(err, Err(ContractError::NotYetExpired)));
    // Exactly at the deadline the bounty is still not expired.
    let err = execute_expire_bounty(
        &mut ledger,
        &env_at(150, 1_000),
        &info,
        ExpireBountyMsg { bounty_id: 1 },
    );
    assert!(matches!(err, Err(ContractError::NotYetExpired)));

    let res = execute_expire_bounty(
        &mut ledger,
        &env_at(151, 1_000),
        &info,
        ExpireBountyMsg { bounty_id: 1 },
    )
    .unwrap();
    assert_eq!(res.messages[0].to_address, "creator");
    assert_eq!(res.messages[0].amount[0].amount, 500);
    assert_eq!(query_bounty(&ledger, 1).unwrap().status, BountyStatus::Expired);
}

/// A time deadline expires a bounty just as a height deadline does.
#[test]
fn expire_honors_time_deadline() {
    let mut ledger = fresh_ledger();
    let env = env_at(100, 1_000);
    let info = info_with("creator", vec![coin(500, "token")]);
    let msg = CreateBountyMsg {
        title: "A task".to_string(),
        description: "Do the task".to_string(),
        recipient: None,
        end_height: None,
        end_time: Some(2_000),
        token_denom: "token".to_string(),
        quantity: 500,
    };
    execute_create_bounty(&mut ledger, &env, &info, msg).unwrap();

    let err = execute_expire_bounty(
        &mut ledger,
        &env_at(100, 2_000),
        &info,
        ExpireBountyMsg { bounty_id: 1 },
    );
    assert!(matches!(err, Err(ContractError::NotYetExpired)));
    let res = execute_expire_bounty(
        &mut ledger,
        &env_at(100, 2_001),
        &info,
        ExpireBountyMsg { bounty_id: 1 },
    );
    assert!(res.is_ok());
}

/// A bounty with no deadline never becomes eligible for forced expiry.
#[test]
fn no_deadline_never_expires() {
    let mut ledger = fresh_ledger();
    let env = env_at(100, 1_000);
    let info = info_with("creator", vec![coin(500, "token")]);
    execute_create_bounty(&mut ledger, &env, &info, create_msg(None, None, 500)).unwrap();

    let err = execute_expire_bounty(
        &mut ledger,
        &env_at(u64::MAX, u64::MAX),
        &info,
        ExpireBountyMsg { bounty_id: 1 },
    );
    assert!(matches!(err, Err(ContractError::NotYetExpired)));
}

/// Once a bounty is closed, no second finalize or expire may pay out again.
#[test]
fn closed_bounty_rejects_second_payout() {
    let mut ledger = fresh_ledger();
    let env = env_at(100, 1_000);
    let info = info_with("creator", vec![coin(500, "token")]);
    execute_create_bounty(&mut ledger, &env, &info, create_msg(Some("dev"), Some(200), 500))
        .unwrap();
    execute_finalize_bounty(
        &mut ledger,
        &env,
        &info,
        FinalizeBountyMsg { bounty_id: 1, success: true },
    )
    .unwrap();

    let err = execute_finalize_bounty(
        &mut ledger,
        &env,
        &info,
        FinalizeBountyMsg { bounty_id: 1, success: false },
    );
    assert!(matches!(err, Err(ContractError::BountyExpired)));
    let err = execute_expire_bounty(
        &mut ledger,
        &env_at(300, 1_000),
        &info,
        ExpireBountyMsg { bounty_id: 1 },
    );
    assert!(matches!(err, Err(ContractError::BountyExpired)));
    assert_eq!(query_bounty(&ledger, 1).unwrap().status, BountyStatus::Completed);
}

/// Once the deadline has passed, finalize may no longer pay out: the
/// deadline pre-empts both the success and the failure branch.
#[test]
fn passed_deadline_preempts_finalize() {
    let mut ledger = fresh_ledger();
    let env = env_at(100, 1_000);
    let info = info_with("creator", vec![coin(500, "token")]);
    execute_create_bounty(&mut ledger, &env, &info, create_msg(Some("dev"), Some(120), 500))
        .unwrap();

    let late = env_at(121, 1_000);
    let err = execute_finalize_bounty(
        &mut ledger,
        &late,
        &info,
        FinalizeBountyMsg { bounty_id: 1, success: true },
    );
    assert!(matches!(err, Err(ContractError::BountyExpired)));
    // The record is untouched: the expire path still pays the refund.
    assert_eq!(query_bounty(&ledger, 1).unwrap().status, BountyStatus::Open);
    let res = execute_expire_bounty(&mut ledger, &late, &info, ExpireBountyMsg { bounty_id: 1 });
    assert!(res.is_ok());
}

/// The id counter advances by exactly 1 per successful creation and not at
/// all on a failed one, so ids are never reused.
#[test]
fn ids_advance_only_on_success() {
    let mut ledger = fresh_ledger();
    let env = env_at(100, 1_000);

    let bad = info_with("creator", vec![]);
    let err = execute_create_bounty(&mut ledger, &env, &bad, create_msg(None, None, 500));
    assert!(matches!(err, Err(ContractError::InvalidFunds)));
    assert_eq!(ledger.next_bounty_id, 1);

    let info = info_with("creator", vec![coin(500, "token")]);
    let res = execute_create_bounty(&mut ledger, &env, &info, create_msg(None, None, 500)).unwrap();
    assert_eq!(res.attributes[1].value, "1");
    assert_eq!(ledger.next_bounty_id, 2);

    let info = info_with("creator", vec![coin(300, "token")]);
    let res = execute_create_bounty(&mut ledger, &env, &info, create_msg(None, None, 300)).unwrap();
    assert_eq!(res.attributes[1].value, "2");
    assert_eq!(ledger.next_bounty_id, 3);
}

/// The full listing is in ascending id order and matches each individually
/// queried record.
#[test]
fn listing_matches_individual_queries() {
    let mut ledger = fresh_ledger();
    let env = env_at(100, 1_000);
    for i in 1..=4u128 {
        let info = info_with("creator", vec![coin(100 * i, "token")]);
        execute_create_bounty(&mut ledger, &env, &info, create_msg(None, None, 100 * i)).unwrap();
    }
    // Close one of them so the listing shows mixed statuses.
    let info = info_with("creator", vec![]);
    execute_finalize_bounty(&mut ledger, &env, &info, FinalizeBountyMsg {
        bounty_id: 2,
        success: false,
    })
    .unwrap();

    let all = query_all_bounties(&ledger).unwrap();
    assert_eq!(all.len(), 4);
    for (k, b) in all.iter().enumerate() {
        let id: u64 = (k + 1) as u64;
        let single = query_bounty(&ledger, id).unwrap();
        assert_eq!(single.title, b.title);
        assert_eq!(single.status, b.status);
        assert_eq!(single.balance, b.balance);
        assert_eq!(single.quantity, b.quantity);
    }
    assert_eq!(all[1].status, BountyStatus::Expired);
    assert_eq!(all[1].balance, 0);
}

#[test]
fn query_unknown_id_is_not_found() {
    let ledger = fresh_ledger();
    assert!(matches!(query_bounty(&ledger, 7), Err(ContractError::NotFound)));
    let err = query(&ledger, QueryMsg::GetBounty(QueryBountyMsg { bounty_id: 7 }));
    assert!(matches!(err, Err(ContractError::NotFound)));
}

#[test]
fn finalize_unknown_id_is_not_found() {
    let mut ledger = fresh_ledger();
    let env = env_at(100, 1_000);
    let info = info_with("creator", vec![]);
    let err = execute_finalize_bounty(
        &mut ledger,
        &env,
        &info,
        FinalizeBountyMsg { bounty_id: 9, success: false },
    );
    assert!(matches!(err, Err(ContractError::NotFound)));
    let err = execute_expire_bounty(&mut ledger, &env, &info, ExpireBountyMsg { bounty_id: 9 });
    assert!(matches!(err, Err(ContractError::NotFound)));
}

/// The single-bounty query renders the record with its status label.
#[test]
fn get_bounty_renders_status_label() {
    let mut ledger = fresh_ledger();
    let env = env_at(100, 1_000);
    let info = info_with("creator", vec![coin(500, "token")]);
    let msg = ExecuteMsg::CreateBounty(create_msg(Some("dev"), None, 500));
    execute(&mut ledger, &env, &info, msg).unwrap();

    let answer = query(&ledger, QueryMsg::GetBounty(QueryBountyMsg { bounty_id: 1 })).unwrap();
    let resp = match answer {
        QueryAnswer::Bounty(resp) => resp,
        QueryAnswer::Bounties(_) => panic!("expected a single bounty"),
    };
    assert_eq!(resp.status, "open");
    assert_eq!(resp.issuer, "creator");
    assert_eq!(resp.recipient.as_deref(), Some("dev"));
    assert_eq!(resp.balance, 500);
}

#[test]
fn bounty_id_by_owner_finds_first_ascending() {
    let mut ledger = fresh_ledger();
    let env = env_at(100, 1_000);
    for sender in ["alice", "bob", "alice"] {
        let info = info_with(sender, vec![coin(100, "token")]);
        execute_create_bounty(&mut ledger, &env, &info, create_msg(None, None, 100)).unwrap();
    }
    assert_eq!(bounty_id_by_owner(&ledger, &"alice".to_string()), Some(1));
    assert_eq!(bounty_id_by_owner(&ledger, &"bob".to_string()), Some(2));
    assert_eq!(bounty_id_by_owner(&ledger, &"carol".to_string()), None);
}

#[test]
fn check_expired_covers_both_bounds() {
    let mut ledger = fresh_ledger();
    let env = env_at(100, 1_000);
    let info = info_with("creator", vec![coin(100, "token")]);
    let msg = CreateBountyMsg {
        title: "A task".to_string(),
        description: "Do the task".to_string(),
        recipient: None,
        end_height: Some(150),
        end_time: Some(2_000),
        token_denom: "token".to_string(),
        quantity: 100,
    };
    execute_create_bounty(&mut ledger, &env, &info, msg).unwrap();
    let bounty = query_bounty(&ledger, 1).unwrap();

    assert!(!check_expired(&bounty, &env_at(150, 2_000)));
    assert!(check_expired(&bounty, &env_at(151, 2_000)));
    assert!(check_expired(&bounty, &env_at(150, 2_001)));
}

#[test]
fn ensure_bounty_open_guards_terminal_states() {
    let mut ledger = fresh_ledger();
    let env = env_at(100, 1_000);
    let info = info_with("creator", vec![coin(100, "token")]);
    execute_create_bounty(&mut ledger, &env, &info, create_msg(Some("dev"), None, 100)).unwrap();
    assert!(ensure_bounty_open(&query_bounty(&ledger, 1).unwrap()).is_ok());

    execute_finalize_bounty(&mut ledger, &env, &info, FinalizeBountyMsg {
        bounty_id: 1,
        success: true,
    })
    .unwrap();
    assert_eq!(
        ensure_bounty_open(&query_bounty(&ledger, 1).unwrap()),
        Err(ContractError::BountyExpired)
    );
}

#[test]
fn decimal_rendering_is_exact() {
    assert_eq!(u64_to_string(0), "0");
    assert_eq!(u64_to_string(7), "7");
    assert_eq!(u64_to_string(10), "10");
    assert_eq!(u64_to_string(305), "305");
    assert_eq!(u64_to_string(12_345), "12345");
    assert_eq!(u64_to_string(u64::MAX), "18446744073709551615");
}

#[test]
fn error_messages_name_each_rejection() {
    assert_eq!(ContractError::Unauthorized.message(), "Unauthorized");
    assert_eq!(ContractError::InvalidFunds.message(), "Invalid funds");
    assert_eq!(ContractError::InsufficientFunds.message(), "Insufficient funds");
    assert_eq!(ContractError::RecipientNotSet.message(), "Recipient not set");
    assert_eq!(ContractError::BountyExpired.message(), "Bounty already expired");
    assert_eq!(ContractError::NotYetExpired.message(), "Not yet expired");
    assert_eq!(ContractError::NotFound.message(), "Bounty not found");
}
