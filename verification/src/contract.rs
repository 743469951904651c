use vstd::prelude::*;

use crate::decimal::{dec_str, u64_to_string};
use crate::error::ContractError;
use crate::msg::{
    attr_is, sends_single, Attribute, BankTransfer, BountyResponse, Coin, CreateBountyMsg, Env,
    ExecuteMsg, ExpireBountyMsg, FinalizeBountyMsg, InstantiateMsg, MessageInfo, QueryAnswer,
    QueryBountyMsg, QueryMsg, Response,
};
use crate::state::{spec_expired, check_expired, Bounty, BountyEntry, BountyLedger, BountyStatus};

verus! {

// ---------------------------------------------------------------------------
// What each operation does, as a relation between the ledger before and
// after the call, the invocation context, and the outcome. The executable
// operations below promise exactly these relations.
// ---------------------------------------------------------------------------

/// The record a creation stores: `Open`, issued and funded by the sender,
/// its escrowed balance the attached amount.
pub open spec fn new_bounty(info: MessageInfo, msg: CreateBountyMsg) -> Bounty {
    Bounty {
        title: msg.title,
        description: msg.description,
        status: BountyStatus::Open,
        issuer: info.sender,
        recipient: msg.recipient,
        end_height: msg.end_height,
        end_time: msg.end_time,
        token_denom: msg.token_denom,
        quantity: msg.quantity,
        balance: info.funds@[0].amount,
    }
}

/// The acknowledgment of a successful creation: no transfer, and the
/// action, assigned id and issuer as attributes.
pub open spec fn created_response(res: Response, id: u64, sender: Seq<char>) -> bool {
    &&& res.messages@.len() == 0
    &&& res.attributes@.len() == 3
    &&& attr_is(res.attributes@[0], "action"@, "create_bounty"@)
    &&& attr_is(res.attributes@[1], "bounty_id"@, dec_str(id as int))
    &&& attr_is(res.attributes@[2], "issuer"@, sender)
}

/// How creation relates ledger, context and outcome: rejected without any
/// state change unless the attached funds are a single entry of the declared
/// denom covering the declared quantity; accepted by appending the new
/// `Open` record under the next id and advancing the counter by exactly 1.
pub open spec fn create_post(
    pre: BountyLedger,
    post: BountyLedger,
    info: MessageInfo,
    msg: CreateBountyMsg,
    r: Result<Response, ContractError>,
) -> bool {
    if info.funds@.len() != 1 || info.funds@[0].denom@ != msg.token_denom@ {
        r == Err::<Response, ContractError>(ContractError::InvalidFunds) && post == pre
    } else if info.funds@[0].amount < msg.quantity {
        r == Err::<Response, ContractError>(ContractError::InsufficientFunds) && post == pre
    } else {
        &&& post.next_bounty_id == pre.next_bounty_id + 1
        &&& post.bounties@ == pre.bounties@.push(
            BountyEntry { id: pre.next_bounty_id, bounty: new_bounty(info, msg) },
        )
        &&& r matches Ok(res) && created_response(res, pre.next_bounty_id, info.sender@)
    }
}

/// The bounty as a terminal payout leaves it: the new status, and the
/// escrowed balance driven to zero.
pub open spec fn closed_bounty(b: Bounty, status: BountyStatus) -> Bounty {
    Bounty { status, balance: 0, ..b }
}

/// The acknowledgment of a terminal payout: exactly one transfer of the
/// whole escrowed balance, and the action, id and resulting status as
/// attributes.
pub open spec fn payout_response(
    res: Response,
    action: Seq<char>,
    id: u64,
    to: Seq<char>,
    denom: Seq<char>,
    amount: u128,
    status: Seq<char>,
) -> bool {
    &&& res.messages@.len() == 1
    &&& sends_single(res.messages@[0], to, denom, amount)
    &&& res.attributes@.len() == 3
    &&& attr_is(res.attributes@[0], "action"@, action)
    &&& attr_is(res.attributes@[1], "bounty_id"@, dec_str(id as int))
    &&& attr_is(res.attributes@[2], "status"@, status)
}

/// How finalization relates ledger, context and outcome. In order: the
/// bounty must exist, the caller must be its issuer, the bounty must still
/// be open, and its deadline must not have passed (a passed deadline
/// pre-empts any payout: only the expire path may close it then). A success
/// claim further needs a recipient and completes the bounty, paying the
/// recipient; a failure claim expires it, refunding the issuer. Every
/// rejection leaves the ledger unchanged.
pub open spec fn finalize_post(
    pre: BountyLedger,
    post: BountyLedger,
    env: Env,
    info: MessageInfo,
    msg: FinalizeBountyMsg,
    r: Result<Response, ContractError>,
) -> bool {
    if !pre.has_id(msg.bounty_id) {
        r == Err::<Response, ContractError>(ContractError::NotFound) && post == pre
    } else {
        let b = pre.get(msg.bounty_id);
        if info.sender@ != b.issuer@ {
            r == Err::<Response, ContractError>(ContractError::Unauthorized) && post == pre
        } else if b.status != BountyStatus::Open {
            r == Err::<Response, ContractError>(ContractError::BountyExpired) && post == pre
        } else if spec_expired(b, env.height, env.time) {
            r == Err::<Response, ContractError>(ContractError::BountyExpired) && post == pre
        } else if msg.success && b.recipient is None {
            r == Err::<Response, ContractError>(ContractError::RecipientNotSet) && post == pre
        } else if msg.success {
            &&& post.next_bounty_id == pre.next_bounty_id
            &&& post.bounties@ == pre.bounties@.update(
                pre.idx_of(msg.bounty_id),
                BountyEntry {
                    id: msg.bounty_id,
                    bounty: closed_bounty(b, BountyStatus::Completed),
                },
            )
            &&& r matches Ok(res) && payout_response(
                res,
                "finalize_bounty"@,
                msg.bounty_id,
                b.recipient.unwrap()@,
                b.token_denom@,
                b.balance,
                "completed"@,
            )
        } else {
            &&& post.next_bounty_id == pre.next_bounty_id
            &&& post.bounties@ == pre.bounties@.update(
                pre.idx_of(msg.bounty_id),
                BountyEntry { id: msg.bounty_id, bounty: closed_bounty(b, BountyStatus::Expired) },
            )
            &&& r matches Ok(res) && payout_response(
                res,
                "finalize_bounty"@,
                msg.bounty_id,
                b.issuer@,
                b.token_denom@,
                b.balance,
                "expired"@,
            )
        }
    }
}

/// How forced expiry relates ledger, context and outcome. In order: the
/// bounty must exist, the caller must be its issuer, the bounty must still
/// be open, and its deadline must have passed. It then expires, refunding
/// the whole escrowed balance to the issuer. Every rejection leaves the
/// ledger unchanged.
pub open spec fn expire_post(
    pre: BountyLedger,
    post: BountyLedger,
    env: Env,
    info: MessageInfo,
    msg: ExpireBountyMsg,
    r: Result<Response, ContractError>,
) -> bool {
    if !pre.has_id(msg.bounty_id) {
        r == Err::<Response, ContractError>(ContractError::NotFound) && post == pre
    } else {
        let b = pre.get(msg.bounty_id);
        if info.sender@ != b.issuer@ {
            r == Err::<Response, ContractError>(ContractError::Unauthorized) && post == pre
        } else if b.status != BountyStatus::Open {
            r == Err::<Response, ContractError>(ContractError::BountyExpired) && post == pre
        } else if !spec_expired(b, env.height, env.time) {
            r == Err::<Response, ContractError>(ContractError::NotYetExpired) && post == pre
        } else {
            &&& post.next_bounty_id == pre.next_bounty_id
            &&& post.bounties@ == pre.bounties@.update(
                pre.idx_of(msg.bounty_id),
                BountyEntry { id: msg.bounty_id, bounty: closed_bounty(b, BountyStatus::Expired) },
            )
            &&& r matches Ok(res) && payout_response(
                res,
                "expire_bounty"@,
                msg.bounty_id,
                b.issuer@,
                b.token_denom@,
                b.balance,
                "expired"@,
            )
        }
    }
}

/// At most one terminal payout per bounty: once a bounty is no longer
/// `Open`, both closing paths reject the call, schedule no transfer, and
/// leave the ledger — the closed record included — unchanged.
pub proof fn lemma_closed_bounty_stays_closed(
    pre: BountyLedger,
    finalize_ledger: BountyLedger,
    expire_ledger: BountyLedger,
    env: Env,
    info: MessageInfo,
    id: u64,
    success: bool,
    finalize_r: Result<Response, ContractError>,
    expire_r: Result<Response, ContractError>,
)
    requires
        pre.has_id(id),
        pre.get(id).status != BountyStatus::Open,
        finalize_post(pre, finalize_ledger, env, info, FinalizeBountyMsg { bounty_id: id, success }, finalize_r),
        expire_post(pre, expire_ledger, env, info, ExpireBountyMsg { bounty_id: id }, expire_r),
    ensures
        finalize_r is Err,
        finalize_ledger == pre,
        expire_r is Err,
        expire_ledger == pre,
{
}

/// Holds exactly when `resp` renders the record `b`, field for field, with
/// the status as its label.
pub open spec fn response_matches(resp: BountyResponse, b: Bounty) -> bool {
    &&& resp.title == b.title
    &&& resp.description == b.description
    &&& resp.status@ == b.status.label()
    &&& resp.issuer == b.issuer
    &&& resp.recipient == b.recipient
    &&& resp.end_height == b.end_height
    &&& resp.end_time == b.end_time
    &&& resp.token_denom == b.token_denom
    &&& resp.quantity == b.quantity
    &&& resp.balance == b.balance
}

// ---------------------------------------------------------------------------
// The operations.
// ---------------------------------------------------------------------------

/// Initializes a fresh, empty ledger with the id counter at 1, and
/// acknowledges with the instantiation attributes.
pub fn instantiate(info: &MessageInfo, _msg: InstantiateMsg) -> (r: (BountyLedger, Response))
    ensures
        r.0.wf(),
        r.0.next_bounty_id == 1,
        r.0.bounties@.len() == 0,
        r.1.messages@.len() == 0,
        r.1.attributes@.len() == 2,
        attr_is(r.1.attributes@[0], "method"@, "instantiate"@),
        attr_is(r.1.attributes@[1], "bount_owner"@, info.sender@),
{
    let ledger = BountyLedger { next_bounty_id: 1, bounties: Vec::new() };
    let mut attributes: Vec<Attribute> = Vec::new();
    attributes.push(
        Attribute { key: String::from_str("method"), value: String::from_str("instantiate") },
    );
    attributes.push(Attribute { key: String::from_str("bount_owner"), value: info.sender.clone() });
    let response = Response { messages: Vec::new(), attributes };
    (ledger, response)
}

/// Dispatches a state-changing request to the operation it names.
pub fn execute(ledger: &mut BountyLedger, env: &Env, info: &MessageInfo, msg: ExecuteMsg) -> (r:
    Result<Response, ContractError>)
    requires
        old(ledger).wf(),
        msg matches ExecuteMsg::CreateBounty(_) ==> old(ledger).next_bounty_id < u64::MAX,
    ensures
        final(ledger).wf(),
        match msg {
            ExecuteMsg::CreateBounty(m) => create_post(*old(ledger), *final(ledger), *info, m, r),
            ExecuteMsg::FinalizeBounty(m) => finalize_post(
                *old(ledger),
                *final(ledger),
                *env,
                *info,
                m,
                r,
            ),
            ExecuteMsg::ExpireBounty(m) => expire_post(
                *old(ledger),
                *final(ledger),
                *env,
                *info,
                m,
                r,
            ),
        },
{
    match msg {
        ExecuteMsg::CreateBounty(m) => execute_create_bounty(ledger, env, info, m),
        ExecuteMsg::FinalizeBounty(m) => execute_finalize_bounty(ledger, env, info, m),
        ExecuteMsg::ExpireBounty(m) => execute_expire_bounty(ledger, env, info, m),
    }
}

/// Creates a bounty from the attached funds: checks them against the
/// declared denom and quantity, stores the new `Open` record under the next
/// id, and advances the counter by exactly 1. Failed creations allocate
/// nothing.
pub fn execute_create_bounty(
    ledger: &mut BountyLedger,
    _env: &Env,
    info: &MessageInfo,
    msg: CreateBountyMsg,
) -> (r: Result<Response, ContractError>)
    requires
        old(ledger).wf(),
        old(ledger).next_bounty_id < u64::MAX,
    ensures
        final(ledger).wf(),
        create_post(*old(ledger), *final(ledger), *info, msg, r),
{
    let id: u64 = ledger.next_bounty_id;

    if info.funds.len() != 1 || !(info.funds[0].denom == msg.token_denom) {
        return Err(ContractError::InvalidFunds);
    }
    if info.funds[0].amount < msg.quantity {
        return Err(ContractError::InsufficientFunds);
    }

    let bounty = Bounty {
        title: msg.title,
        description: msg.description,
        status: BountyStatus::Open,
        issuer: info.sender.clone(),
        recipient: msg.recipient,
        end_height: msg.end_height,
        end_time: msg.end_time,
        token_denom: msg.token_denom,
        quantity: msg.quantity,
        balance: info.funds[0].amount,
    };

    ledger.bounties.push(BountyEntry { id, bounty });
    ledger.next_bounty_id = id + 1;

    proof {
        assert forall|i: int, j: int|
            #![trigger ledger.bounties@[i], ledger.bounties@[j]]
            0 <= i < j < ledger.bounties@.len() implies ledger.bounties@[i].id
            < ledger.bounties@[j].id by {
            assert(old(ledger).bounties@[i] == ledger.bounties@[i]);
        }
    }

    let mut attributes: Vec<Attribute> = Vec::new();
    attributes.push(
        Attribute { key: String::from_str("action"), value: String::from_str("create_bounty") },
    );
    attributes.push(Attribute { key: String::from_str("bounty_id"), value: u64_to_string(id) });
    attributes.push(Attribute { key: String::from_str("issuer"), value: info.sender.clone() });
    Ok(Response { messages: Vec::new(), attributes })
}

/// Closes an open bounty by its issuer's decision. A success claim needs a
/// recipient on record and a deadline that has not passed; it completes the
/// bounty and pays the whole balance to the recipient. A failure claim
/// expires the bounty and refunds the issuer.
pub fn execute_finalize_bounty(
    ledger: &mut BountyLedger,
    env: &Env,
    info: &MessageInfo,
    msg: FinalizeBountyMsg,
) -> (r: Result<Response, ContractError>)
    requires
        old(ledger).wf(),
    ensures
        final(ledger).wf(),
        finalize_post(*old(ledger), *final(ledger), *env, *info, msg, r),
{
    let k: usize = match ledger.find(msg.bounty_id) {
        None => {
            return Err(ContractError::NotFound);
        },
        Some(k) => k,
    };

    if !(info.sender == ledger.bounties[k].bounty.issuer) {
        return Err(ContractError::Unauthorized);
    }
    if ledger.bounties[k].bounty.status != BountyStatus::Open {
        return Err(ContractError::BountyExpired);
    }
    if check_expired(&ledger.bounties[k].bounty, env) {
        // The deadline has passed: no payout may happen any more; only the
        // expire path may close this bounty now.
        return Err(ContractError::BountyExpired);
    }

    if msg.success {
        let recipient: String = match &ledger.bounties[k].bounty.recipient {
            None => {
                return Err(ContractError::RecipientNotSet);
            },
            Some(rec) => rec.clone(),
        };
        let b = ledger.bounties[k].bounty.clone();
        ledger.bounties[k] = BountyEntry {
            id: msg.bounty_id,
            bounty: Bounty { status: BountyStatus::Completed, balance: 0, ..b.clone() },
        };
        proof {
            lemma_update_keeps_wf(*old(ledger), *ledger, k as int);
        }
        Ok(payout(recipient, b.token_denom, b.balance, msg.bounty_id, "finalize_bounty", "completed"))
    } else {
        let b = ledger.bounties[k].bounty.clone();
        ledger.bounties[k] = BountyEntry {
            id: msg.bounty_id,
            bounty: Bounty { status: BountyStatus::Expired, balance: 0, ..b.clone() },
        };
        proof {
            lemma_update_keeps_wf(*old(ledger), *ledger, k as int);
        }
        Ok(payout(b.issuer.clone(), b.token_denom, b.balance, msg.bounty_id, "finalize_bounty", "expired"))
    }
}

/// Closes an open bounty whose deadline has passed, by its issuer: expires
/// it and refunds the whole escrowed balance to the issuer.
pub fn execute_expire_bounty(
    ledger: &mut BountyLedger,
    env: &Env,
    info: &MessageInfo,
    msg: ExpireBountyMsg,
) -> (r: Result<Response, ContractError>)
    requires
        old(ledger).wf(),
    ensures
        final(ledger).wf(),
        expire_post(*old(ledger), *final(ledger), *env, *info, msg, r),
{
    let k: usize = match ledger.find(msg.bounty_id) {
        None => {
            return Err(ContractError::NotFound);
        },
        Some(k) => k,
    };

    if !(info.sender == ledger.bounties[k].bounty.issuer) {
        return Err(ContractError::Unauthorized);
    }
    if ledger.bounties[k].bounty.status != BountyStatus::Open {
        return Err(ContractError::BountyExpired);
    }
    if !check_expired(&ledger.bounties[k].bounty, env) {
        return Err(ContractError::NotYetExpired);
    }

    let b = ledger.bounties[k].bounty.clone();
    ledger.bounties[k] = BountyEntry {
        id: msg.bounty_id,
        bounty: Bounty { status: BountyStatus::Expired, balance: 0, ..b.clone() },
    };
    proof {
        lemma_update_keeps_wf(*old(ledger), *ledger, k as int);
    }
    Ok(payout(b.issuer.clone(), b.token_denom, b.balance, msg.bounty_id, "expire_bounty", "expired"))
}

/// An in-place close keeps the ledger well-formed when the entry keeps its
/// id.
proof fn lemma_update_keeps_wf(pre: BountyLedger, post: BountyLedger, k: int)
    requires
        pre.wf(),
        post.next_bounty_id == pre.next_bounty_id,
        0 <= k < pre.bounties@.len(),
        post.bounties@.len() == pre.bounties@.len(),
        post.bounties@[k].id == pre.bounties@[k].id,
        forall|i: int| 0 <= i < pre.bounties@.len() && i != k ==> post.bounties@[i] == pre.bounties@[i],
    ensures
        post.wf(),
{
    assert forall|i: int, j: int|
        #![trigger post.bounties@[i], post.bounties@[j]]
        0 <= i < j < post.bounties@.len() implies post.bounties@[i].id < post.bounties@[j].id by {
        assert(post.bounties@[i].id == pre.bounties@[i].id);
        assert(post.bounties@[j].id == pre.bounties@[j].id);
        assert(pre.bounties@[i].id < pre.bounties@[j].id);
    }
    assert forall|i: int| 0 <= i < post.bounties@.len() implies (#[trigger] post.bounties@[i]).id
        < post.next_bounty_id by {
        assert(post.bounties@[i].id == pre.bounties@[i].id);
    }
}

/// The acknowledgment of a terminal payout: one transfer of `amount` of
/// `denom` to `to`, and the action, bounty id and resulting status as
/// attributes.
fn payout(to: String, denom: String, amount: u128, id: u64, action: &str, status: &str) -> (res:
    Response)
    ensures
        payout_response(res, action@, id, to@, denom@, amount, status@),
{
    let mut amount_vec: Vec<Coin> = Vec::new();
    amount_vec.push(Coin { denom, amount });
    let mut messages: Vec<BankTransfer> = Vec::new();
    messages.push(BankTransfer { to_address: to, amount: amount_vec });
    let mut attributes: Vec<Attribute> = Vec::new();
    attributes.push(Attribute { key: String::from_str("action"), value: String::from_str(action) });
    attributes.push(Attribute { key: String::from_str("bounty_id"), value: u64_to_string(id) });
    attributes.push(Attribute { key: String::from_str("status"), value: String::from_str(status) });
    Response { messages, attributes }
}

// ---------------------------------------------------------------------------
// Queries.
// ---------------------------------------------------------------------------

/// Dispatches a read-only request to the lookup it names, rendering each
/// record as a `BountyResponse`.
pub fn query(ledger: &BountyLedger, msg: QueryMsg) -> (r: Result<QueryAnswer, ContractError>)
    requires
        ledger.wf(),
    ensures
        match msg {
            QueryMsg::GetBounty(q) => {
                &&& ledger.has_id(q.bounty_id) ==> (r matches Ok(QueryAnswer::Bounty(resp))
                    && response_matches(resp, ledger.get(q.bounty_id)))
                &&& !ledger.has_id(q.bounty_id) ==> r == Err::<QueryAnswer, ContractError>(
                    ContractError::NotFound,
                )
            },
            QueryMsg::ListBounties => r matches Ok(QueryAnswer::Bounties(v)) && v@.len()
                == ledger.bounties@.len() && forall|i: int|
                0 <= i < v@.len() ==> response_matches(
                    #[trigger] v@[i],
                    ledger.bounties@[i].bounty,
                ),
        },
{
    match msg {
        QueryMsg::GetBounty(q) => {
            match query_bounty(ledger, q.bounty_id) {
                Ok(b) => Ok(QueryAnswer::Bounty(bounty_to_response(&b))),
                Err(e) => Err(e),
            }
        },
        QueryMsg::ListBounties => {
            let bounties = match query_all_bounties(ledger) {
                Ok(v) => v,
                Err(e) => {
                    return Err(e);
                },
            };
            let mut out: Vec<BountyResponse> = Vec::new();
            let n: usize = bounties.len();
            for i in 0..n
                invariant
                    n == bounties@.len(),
                    bounties@.len() == ledger.bounties@.len(),
                    forall|j: int| 0 <= j < n ==> bounties@[j] == ledger.bounties@[j].bounty,
                    out@.len() == i,
                    forall|j: int|
                        0 <= j < i ==> response_matches(
                            #[trigger] out@[j],
                            ledger.bounties@[j].bounty,
                        ),
            {
                out.push(bounty_to_response(&bounties[i]));
            }
            Ok(QueryAnswer::Bounties(out))
        },
    }
}

/// Read-only lookup of the record stored under `bounty_id`.
pub fn query_bounty(ledger: &BountyLedger, bounty_id: u64) -> (r: Result<Bounty, ContractError>)
    requires
        ledger.wf(),
    ensures
        ledger.has_id(bounty_id) ==> (r matches Ok(b) && b == ledger.get(bounty_id)),
        !ledger.has_id(bounty_id) ==> r == Err::<Bounty, ContractError>(ContractError::NotFound),
{
    match ledger.find(bounty_id) {
        Some(k) => Ok(ledger.bounties[k].bounty.clone()),
        None => Err(ContractError::NotFound),
    }
}

/// Read-only full scan: every record, in ascending id order.
pub fn query_all_bounties(ledger: &BountyLedger) -> (r: Result<Vec<Bounty>, ContractError>)
    ensures
        r matches Ok(v) && v@.len() == ledger.bounties@.len() && forall|i: int|
            0 <= i < v@.len() ==> #[trigger] v@[i] == ledger.bounties@[i].bounty,
{
    let mut out: Vec<Bounty> = Vec::new();
    let n: usize = ledger.bounties.len();
    for i in 0..n
        invariant
            n == ledger.bounties@.len(),
            out@.len() == i,
            forall|j: int| 0 <= j < i ==> #[trigger] out@[j] == ledger.bounties@[j].bounty,
    {
        out.push(ledger.bounties[i].bounty.clone());
    }
    Ok(out)
}

/// Renders a record as a query answer, field for field, the status as its
/// label.
fn bounty_to_response(b: &Bounty) -> (r: BountyResponse)
    ensures
        response_matches(r, *b),
{
    BountyResponse {
        title: b.title.clone(),
        description: b.description.clone(),
        status: b.status.as_string(),
        issuer: b.issuer.clone(),
        recipient: match &b.recipient {
            Some(rec) => Some(rec.clone()),
            None => None,
        },
        end_height: b.end_height,
        end_time: b.end_time,
        token_denom: b.token_denom.clone(),
        quantity: b.quantity,
        balance: b.balance,
    }
}

} // verus!
