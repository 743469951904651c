use vstd::prelude::*;

verus! {

// ---------------------------------------------------------------------------
// Host context: what the runtime hands the ledger on every invocation.
// ---------------------------------------------------------------------------

/// One fund entry: an amount of a single denomination.
pub struct Coin {
    pub denom: String,
    pub amount: u128,
}

/// The logical clock the host supplies per invocation: the current block
/// height and the current timestamp (nanoseconds since epoch).
pub struct Env {
    pub height: u64,
    pub time: u64,
}

/// The authenticated caller of an invocation, with the funds the host has
/// already escrowed on its behalf before the ledger runs.
pub struct MessageInfo {
    pub sender: String,
    pub funds: Vec<Coin>,
}

/// One key/value pair of a structured acknowledgment, for external
/// observability and indexing.
pub struct Attribute {
    pub key: String,
    pub value: String,
}

/// An outbound transfer instruction: the host executes it after the
/// operation returns successfully.
pub struct BankTransfer {
    pub to_address: String,
    pub amount: Vec<Coin>,
}

/// What a state-changing operation hands back on success: transfer
/// instructions for the host and event attributes for observers.
pub struct Response {
    pub messages: Vec<BankTransfer>,
    pub attributes: Vec<Attribute>,
}

/// Holds exactly when `a` is the attribute `key`/`value`.
pub open spec fn attr_is(a: Attribute, key: Seq<char>, value: Seq<char>) -> bool {
    a.key@ == key && a.value@ == value
}

/// Holds exactly when `m` transfers a single coin `amount` of `denom` to `to`.
pub open spec fn sends_single(m: BankTransfer, to: Seq<char>, denom: Seq<char>, amount: u128) -> bool {
    &&& m.to_address@ == to
    &&& m.amount@.len() == 1
    &&& m.amount@[0].denom@ == denom
    &&& m.amount@[0].amount == amount
}

// ---------------------------------------------------------------------------
// Requests and responses.
// ---------------------------------------------------------------------------

/// Initializes the ledger.
pub struct InstantiateMsg {}

/// Creates a new bounty from the funds attached to the invocation.
pub struct CreateBountyMsg {
    pub title: String,
    pub description: String,
    /// Recipient identity, already validated to canonical form by the host.
    pub recipient: Option<String>,
    pub end_height: Option<u64>,
    pub end_time: Option<u64>,
    pub token_denom: String,
    pub quantity: u128,
}

/// Closes a bounty by the issuer's decision: pay the recipient on success,
/// refund the issuer on failure.
pub struct FinalizeBountyMsg {
    pub bounty_id: u64,
    pub success: bool,
}

/// Closes a bounty whose deadline has passed, refunding the issuer.
pub struct ExpireBountyMsg {
    pub bounty_id: u64,
}

/// The closed union of state-changing requests.
pub enum ExecuteMsg {
    CreateBounty(CreateBountyMsg),
    FinalizeBounty(FinalizeBountyMsg),
    ExpireBounty(ExpireBountyMsg),
}

/// Fetches a single bounty by id.
pub struct QueryBountyMsg {
    pub bounty_id: u64,
}

/// The closed union of read-only requests.
pub enum QueryMsg {
    /// Fetch a single bounty by id.
    GetBounty(QueryBountyMsg),
    /// List all bounties in ascending id order.
    ListBounties,
}

/// The closed union of query answers, parallel to `QueryMsg`.
pub enum QueryAnswer {
    /// The single bounty `GetBounty` asked for.
    Bounty(BountyResponse),
    /// All bounties, in ascending id order.
    Bounties(Vec<BountyResponse>),
}

/// A single bounty as a query answer, with its status rendered as a label.
pub struct BountyResponse {
    pub title: String,
    pub description: String,
    pub status: String,
    pub issuer: String,
    pub recipient: Option<String>,
    pub end_height: Option<u64>,
    pub end_time: Option<u64>,
    pub token_denom: String,
    pub quantity: u128,
    pub balance: u128,
}

} // verus!
