use vstd::prelude::*;

use crate::error::ContractError;
use crate::msg::Env;

verus! {

/// Status of a bounty.
///
/// `InProgress` is declared for a future claim step; no transition reaches it.
#[derive(Clone, Copy, Debug, PartialEq, Eq, Structural)]
pub enum BountyStatus {
    Open,
    InProgress,
    Completed,
    Expired,
}

impl BountyStatus {
    /// The status as a lower-case label, as queries and events render it.
    pub open spec fn label(self) -> Seq<char> {
        match self {
            BountyStatus::Open => "open"@,
            BountyStatus::InProgress => "in_progress"@,
            BountyStatus::Completed => "completed"@,
            BountyStatus::Expired => "expired"@,
        }
    }

    /// Renders the status as its lower-case label.
    pub fn as_string(&self) -> (r: String)
        ensures
            r@ == self.label(),
    {
        match self {
            BountyStatus::Open => String::from_str("open"),
            BountyStatus::InProgress => String::from_str("in_progress"),
            BountyStatus::Completed => String::from_str("completed"),
            BountyStatus::Expired => String::from_str("expired"),
        }
    }
}

/// One escrowed-fund record awaiting a completion decision.
pub struct Bounty {
    /// Opaque display string.
    pub title: String,
    /// Opaque display string.
    pub description: String,
    pub status: BountyStatus,
    /// Identity that created and funded the bounty; the sole authority to
    /// finalize or expire it.
    pub issuer: String,
    /// Identity entitled to the funds on successful completion; fixed at
    /// creation.
    pub recipient: Option<String>,
    /// Absolute block-height deadline, if any.
    pub end_height: Option<u64>,
    /// Absolute wall-clock deadline (nanoseconds since epoch), if any.
    pub end_time: Option<u64>,
    /// The declared required asset type.
    pub token_denom: String,
    /// The declared target amount.
    pub quantity: u128,
    /// The escrowed amount: set once at creation from the attached funds,
    /// driven to zero by the one terminal payout.
    pub balance: u128,
}

impl Clone for Bounty {
    fn clone(&self) -> (r: Self)
        ensures
            r == *self,
    {
        Bounty {
            title: self.title.clone(),
            description: self.description.clone(),
            status: self.status,
            issuer: self.issuer.clone(),
            recipient: match &self.recipient {
                Some(rec) => Some(rec.clone()),
                None => None,
            },
            end_height: self.end_height,
            end_time: self.end_time,
            token_denom: self.token_denom.clone(),
            quantity: self.quantity,
            balance: self.balance,
        }
    }
}

/// A bounty together with the id it is stored under.
pub struct BountyEntry {
    pub id: u64,
    pub bounty: Bounty,
}

/// The whole persistent state of the contract: the records in ascending id
/// order, and the monotonically increasing id counter.
pub struct BountyLedger {
    /// The id the next successful creation will assign; starts at 1,
    /// incremented by exactly 1 per creation, never decremented.
    pub next_bounty_id: u64,
    /// All bounty records, in strictly ascending id order; never deleted.
    pub bounties: Vec<BountyEntry>,
}

impl BountyLedger {
    /// Well-formedness: ids strictly ascend (hence are unique), every stored
    /// id was assigned before the counter's current value, and the counter
    /// starts no lower than its initial value 1.
    pub open spec fn wf(self) -> bool {
        &&& forall|i: int, j: int|
            #![trigger self.bounties@[i], self.bounties@[j]]
            0 <= i < j < self.bounties@.len() ==> self.bounties@[i].id < self.bounties@[j].id
        &&& forall|i: int|
            0 <= i < self.bounties@.len() ==> (#[trigger] self.bounties@[i]).id < self.next_bounty_id
        &&& self.next_bounty_id >= 1
    }

    /// Whether some record is stored under `id`.
    pub open spec fn has_id(self, id: u64) -> bool {
        exists|i: int| 0 <= i < self.bounties@.len() && (#[trigger] self.bounties@[i]).id == id
    }

    /// The position of the record stored under `id` (meaningful only when
    /// `has_id(id)` holds; unique by well-formedness).
    pub open spec fn idx_of(self, id: u64) -> int {
        choose|i: int| 0 <= i < self.bounties@.len() && (#[trigger] self.bounties@[i]).id == id
    }

    /// The record stored under `id` (meaningful only when `has_id(id)` holds).
    pub open spec fn get(self, id: u64) -> Bounty {
        self.bounties@[self.idx_of(id)].bounty
    }

    /// Two positions holding the same id coincide.
    pub proof fn lemma_id_unique(self, i: int, j: int)
        requires
            self.wf(),
            0 <= i < self.bounties@.len(),
            0 <= j < self.bounties@.len(),
            self.bounties@[i].id == self.bounties@[j].id,
        ensures
            i == j,
    {
        if i < j {
            assert(self.bounties@[i].id < self.bounties@[j].id);
        } else if j < i {
            assert(self.bounties@[j].id < self.bounties@[i].id);
        }
    }

    /// When `has_id(id)` holds, `idx_of(id)` is the one position holding `id`.
    pub proof fn lemma_idx_of(self, id: u64)
        requires
            self.wf(),
            self.has_id(id),
        ensures
            0 <= self.idx_of(id) < self.bounties@.len(),
            self.bounties@[self.idx_of(id)].id == id,
            forall|i: int|
                0 <= i < self.bounties@.len() && (#[trigger] self.bounties@[i]).id == id
                    ==> i == self.idx_of(id),
    {
        let k = self.idx_of(id);
        assert(0 <= k < self.bounties@.len() && self.bounties@[k].id == id);
        assert forall|i: int|
            0 <= i < self.bounties@.len() && (#[trigger] self.bounties@[i]).id == id implies i
            == k by {
            self.lemma_id_unique(i, k);
        }
    }

    /// In a well-formed ledger every stored id is distinct: an id, once
    /// assigned, denotes one record forever.
    pub proof fn lemma_ids_distinct(self)
        requires
            self.wf(),
        ensures
            forall|i: int, j: int|
                #![trigger self.bounties@[i], self.bounties@[j]]
                0 <= i < self.bounties@.len() && 0 <= j < self.bounties@.len() && i != j
                    ==> self.bounties@[i].id != self.bounties@[j].id,
    {
        assert forall|i: int, j: int|
            #![trigger self.bounties@[i], self.bounties@[j]]
            0 <= i < self.bounties@.len() && 0 <= j < self.bounties@.len() && i != j implies self
            .bounties@[i].id != self.bounties@[j].id by {
            if self.bounties@[i].id == self.bounties@[j].id {
                self.lemma_id_unique(i, j);
            }
        }
    }

    /// The id the next creation would assign is fresh: no stored bounty has
    /// it, so ids are never reused, however many creations failed before.
    pub proof fn lemma_next_id_fresh(self)
        requires
            self.wf(),
        ensures
            forall|i: int|
                0 <= i < self.bounties@.len() ==> (#[trigger] self.bounties@[i]).id
                    != self.next_bounty_id,
    {
    }

    /// The position of the record stored under `id`, by ascending scan, or
    /// `None` when no record has that id.
    pub fn find(&self, id: u64) -> (r: Option<usize>)
        requires
            self.wf(),
        ensures
            match r {
                Some(k) => self.has_id(id) && k < self.bounties@.len() && self.bounties@[
                    k as int
                ].id == id && k as int == self.idx_of(id),
                None => !self.has_id(id),
            },
    {
        let n: usize = self.bounties.len();
        for i in 0..n
            invariant
                self.wf(),
                n == self.bounties@.len(),
                forall|j: int| 0 <= j < i ==> (#[trigger] self.bounties@[j]).id != id,
        {
            if self.bounties[i].id == id {
                proof {
                    assert(self.has_id(id));
                    self.lemma_idx_of(id);
                }
                return Some(i);
            }
        }
        None
    }

    /// Every entry of the full ascending listing is exactly the record an
    /// individual lookup of its id returns.
    pub proof fn lemma_list_matches_get(self, i: int)
        requires
            self.wf(),
            0 <= i < self.bounties@.len(),
        ensures
            self.has_id(self.bounties@[i].id),
            self.get(self.bounties@[i].id) == self.bounties@[i].bounty,
    {
        let id = self.bounties@[i].id;
        assert(self.has_id(id));
        let k = self.idx_of(id);
        assert(0 <= k < self.bounties@.len() && self.bounties@[k].id == id);
        self.lemma_id_unique(i, k);
    }
}

/// The expiry predicate: a set height deadline strictly exceeded by the
/// current height, or a set time deadline strictly exceeded by the current
/// time. With neither deadline set the bounty never expires by this
/// predicate.
pub open spec fn spec_expired(b: Bounty, height: u64, time: u64) -> bool {
    ||| b.end_height matches Some(h) && height > h
    ||| b.end_time matches Some(t) && time > t
}

/// Helper to check if a bounty is expired under the current clock.
pub fn check_expired(bounty: &Bounty, env: &Env) -> (r: bool)
    ensures
        r == spec_expired(*bounty, env.height, env.time),
{
    if let Some(end_height) = bounty.end_height {
        if env.height > end_height {
            return true;
        }
    }
    if let Some(end_time) = bounty.end_time {
        if env.time > end_time {
            return true;
        }
    }
    false
}

/// Helper to validate that a bounty is still open: a closed bounty must
/// never transition (or pay out) again.
pub fn ensure_bounty_open(bounty: &Bounty) -> (r: Result<(), ContractError>)
    ensures
        r is Ok <==> bounty.status == BountyStatus::Open,
        bounty.status != BountyStatus::Open ==> r == Err::<(), ContractError>(
            ContractError::BountyExpired,
        ),
{
    if bounty.status != BountyStatus::Open {
        Err(ContractError::BountyExpired)
    } else {
        Ok(())
    }
}

/// The id of the first bounty, in ascending id order, whose issuer is
/// `owner`; `None` when `owner` issued none of them.
pub open spec fn first_bounty_of_owner(s: Seq<BountyEntry>, owner: Seq<char>) -> Option<u64>
    decreases s.len(),
{
    if s.len() == 0 {
        None
    } else if s[0].bounty.issuer@ == owner {
        Some(s[0].id)
    } else {
        first_bounty_of_owner(s.skip(1), owner)
    }
}

/// The bounty id of the first bounty, scanning ids in ascending order,
/// whose issuer is `owner`.
pub fn bounty_id_by_owner(ledger: &BountyLedger, owner: &String) -> (r: Option<u64>)
    ensures
        r == first_bounty_of_owner(ledger.bounties@, owner@),
{
    let n = ledger.bounties.len();
    proof {
        assert(ledger.bounties@.skip(0) =~= ledger.bounties@);
    }
    for i in 0..n
        invariant
            n == ledger.bounties@.len(),
            first_bounty_of_owner(ledger.bounties@, owner@) == first_bounty_of_owner(
                ledger.bounties@.skip(i as int),
                owner@,
            ),
    {
        if ledger.bounties[i].bounty.issuer == *owner {
            proof {
                assert(ledger.bounties@.skip(i as int)[0] == ledger.bounties@[i as int]);
            }
            return Some(ledger.bounties[i].id);
        }
        proof {
            assert(ledger.bounties@.skip(i as int)[0] == ledger.bounties@[i as int]);
            assert(ledger.bounties@.skip(i as int).skip(1) =~= ledger.bounties@.skip(i as int + 1));
        }
    }
    proof {
        assert(ledger.bounties@.skip(n as int).len() == 0);
    }
    None
}

} // verus!
