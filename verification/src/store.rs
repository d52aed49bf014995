use vstd::prelude::*;

verus! {

/// Lifecycle of a subscriber row: created pending, moved (once) to
/// confirmed, never deleted.
#[derive(Clone, Copy, PartialEq, Eq, Structural, Debug)]
pub enum SubscriberStatus {
    PendingConfirmation,
    Confirmed,
}

/// One row of the subscriptions table.
pub struct SubscriberRecord {
    pub id: u128,
    pub email: String,
    pub name: String,
    pub subscribed_at: i64,
    pub status: SubscriberStatus,
}

/// One row of the subscription_tokens table.
pub struct TokenRecord {
    pub token: String,
    pub subscriber_id: u128,
}

/// Stands for the backend's own error value on a failed operation.
#[derive(Debug)]
pub struct StoreError;

pub open spec fn spec_token_taken(rows: Seq<TokenRecord>, t: Seq<char>) -> bool {
    exists|i: int| 0 <= i < rows.len() && rows[i].token@ == t
}

pub open spec fn spec_token_maps_to(rows: Seq<TokenRecord>, t: Seq<char>, id: u128) -> bool {
    exists|i: int| 0 <= i < rows.len() && rows[i].token@ == t && rows[i].subscriber_id == id
}

/// Every row of `rows` with identifier `id` set to confirmed, all else as it
/// was.
pub open spec fn spec_mark_confirmed(rows: Seq<SubscriberRecord>, id: u128) -> Seq<SubscriberRecord> {
    rows.map(
        |i: int, r: SubscriberRecord|
            if r.id == id {
                SubscriberRecord { status: SubscriberStatus::Confirmed, ..r }
            } else {
                r
            },
    )
}

/// The durable store as one subscribe or confirm request sees it: the
/// committed rows of the two tables, the staging area of the request's own
/// transaction, and switches that model the backend becoming unable to
/// perform an operation (a lost connection, a corrupted schema).
pub struct SubscriptionStore {
    pub subscribers: Vec<SubscriberRecord>,
    pub tokens: Vec<TokenRecord>,
    pub staged_subscribers: Vec<SubscriberRecord>,
    pub staged_tokens: Vec<TokenRecord>,
    pub tx_open: bool,
    pub clock: i64,
    pub fail_begin: bool,
    pub fail_insert_subscriber: bool,
    pub fail_store_token: bool,
    pub fail_commit: bool,
    pub fail_lookup: bool,
    pub fail_update: bool,
}

impl SubscriptionStore {
    /// Identifiers are assigned in insertion order, so a committed row's
    /// identifier is its index.
    pub open spec fn committed_ids_sequential(&self) -> bool {
        forall|i: int|
            0 <= i < self.subscribers@.len() ==> (#[trigger] self.subscribers@[i].id) as int == i
    }

    pub open spec fn staged_ids_sequential(&self) -> bool {
        forall|j: int|
            0 <= j < self.staged_subscribers@.len() ==> (#[trigger] self.staged_subscribers@[j].id)
                as int == self.subscribers@.len() + j
    }

    pub open spec fn committed_tokens_unique(&self) -> bool {
        forall|i: int, j: int|
            0 <= i < j < self.tokens@.len() ==> (#[trigger] self.tokens@[i].token@)
                != (#[trigger] self.tokens@[j].token@)
    }

    pub open spec fn staged_tokens_fresh(&self) -> bool {
        &&& forall|i: int, j: int|
            0 <= i < j < self.staged_tokens@.len() ==> (#[trigger] self.staged_tokens@[i].token@)
                != (#[trigger] self.staged_tokens@[j].token@)
        &&& forall|i: int|
            0 <= i < self.staged_tokens@.len() ==> !spec_token_taken(
                self.tokens@,
                (#[trigger] self.staged_tokens@[i]).token@,
            )
    }

    /// Every token row, committed or staged, refers to a subscriber row that
    /// the same state holds.
    pub open spec fn tokens_reference_subscribers(&self) -> bool {
        &&& forall|i: int|
            0 <= i < self.tokens@.len() ==> ((#[trigger] self.tokens@[i].subscriber_id) as int)
                < self.subscribers@.len()
        &&& forall|i: int|
            0 <= i < self.staged_tokens@.len() ==> ((#[trigger] self.staged_tokens@[i].subscriber_id) as int)
                < self.subscribers@.len() + self.staged_subscribers@.len()
    }

    pub open spec fn wf(&self) -> bool {
        &&& self.committed_ids_sequential()
        &&& self.staged_ids_sequential()
        &&& self.committed_tokens_unique()
        &&& self.staged_tokens_fresh()
        &&& self.tokens_reference_subscribers()
        &&& !self.tx_open ==> self.staged_subscribers@.len() == 0 && self.staged_tokens@.len() == 0
    }

    /// The committed rows, which are all another request could observe.
    pub open spec fn committed_unchanged(&self, other: &SubscriptionStore) -> bool {
        &&& self.subscribers@ =~= other.subscribers@
        &&& self.tokens@ =~= other.tokens@
    }

    pub open spec fn config_unchanged(&self, other: &SubscriptionStore) -> bool {
        &&& self.clock == other.clock
        &&& self.fail_begin == other.fail_begin
        &&& self.fail_insert_subscriber == other.fail_insert_subscriber
        &&& self.fail_store_token == other.fail_store_token
        &&& self.fail_commit == other.fail_commit
        &&& self.fail_lookup == other.fail_lookup
        &&& self.fail_update == other.fail_update
    }

    /// An empty store with a healthy backend.
    pub fn new() -> (s: SubscriptionStore)
        ensures
            s.wf(),
            s.subscribers@.len() == 0,
            s.tokens@.len() == 0,
            !s.tx_open,
            s.clock == 0,
            !s.fail_begin,
            !s.fail_insert_subscriber,
            !s.fail_store_token,
            !s.fail_commit,
            !s.fail_lookup,
            !s.fail_update,
    {
        SubscriptionStore {
            subscribers: Vec::new(),
            tokens: Vec::new(),
            staged_subscribers: Vec::new(),
            staged_tokens: Vec::new(),
            tx_open: false,
            clock: 0,
            fail_begin: false,
            fail_insert_subscriber: false,
            fail_store_token: false,
            fail_commit: false,
            fail_lookup: false,
            fail_update: false,
        }
    }

    /// Acquires a connection and opens a transaction; fails when the pool
    /// cannot supply one within its timeout.
    pub fn begin(&mut self) -> (r: Result<(), StoreError>)
        requires
            old(self).wf(),
            !old(self).tx_open,
        ensures
            final(self).wf(),
            final(self).committed_unchanged(old(self)),
            final(self).config_unchanged(old(self)),
            r is Ok <==> !old(self).fail_begin,
            r is Ok ==> final(self).tx_open && final(self).staged_subscribers@.len() == 0
                && final(self).staged_tokens@.len() == 0,
            r is Err ==> *final(self) == *old(self),
    {
        if self.fail_begin {
            Err(StoreError)
        } else {
            self.tx_open = true;
            Ok(())
        }
    }

    /// Publishes the staged rows atomically; on failure the transaction is
    /// rolled back and nothing staged becomes visible.
    pub fn commit(&mut self) -> (r: Result<(), StoreError>)
        requires
            old(self).wf(),
            old(self).tx_open,
        ensures
            final(self).wf(),
            final(self).config_unchanged(old(self)),
            !final(self).tx_open,
            final(self).staged_subscribers@.len() == 0,
            final(self).staged_tokens@.len() == 0,
            r is Ok <==> !old(self).fail_commit,
            r is Ok ==> final(self).subscribers@ =~= old(self).subscribers@
                + old(self).staged_subscribers@,
            r is Ok ==> final(self).tokens@ =~= old(self).tokens@ + old(self).staged_tokens@,
            r is Err ==> final(self).committed_unchanged(old(self)),
    {
        if self.fail_commit {
            self.rollback();
            Err(StoreError)
        } else {
            self.tx_open = false;
            self.subscribers.append(&mut self.staged_subscribers);
            self.tokens.append(&mut self.staged_tokens);
            proof {
                let sn = old(self).subscribers@.len() as int;
                let tn = old(self).tokens@.len() as int;
                assert forall|i: int| 0 <= i < self.subscribers@.len() implies (
                #[trigger] self.subscribers@[i].id) as int == i by {
                    if i < sn {
                        assert(self.subscribers@[i] == old(self).subscribers@[i]);
                    } else {
                        assert(self.subscribers@[i] == old(self).staged_subscribers@[i - sn]);
                    }
                }
                assert forall|i: int, j: int| 0 <= i < j < self.tokens@.len() implies (
                #[trigger] self.tokens@[i].token@) != (#[trigger] self.tokens@[j].token@) by {
                    if i < tn && j >= tn {
                        assert(self.tokens@[i] == old(self).tokens@[i]);
                        assert(self.tokens@[j] == old(self).staged_tokens@[j - tn]);
                        assert(!spec_token_taken(
                            old(self).tokens@,
                            old(self).staged_tokens@[j - tn].token@,
                        ));
                    } else if i >= tn {
                        assert(self.tokens@[i] == old(self).staged_tokens@[i - tn]);
                        assert(self.tokens@[j] == old(self).staged_tokens@[j - tn]);
                    } else {
                        assert(self.tokens@[i] == old(self).tokens@[i]);
                        assert(self.tokens@[j] == old(self).tokens@[j]);
                    }
                }
                assert forall|i: int| 0 <= i < self.tokens@.len() implies ((
                #[trigger] self.tokens@[i].subscriber_id) as int) < self.subscribers@.len() by {
                    if i < tn {
                        assert(self.tokens@[i] == old(self).tokens@[i]);
                    } else {
                        assert(self.tokens@[i] == old(self).staged_tokens@[i - tn]);
                    }
                }
            }
            Ok(())
        }
    }

    /// Discards whatever the open transaction staged.
    pub fn rollback(&mut self)
        requires
            old(self).wf(),
        ensures
            final(self).wf(),
            final(self).committed_unchanged(old(self)),
            final(self).config_unchanged(old(self)),
            !final(self).tx_open,
            final(self).staged_subscribers@.len() == 0,
            final(self).staged_tokens@.len() == 0,
    {
        self.tx_open = false;
        self.staged_subscribers.clear();
        self.staged_tokens.clear();
    }
}

/// Character-by-character string equality, stated over the views.
pub fn str_eq(a: &str, b: &str) -> (r: bool)
    ensures
        r == (a@ == b@),
{
    let an = a.unicode_len();
    let bn = b.unicode_len();
    if an != bn {
        proof {
            assert(a@ != b@);
        }
        return false;
    }
    let mut i: usize = 0;
    while i < an
        invariant
            i <= an,
            an == a@.len(),
            an == b@.len(),
            forall|j: int| 0 <= j < i ==> a@[j] == b@[j],
        decreases an - i,
    {
        if a.get_char(i) != b.get_char(i) {
            proof {
                assert(a@[i as int] != b@[i as int]);
            }
            return false;
        }
        i += 1;
    }
    proof {
        assert(a@ =~= b@);
    }
    true
}

} // verus!
