//! Payment records and the store that holds them.
//!
//! A payment's status only moves forward: `Pending` to `Completed` or to
//! `Expired`. Ids and addresses are unique across the store.

use vstd::prelude::*;

verus! {

/// Lifecycle of a payment.
#[derive(Debug, Clone, Copy, PartialEq, Eq, Structural)]
pub enum PaymentStatus {
    Pending,
    Completed,
    Expired,
}

/// One receiving instance of the gateway.
#[derive(Debug, Clone)]
pub struct Payment {
    /// Opaque unique identifier.
    pub id: String,
    /// Single-use receiving address.
    pub address: String,
    /// The secret key, sealed by the key vault.
    pub wif_enc: String,
    /// Requested total, in the chain's base unit.
    pub amount: u64,
    pub status: PaymentStatus,
    /// Seconds since the epoch.
    pub created_at: i64,
    /// Seconds since the epoch; advances on every change of state.
    pub updated_at: i64,
    /// Deadline in seconds since the epoch; 0 for none.
    pub expires_at: i64,
}

impl Payment {
    /// A copy of the record.
    pub fn cloned(&self) -> (r: Payment)
        ensures
            r == *self,
    {
        Payment {
            id: self.id.clone(),
            address: self.address.clone(),
            wif_enc: self.wif_enc.clone(),
            amount: self.amount,
            status: self.status,
            created_at: self.created_at,
            updated_at: self.updated_at,
            expires_at: self.expires_at,
        }
    }
}

/// Why the store refused a write.
#[derive(Debug, Clone, Copy, PartialEq, Eq, Structural)]
pub enum StoreError {
    /// A payment with this id is stored already.
    DuplicateId,
    /// A payment with this address is stored already.
    DuplicateAddress,
}

/// The record as stored by `insert` at time `now`: pending, created and
/// updated then.
pub open spec fn as_inserted(p: Payment, now: i64) -> Payment {
    Payment { status: PaymentStatus::Pending, created_at: now, updated_at: now, ..p }
}

/// Some row has the id `id`.
pub open spec fn has_id(rows: Seq<Payment>, id: Seq<char>) -> bool {
    exists|i: int| 0 <= i < rows.len() && (#[trigger] rows[i]).id@ == id
}

/// Some row has the address `a`.
pub open spec fn has_address(rows: Seq<Payment>, a: Seq<char>) -> bool {
    exists|i: int| 0 <= i < rows.len() && (#[trigger] rows[i]).address@ == a
}

/// No two rows share an id or an address.
pub open spec fn unique_keys(rows: Seq<Payment>) -> bool {
    forall|i: int, j: int|
        0 <= i < rows.len() && 0 <= j < rows.len() && i != j ==> (#[trigger] rows[i]).id@
            != (#[trigger] rows[j]).id@ && rows[i].address@ != rows[j].address@
}

/// The rows after `mark_completed(id)` at time `now`.
pub open spec fn after_mark_completed(rows: Seq<Payment>, id: Seq<char>, now: i64) -> Seq<Payment> {
    Seq::new(
        rows.len(),
        |i: int|
            if rows[i].id@ == id {
                Payment { status: PaymentStatus::Completed, updated_at: now, ..rows[i] }
            } else {
                rows[i]
            },
    )
}

/// The rows after `mark_expired(id)` at time `now`: only a pending row moves.
pub open spec fn after_mark_expired(rows: Seq<Payment>, id: Seq<char>, now: i64) -> Seq<Payment> {
    Seq::new(
        rows.len(),
        |i: int|
            if rows[i].id@ == id && rows[i].status == PaymentStatus::Pending {
                Payment { status: PaymentStatus::Expired, updated_at: now, ..rows[i] }
            } else {
                rows[i]
            },
    )
}

/// The payment store: every record, in order of insertion.
pub struct Db {
    rows: Vec<Payment>,
}

impl View for Db {
    type V = Seq<Payment>;

    /// The records, in order of insertion.
    closed spec fn view(&self) -> Seq<Payment> {
        self.rows@
    }
}

impl Db {
    /// The store is well formed: no two records share an id or an address.
    pub open spec fn wf(&self) -> bool {
        unique_keys(self@)
    }

    /// An empty store.
    pub fn new() -> (r: Db)
        ensures
            r@ == Seq::<Payment>::empty(),
            r.wf(),
    {
        Db { rows: Vec::new() }
    }

    /// Stores a new payment as pending, created and updated at `now`; fails
    /// when its id or its address is taken.
    pub fn insert(&mut self, p: &Payment, now: i64) -> (r: Result<(), StoreError>)
        requires
            old(self).wf(),
        ensures
            final(self).wf(),
            has_id(old(self)@, p.id@) ==> r == Err::<(), StoreError>(StoreError::DuplicateId),
            !has_id(old(self)@, p.id@) && has_address(old(self)@, p.address@) ==> r == Err::<
                (),
                StoreError,
            >(StoreError::DuplicateAddress),
            r is Ok ==> final(self)@ == old(self)@.push(as_inserted(*p, now)),
            r is Err ==> final(self)@ == old(self)@,
            r is Ok <==> !has_id(old(self)@, p.id@) && !has_address(old(self)@, p.address@),
    {
        let mut i: usize = 0;
        let mut id_taken = false;
        let mut address_taken = false;
        while i < self.rows.len()
            invariant
                i <= self.rows@.len(),
                id_taken <==> exists|j: int| 0 <= j < i && (#[trigger] self.rows@[j]).id@ == p.id@,
                address_taken <==> exists|j: int|
                    0 <= j < i && (#[trigger] self.rows@[j]).address@ == p.address@,
            decreases self.rows@.len() - i,
        {
            if self.rows[i].id == p.id {
                id_taken = true;
            }
            if self.rows[i].address == p.address {
                address_taken = true;
            }
            i = i + 1;
        }
        if id_taken {
            return Err(StoreError::DuplicateId);
        }
        if address_taken {
            return Err(StoreError::DuplicateAddress);
        }
        let mut row = p.cloned();
        row.status = PaymentStatus::Pending;
        row.created_at = now;
        row.updated_at = now;
        self.rows.push(row);
        Ok(())
    }

    /// Stores a record as it is (a payment read back from durable
    /// storage); fails when its id or its address is taken.
    pub fn restore(&mut self, p: Payment) -> (r: Result<(), StoreError>)
        requires
            old(self).wf(),
        ensures
            final(self).wf(),
            has_id(old(self)@, p.id@) ==> r == Err::<(), StoreError>(StoreError::DuplicateId),
            !has_id(old(self)@, p.id@) && has_address(old(self)@, p.address@) ==> r == Err::<
                (),
                StoreError,
            >(StoreError::DuplicateAddress),
            r is Ok ==> final(self)@ == old(self)@.push(p),
            r is Err ==> final(self)@ == old(self)@,
            r is Ok <==> !has_id(old(self)@, p.id@) && !has_address(old(self)@, p.address@),
    {
        let mut i: usize = 0;
        let mut id_taken = false;
        let mut address_taken = false;
        while i < self.rows.len()
            invariant
                i <= self.rows@.len(),
                id_taken <==> exists|j: int| 0 <= j < i && (#[trigger] self.rows@[j]).id@ == p.id@,
                address_taken <==> exists|j: int|
                    0 <= j < i && (#[trigger] self.rows@[j]).address@ == p.address@,
            decreases self.rows@.len() - i,
        {
            if self.rows[i].id == p.id {
                id_taken = true;
            }
            if self.rows[i].address == p.address {
                address_taken = true;
            }
            i = i + 1;
        }
        if id_taken {
            return Err(StoreError::DuplicateId);
        }
        if address_taken {
            return Err(StoreError::DuplicateAddress);
        }
        self.rows.push(p);
        Ok(())
    }

    /// The payment with id `id`, if stored.
    pub fn find(&self, id: &str) -> (r: Option<Payment>)
        requires
            self.wf(),
        ensures
            r is None <==> !has_id(self@, id@),
            r matches Some(q) ==> q.id@ == id@ && exists|i: int|
                0 <= i < self@.len() && #[trigger] self@[i] == q,
    {
        let key = id.to_owned();
        let mut i: usize = 0;
        while i < self.rows.len()
            invariant
                i <= self.rows@.len(),
                key@ == id@,
                forall|j: int| 0 <= j < i ==> (#[trigger] self.rows@[j]).id@ != id@,
            decreases self.rows@.len() - i,
        {
            if self.rows[i].id == key {
                let q = self.rows[i].cloned();
                assert(self@[i as int] == q);
                return Some(q);
            }
            i = i + 1;
        }
        None
    }

    /// Every stored payment, in order of insertion.
    pub fn all(&self) -> (r: Vec<Payment>)
        ensures
            r@ == self@,
    {
        let mut out: Vec<Payment> = Vec::new();
        let mut i: usize = 0;
        while i < self.rows.len()
            invariant
                i <= self.rows@.len(),
                out@ == self.rows@.subrange(0, i as int),
            decreases self.rows@.len() - i,
        {
            out.push(self.rows[i].cloned());
            i = i + 1;
            assert(out@ =~= self.rows@.subrange(0, i as int));
        }
        assert(self.rows@.subrange(0, self.rows@.len() as int) =~= self.rows@);
        out
    }

    /// Marks the payment with id `id` completed at `now`, whatever its
    /// status; returns whether such a payment is stored.
    pub fn mark_completed(&mut self, id: &str, now: i64) -> (r: bool)
        requires
            old(self).wf(),
        ensures
            final(self).wf(),
            final(self)@ == after_mark_completed(old(self)@, id@, now),
            r == has_id(old(self)@, id@),
    {
        let key = id.to_owned();
        let ghost before = self.rows@;
        let mut found = false;
        let mut i: usize = 0;
        while i < self.rows.len()
            invariant
                i <= self.rows@.len(),
                key@ == id@,
                self.rows@.len() == before.len(),
                unique_keys(before),
                forall|j: int|
                    0 <= j < self.rows@.len() ==> #[trigger] self.rows@[j] == if j < i {
                        after_mark_completed(before, id@, now)[j]
                    } else {
                        before[j]
                    },
                found <==> exists|j: int| 0 <= j < i && (#[trigger] before[j]).id@ == id@,
            decreases self.rows@.len() - i,
        {
            if self.rows[i].id == key {
                let mut row = self.rows[i].cloned();
                row.status = PaymentStatus::Completed;
                row.updated_at = now;
                self.rows.set(i, row);
                found = true;
            }
            i = i + 1;
        }
        assert(self.rows@ =~= after_mark_completed(before, id@, now));
        assert(unique_keys(self.rows@)) by {
            assert forall|a: int, b: int|
                0 <= a < self.rows@.len() && 0 <= b < self.rows@.len() && a != b implies (
                #[trigger] self.rows@[a]).id@ != (#[trigger] self.rows@[b]).id@
                && self.rows@[a].address@ != self.rows@[b].address@ by {
                assert(before[a].id@ != before[b].id@);
            }
        }
        found
    }

    /// Marks the payment with id `id` expired at `now`, only if it is still
    /// pending; returns whether it changed.
    pub fn mark_expired(&mut self, id: &str, now: i64) -> (r: bool)
        requires
            old(self).wf(),
        ensures
            final(self).wf(),
            final(self)@ == after_mark_expired(old(self)@, id@, now),
            r == exists|i: int|
                0 <= i < old(self)@.len() && (#[trigger] old(self)@[i]).id@ == id@ && old(
                    self,
                )@[i].status == PaymentStatus::Pending,
    {
        let key = id.to_owned();
        let ghost before = self.rows@;
        let mut changed = false;
        let mut i: usize = 0;
        while i < self.rows.len()
            invariant
                i <= self.rows@.len(),
                key@ == id@,
                self.rows@.len() == before.len(),
                unique_keys(before),
                forall|j: int|
                    0 <= j < self.rows@.len() ==> #[trigger] self.rows@[j] == if j < i {
                        after_mark_expired(before, id@, now)[j]
                    } else {
                        before[j]
                    },
                changed <==> exists|j: int|
                    0 <= j < i && (#[trigger] before[j]).id@ == id@ && before[j].status
                        == PaymentStatus::Pending,
            decreases self.rows@.len() - i,
        {
            if self.rows[i].id == key && self.rows[i].status == PaymentStatus::Pending {
                let mut row = self.rows[i].cloned();
                row.status = PaymentStatus::Expired;
                row.updated_at = now;
                self.rows.set(i, row);
                changed = true;
            }
            i = i + 1;
        }
        assert(self.rows@ =~= after_mark_expired(before, id@, now));
        assert(unique_keys(self.rows@)) by {
            assert forall|a: int, b: int|
                0 <= a < self.rows@.len() && 0 <= b < self.rows@.len() && a != b implies (
                #[trigger] self.rows@[a]).id@ != (#[trigger] self.rows@[b]).id@
                && self.rows@[a].address@ != self.rows@[b].address@ by {
                assert(before[a].id@ != before[b].id@);
            }
        }
        changed
    }
}

/// Expiry never overwrites a final state: on a payment that is completed or
/// expired, `mark_expired` changes nothing.
pub proof fn lemma_mark_expired_keeps_final_state(rows: Seq<Payment>, i: int, now: i64)
    requires
        unique_keys(rows),
        0 <= i < rows.len(),
        rows[i].status != PaymentStatus::Pending,
    ensures
        after_mark_expired(rows, rows[i].id@, now) == rows,
{
    assert(after_mark_expired(rows, rows[i].id@, now) =~= rows);
}

} // verus!
