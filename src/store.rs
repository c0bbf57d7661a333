//! Outcomes of the relational store, and an in-memory store with the same
//! constraints as its schema: unique e-mail per account, unique MAC address per
//! device, creation times assigned at insert.
use vstd::prelude::*;

use crate::model::{Account, Device, NewDevice};
use crate::text::{contains_str, contains_text, same_text};

verus! {

/// How a failed store call is classified.
#[derive(PartialEq, Eq, Structural, Clone, Copy, Debug)]
pub enum StoreFailure {
    /// A write would break a uniqueness constraint.
    UniqueViolation,
    /// Connectivity, syntax, timeout or any other failure.
    Other,
}

/// The classification of a failure from the text the store reported.
pub open spec fn failure_of(message: Seq<char>) -> StoreFailure {
    if contains_text(message, "duplicate key"@) {
        StoreFailure::UniqueViolation
    } else {
        StoreFailure::Other
    }
}

/// Classifies a store failure from its message: a uniqueness violation is
/// reported by the store as a "duplicate key".
pub fn classify_failure(message: &str) -> (r: StoreFailure)
    ensures
        r == failure_of(message@),
{
    if contains_str(message, "duplicate key") {
        StoreFailure::UniqueViolation
    } else {
        StoreFailure::Other
    }
}

/// The row that an insert of `row` stores under `id` at time `created_at`.
pub open spec fn stored_row(row: NewDevice, id: u128, created_at: i64) -> Device {
    Device {
        id,
        name: row.name,
        mac_address: row.mac_address,
        status: row.status,
        assigned_to_user_id: row.assigned_to_user_id,
        location: row.location,
        last_seen_at: None,
        created_at,
    }
}

/// Some row of `rows` has MAC address `mac`.
pub open spec fn mac_taken(rows: Seq<Device>, mac: Seq<char>) -> bool {
    exists|i: int| 0 <= i < rows.len() && #[trigger] rows[i].mac_address@ == mac
}

/// `rows` ordered from the most recently created to the oldest.
pub open spec fn newest_first(rows: Seq<Device>) -> bool {
    forall|i: int, j: int| 0 <= i < j < rows.len() ==> rows[j].created_at <= rows[i].created_at
}

/// Some row of `rows` has identifier `id`.
pub open spec fn id_taken(rows: Seq<Device>, id: u128) -> bool {
    exists|i: int| 0 <= i < rows.len() && #[trigger] rows[i].id == id
}

/// Identifiers and MAC addresses are unique, no status is empty, and
/// creation times never decrease along `rows`.
pub open spec fn devices_wf(rows: Seq<Device>) -> bool {
    &&& forall|i: int, j: int| 0 <= i < j < rows.len() ==> #[trigger] rows[i].id != #[trigger] rows[j].id
    &&& forall|i: int| 0 <= i < rows.len() ==> #[trigger] rows[i].status@.len() > 0
    &&& forall|i: int, j: int|
        0 <= i < j < rows.len() ==> #[trigger] rows[i].mac_address@ != #[trigger] rows[j].mac_address@
    &&& forall|i: int, j: int|
        0 <= i < j < rows.len() ==> #[trigger] rows[i].created_at <= #[trigger] rows[j].created_at
}

/// The creation time given to a row inserted at `now`: `now`, or the latest
/// creation time in `rows` if that is later.
pub open spec fn assigned_time(rows: Seq<Device>, now: i64) -> i64 {
    if rows.len() > 0 && now < rows.last().created_at {
        rows.last().created_at
    } else {
        now
    }
}

/// The rows after an insert of `row` under `id` at `now`, and its result.
pub open spec fn insert_outcome(rows: Seq<Device>, row: NewDevice, id: u128, now: i64) -> (Seq<
    Device,
>, Result<Device, StoreFailure>) {
    if mac_taken(rows, row.mac_address@) {
        (rows, Err(StoreFailure::UniqueViolation))
    } else {
        let d = stored_row(row, id, assigned_time(rows, now));
        (rows.push(d), Ok(d))
    }
}

/// What a listing returns: the rows, the most recently inserted first.
pub open spec fn listed(rows: Seq<Device>) -> Seq<Device> {
    rows.reverse()
}

/// The device table, in order of insertion.
pub struct DeviceTable {
    rows: Vec<Device>,
}

impl DeviceTable {
    /// The rows, oldest first.
    pub closed spec fn view(&self) -> Seq<Device> {
        self.rows@
    }

    /// The table's constraints hold of its rows.
    pub open spec fn wf(&self) -> bool {
        devices_wf(self@)
    }

    /// An empty table.
    pub fn new() -> (r: DeviceTable)
        ensures
            r.wf(),
            r@ == Seq::<Device>::empty(),
    {
        DeviceTable { rows: Vec::new() }
    }

    /// The number of rows.
    pub fn len(&self) -> (r: usize)
        ensures
            r == self@.len(),
    {
        self.rows.len()
    }

    /// Whether a row has MAC address `mac`.
    pub fn has_mac(&self, mac: &str) -> (r: bool)
        ensures
            r == mac_taken(self@, mac@),
    {
        let mut i: usize = 0;
        while i < self.rows.len()
            invariant
                i <= self@.len(),
                forall|k: int| 0 <= k < i ==> #[trigger] self@[k].mac_address@ != mac@,
            decreases self@.len() - i,
        {
            if same_text(self.rows[i].mac_address.as_str(), mac) {
                return true;
            }
            i = i + 1;
        }
        false
    }

    /// Inserts `row` under `id` in a single write. Its creation time is `now`,
    /// or the latest creation time in the table if that is later, so that
    /// creation times follow the order of insertion. A MAC address that is
    /// already stored fails with a uniqueness violation and changes nothing.
    /// The identifier is generated by the server and so is not yet in use;
    /// the status is already resolved, so it is not empty.
    pub fn insert(&mut self, id: u128, row: NewDevice, now: i64) -> (r: Result<Device, StoreFailure>)
        requires
            old(self).wf(),
            !id_taken(old(self)@, id),
            row.status@.len() > 0,
        ensures
            final(self).wf(),
            (final(self)@, r) == insert_outcome(old(self)@, row, id, now),
    {
        if self.has_mac(row.mac_address.as_str()) {
            return Err(StoreFailure::UniqueViolation);
        }
        let n = self.rows.len();
        let created_at = if n > 0 && now < self.rows[n - 1].created_at {
            self.rows[n - 1].created_at
        } else {
            now
        };
        let d = Device {
            id,
            name: row.name,
            mac_address: row.mac_address,
            status: row.status,
            assigned_to_user_id: row.assigned_to_user_id,
            location: row.location,
            last_seen_at: None,
            created_at,
        };
        let stored = d.duplicate();
        self.rows.push(stored);
        proof {
            let s = self@;
            assert forall|i: int, j: int| 0 <= i < j < s.len() implies s[i].created_at <= s[j].created_at by {
                if j < n {
                    assert(s[i] == old(self)@[i] && s[j] == old(self)@[j]);
                } else {
                    assert(s[i] == old(self)@[i]);
                    if i < n - 1 {
                        assert(old(self)@[i].created_at <= old(self)@[n - 1].created_at);
                    }
                }
            }
            assert forall|i: int, j: int| 0 <= i < j < s.len() implies s[i].id != s[j].id by {
                if j < n {
                    assert(s[i] == old(self)@[i] && s[j] == old(self)@[j]);
                } else {
                    assert(s[i] == old(self)@[i]);
                }
            }
            assert forall|i: int| 0 <= i < s.len() implies s[i].status@.len() > 0 by {
                if i < n {
                    assert(s[i] == old(self)@[i]);
                }
            }
            assert forall|i: int, j: int| 0 <= i < j < s.len() implies s[i].mac_address@ != s[j].mac_address@ by {
                if j < n {
                    assert(s[i] == old(self)@[i] && s[j] == old(self)@[j]);
                } else {
                    assert(s[i] == old(self)@[i]);
                }
            }
        }
        Ok(d)
    }

    /// All rows, the most recently created first.
    pub fn list_newest_first(&self) -> (r: Vec<Device>)
        requires
            self.wf(),
        ensures
            r@ == listed(self@),
            newest_first(r@),
    {
        let n = self.rows.len();
        let mut out: Vec<Device> = Vec::new();
        let mut k: usize = n;
        while k > 0
            invariant
                n == self@.len(),
                k <= n,
                out@ == self@.subrange(k as int, n as int).reverse(),
            decreases k,
        {
            k = k - 1;
            out.push(self.rows[k].duplicate());
            assert(out@ =~= self@.subrange(k as int, n as int).reverse());
        }
        assert(self@.subrange(0, n as int) =~= self@);
        proof {
            let s = self@;
            assert forall|i: int, j: int| 0 <= i < j < out@.len() implies out@[j].created_at <= out@[i].created_at by {
                assert(out@[i] == s[n - 1 - i] && out@[j] == s[n - 1 - j]);
            }
        }
        out
    }
}

/// Some row of `rows` has e-mail `email`.
pub open spec fn email_taken(rows: Seq<Account>, email: Seq<char>) -> bool {
    exists|i: int| 0 <= i < rows.len() && #[trigger] rows[i].email@ == email
}

/// The account table.
pub struct AccountTable {
    rows: Vec<Account>,
}

impl AccountTable {
    /// The rows.
    pub closed spec fn view(&self) -> Seq<Account> {
        self.rows@
    }

    /// E-mail addresses are unique.
    pub open spec fn wf(&self) -> bool {
        forall|i: int, j: int|
            0 <= i < j < self@.len() ==> #[trigger] self@[i].email@ != #[trigger] self@[j].email@
    }

    /// An empty table.
    pub fn new() -> (r: AccountTable)
        ensures
            r.wf(),
            r@ == Seq::<Account>::empty(),
    {
        AccountTable { rows: Vec::new() }
    }

    /// Adds an account, as done out of band; an e-mail that is already stored
    /// fails with a uniqueness violation and changes nothing.
    pub fn insert(&mut self, account: Account) -> (r: Result<(), StoreFailure>)
        requires
            old(self).wf(),
        ensures
            final(self).wf(),
            email_taken(old(self)@, account.email@) ==> r == Err::<(), StoreFailure>(
                StoreFailure::UniqueViolation,
            ) && final(self)@ == old(self)@,
            !email_taken(old(self)@, account.email@) ==> r == Ok::<(), StoreFailure>(())
                && final(self)@ == old(self)@.push(account),
    {
        let found = self.find_by_email(account.email.as_str());
        if found.is_some() {
            return Err(StoreFailure::UniqueViolation);
        }
        let ghost n = self@.len();
        self.rows.push(account);
        proof {
            let s = self@;
            assert forall|i: int, j: int| 0 <= i < j < s.len() implies s[i].email@ != s[j].email@ by {
                assert(s[i] == old(self)@[i]);
                if j < n {
                    assert(s[j] == old(self)@[j]);
                }
            }
        }
        Ok(())
    }

    /// The account whose e-mail is exactly `email`, if any.
    pub fn find_by_email(&self, email: &str) -> (r: Option<Account>)
        ensures
            r is None <==> !email_taken(self@, email@),
            r matches Some(a) ==> a.email@ == email@ && exists|i: int|
                0 <= i < self@.len() && self@[i] == a,
    {
        let mut i: usize = 0;
        while i < self.rows.len()
            invariant
                i <= self@.len(),
                forall|k: int| 0 <= k < i ==> #[trigger] self@[k].email@ != email@,
            decreases self@.len() - i,
        {
            if same_text(self.rows[i].email.as_str(), email) {
                return Some(self.rows[i].duplicate());
            }
            i = i + 1;
        }
        None
    }
}

} // verus!
