//! The device registry: listing and creation, with the store's outcomes
//! mapped to API results.
use vstd::prelude::*;

use crate::error::{ApiError, Query};
use crate::model::{CreateDeviceRequest, Device, NewDevice};
use crate::store::{
    assigned_time, devices_wf, id_taken, insert_outcome, listed, mac_taken, newest_first, stored_row, DeviceTable,
    StoreFailure,
};

verus! {

/// The status stored for a requested `status`: the request's own, or
/// `"active"` where it gives none or an empty one, as a status is never empty.
pub open spec fn resolved_status(status: Option<String>) -> Seq<char> {
    match status {
        Some(s) => if s@.len() > 0 {
            s@
        } else {
            "active"@
        },
        None => "active"@,
    }
}

/// `row` holds the values of `req` that an insert binds, the status resolved.
pub open spec fn prepared(req: CreateDeviceRequest, row: NewDevice) -> bool {
    &&& row.name == req.name
    &&& row.mac_address == req.mac_address
    &&& row.status@ == resolved_status(req.status)
    &&& row.assigned_to_user_id == req.assigned_to_user_id
    &&& row.location == req.location
}

/// Resolves a requested status, which defaults to `"active"`.
pub fn resolve_status(status: Option<String>) -> (r: String)
    ensures
        r@ == resolved_status(status),
        r@.len() > 0,
{
    proof {
        reveal_strlit("active");
    }
    match status {
        Some(s) => {
            if s.as_str().is_empty() {
                String::from_str("active")
            } else {
                s
            }
        },
        None => String::from_str("active"),
    }
}

/// The values that the insert of a new device binds.
pub fn insert_values(req: CreateDeviceRequest) -> (r: NewDevice)
    ensures
        prepared(req, r),
        r.status@.len() > 0,
{
    let CreateDeviceRequest { name, mac_address, status, assigned_to_user_id, location } = req;
    let status = resolve_status(status);
    NewDevice { name, mac_address, status, assigned_to_user_id, location }
}

/// The error reported when the insert of a device fails with `f`.
pub open spec fn create_error(f: StoreFailure) -> ApiError {
    match f {
        StoreFailure::UniqueViolation => ApiError::DuplicateDevice,
        StoreFailure::Other => ApiError::CreateFailed,
    }
}

/// Maps the outcome of a device insert: the new row, or the API error for
/// the store's failure.
pub fn create_result(outcome: Result<Device, StoreFailure>) -> (r: Result<Device, ApiError>)
    ensures
        r == (match outcome {
            Ok(d) => Ok(d),
            Err(f) => Err(create_error(f)),
        }),
{
    match outcome {
        Ok(d) => Ok(d),
        Err(StoreFailure::UniqueViolation) => Err(ApiError::DuplicateDevice),
        Err(StoreFailure::Other) => Err(ApiError::CreateFailed),
    }
}

/// Maps the outcome of the device listing: the rows as given, or a
/// persistence error.
pub fn list_result(outcome: Result<Vec<Device>, StoreFailure>) -> (r: Result<Vec<Device>, ApiError>)
    ensures
        r == (match outcome {
            Ok(v) => Ok(v),
            Err(_) => Err(ApiError::PersistenceError(Query::DeviceListing)),
        }),
{
    match outcome {
        Ok(v) => Ok(v),
        Err(_) => Err(ApiError::PersistenceError(Query::DeviceListing)),
    }
}

/// The rows after a creation of `row` under `id` at `now`, and its result.
pub open spec fn create_outcome(rows: Seq<Device>, row: NewDevice, id: u128, now: i64) -> (Seq<
    Device,
>, Result<Device, ApiError>) {
    let (after, r) = insert_outcome(rows, row, id, now);
    (
        after,
        match r {
            Ok(d) => Ok(d),
            Err(f) => Err(create_error(f)),
        },
    )
}

/// Creates a device from a request in a single insert under `id` at `now`;
/// `id` is generated by the server, so no row has it yet.
pub fn create_device(table: &mut DeviceTable, req: CreateDeviceRequest, id: u128, now: i64) -> (r:
    Result<Device, ApiError>)
    requires
        old(table).wf(),
        !id_taken(old(table)@, id),
    ensures
        final(table).wf(),
        exists|row: NewDevice|
            prepared(req, row) && (final(table)@, r) == create_outcome(old(table)@, row, id, now),
{
    let row = insert_values(req);
    let ghost g = row;
    let outcome = table.insert(id, row, now);
    let r = create_result(outcome);
    assert(prepared(req, g) && (table@, r) == create_outcome(old(table)@, g, id, now));
    r
}

/// Lists all devices, the most recently created first.
pub fn list_devices(table: &DeviceTable) -> (r: Result<Vec<Device>, ApiError>)
    requires
        table.wf(),
    ensures
        r matches Ok(v) && v@ == listed(table@) && newest_first(v@),
{
    list_result(Ok(table.list_newest_first()))
}

/// Creating a device whose MAC address is already stored fails as a
/// duplicate and leaves the rows as they were.
pub proof fn lemma_duplicate_mac_rejected(rows: Seq<Device>, row: NewDevice, id: u128, now: i64)
    requires
        mac_taken(rows, row.mac_address@),
    ensures
        create_outcome(rows, row, id, now) == (rows, Err::<Device, ApiError>(ApiError::DuplicateDevice)),
        create_outcome(rows, row, id, now).0.len() == rows.len(),
{
}

/// A device created without a status, in a table whose constraints hold and
/// under an identifier not yet in use, is returned with status `"active"`,
/// and the one stored row with its identifier has status `"active"`.
pub proof fn lemma_default_status_active(
    rows: Seq<Device>,
    req: CreateDeviceRequest,
    row: NewDevice,
    id: u128,
    now: i64,
)
    requires
        devices_wf(rows),
        !id_taken(rows, id),
        prepared(req, row),
        req.status is None,
        !mac_taken(rows, req.mac_address@),
    ensures
        ({
            let (after, r) = create_outcome(rows, row, id, now);
            &&& r matches Ok(d) && d.status@ == "active"@ && d.id == id
            &&& devices_wf(after)
            &&& after.len() == rows.len() + 1
            &&& forall|i: int| 0 <= i < after.len() && #[trigger] after[i].id == id ==> i == rows.len()
                && after[i].status@ == "active"@
        }),
{
    reveal_strlit("active");
    let n = rows.len();
    let after = create_outcome(rows, row, id, now).0;
    let d = stored_row(row, id, assigned_time(rows, now));
    assert(after == rows.push(d));
    assert forall|i: int| 0 <= i < after.len() && #[trigger] after[i].id == id implies i == n by {
        if i < n {
            assert(after[i] == rows[i]);
        }
    }
    assert forall|i: int, j: int| 0 <= i < j < after.len() implies #[trigger] after[i].id
        != #[trigger] after[j].id by {
        assert(after[i] == rows[i]);
        if j < n {
            assert(after[j] == rows[j]);
        }
    }
    assert forall|i: int| 0 <= i < after.len() implies #[trigger] after[i].status@.len() > 0 by {
        if i < n {
            assert(after[i] == rows[i]);
        }
    }
    assert forall|i: int, j: int| 0 <= i < j < after.len() implies #[trigger] after[i].mac_address@
        != #[trigger] after[j].mac_address@ by {
        assert(after[i] == rows[i]);
        if j < n {
            assert(after[j] == rows[j]);
        }
    }
    assert forall|i: int, j: int| 0 <= i < j < after.len() implies #[trigger] after[i].created_at
        <= #[trigger] after[j].created_at by {
        assert(after[i] == rows[i]);
        if j < n {
            assert(after[j] == rows[j]);
        } else if i < n - 1 {
            assert(rows[i].created_at <= rows[n - 1].created_at);
        }
    }
}

/// Listing an empty table succeeds with no rows.
pub proof fn lemma_list_of_empty_table()
    ensures
        listed(Seq::<Device>::empty()) == Seq::<Device>::empty(),
{
    assert(listed(Seq::<Device>::empty()) =~= Seq::<Device>::empty());
}

/// A listing of well-formed rows runs from the most recently created to the
/// oldest: after creating `a` and then `b`, the listing starts with `b`,
/// then `a`.
pub proof fn lemma_list_newest_first(
    rows: Seq<Device>,
    a: NewDevice,
    id_a: u128,
    now_a: i64,
    b: NewDevice,
    id_b: u128,
    now_b: i64,
)
    requires
        devices_wf(rows),
        !mac_taken(rows, a.mac_address@),
        !mac_taken(rows, b.mac_address@),
        a.mac_address@ != b.mac_address@,
    ensures
        newest_first(listed(rows)),
        ({
            let (after_a, ra) = create_outcome(rows, a, id_a, now_a);
            let (after_b, rb) = create_outcome(after_a, b, id_b, now_b);
            &&& ra matches Ok(da)
            &&& rb matches Ok(db)
            &&& listed(after_b).len() == rows.len() + 2
            &&& listed(after_b)[0] == db
            &&& listed(after_b)[1] == da
            &&& da.created_at <= db.created_at
        }),
{
    let n = rows.len();
    assert forall|i: int, j: int| 0 <= i < j < listed(rows).len() implies listed(rows)[j].created_at
        <= listed(rows)[i].created_at by {
        assert(listed(rows)[i] == rows[n - 1 - i] && listed(rows)[j] == rows[n - 1 - j]);
    }
    let after_a = insert_outcome(rows, a, id_a, now_a).0;
    let da = stored_row(a, id_a, assigned_time(rows, now_a));
    assert(after_a == rows.push(da));
    assert(!mac_taken(after_a, b.mac_address@)) by {
        if mac_taken(after_a, b.mac_address@) {
            let i = choose|i: int| 0 <= i < after_a.len() && #[trigger] after_a[i].mac_address@ == b.mac_address@;
            if i < n {
                assert(after_a[i] == rows[i]);
            }
        }
    }
}

} // verus!
