//! Records exchanged between the store and the API.
//!
//! Identifiers are UUIDs held as their 128-bit value; timestamps are
//! microseconds since the Unix epoch, the precision of the store's clock.
use vstd::prelude::*;

verus! {

/// An account row, created out of band and only read here.
pub struct Account {
    pub id: u128,
    pub email: String,
    pub role: String,
    pub display_name: Option<String>,
}

/// A device row as the store returns it.
pub struct Device {
    pub id: u128,
    pub name: String,
    pub mac_address: String,
    pub status: String,
    pub assigned_to_user_id: Option<u128>,
    pub location: Option<String>,
    pub last_seen_at: Option<i64>,
    pub created_at: i64,
}

/// Body of a login request.
pub struct LoginRequest {
    pub email: String,
    pub password: String,
}

/// A successful login: the session token and the account it is bound to.
pub struct LoginResponse {
    pub token: String,
    pub user: Account,
}

/// Body of a device-creation request; `status` may be left out.
pub struct CreateDeviceRequest {
    pub name: String,
    pub mac_address: String,
    pub status: Option<String>,
    pub assigned_to_user_id: Option<u128>,
    pub location: Option<String>,
}

/// The values bound to the insert statement of a new device.
pub struct NewDevice {
    pub name: String,
    pub mac_address: String,
    pub status: String,
    pub assigned_to_user_id: Option<u128>,
    pub location: Option<String>,
}

/// Static metadata reported by the health check.
pub struct HealthStatus {
    pub status: String,
    pub service: String,
    pub version: String,
}

fn copy_text(s: &Option<String>) -> (r: Option<String>)
    ensures
        r == *s,
{
    match s {
        Some(t) => Some(t.clone()),
        None => None,
    }
}

impl Account {
    /// A field-by-field copy of the row.
    pub fn duplicate(&self) -> (r: Account)
        ensures
            r == *self,
    {
        Account {
            id: self.id,
            email: self.email.clone(),
            role: self.role.clone(),
            display_name: copy_text(&self.display_name),
        }
    }
}

impl Device {
    /// A field-by-field copy of the row.
    pub fn duplicate(&self) -> (r: Device)
        ensures
            r == *self,
    {
        Device {
            id: self.id,
            name: self.name.clone(),
            mac_address: self.mac_address.clone(),
            status: self.status.clone(),
            assigned_to_user_id: self.assigned_to_user_id,
            location: copy_text(&self.location),
            last_seen_at: self.last_seen_at,
            created_at: self.created_at,
        }
    }
}

/// The metadata that the health check always reports.
pub open spec fn is_health_report(h: HealthStatus) -> bool {
    &&& h.status@ == "ok"@
    &&& h.service@ == "Sweet Models API"@
    &&& h.version@ == "1.0.0"@
}

/// Service metadata for the health check; it has no failure path.
pub fn health_status() -> (r: HealthStatus)
    ensures
        is_health_report(r),
{
    proof {
        reveal_strlit("ok");
        reveal_strlit("Sweet Models API");
        reveal_strlit("1.0.0");
    }
    HealthStatus {
        status: String::from_str("ok"),
        service: String::from_str("Sweet Models API"),
        version: String::from_str("1.0.0"),
    }
}

} // verus!
