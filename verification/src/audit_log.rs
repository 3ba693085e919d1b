//! One immutable record per access decision.

use vstd::prelude::*;

verus! {

/// An audit record: who asked for what, whether it was granted, when, and
/// from where.
#[derive(Debug, Clone)]
pub struct AuditLog {
    pub user: String,
    pub resource: String,
    pub action: String,
    pub access_granted: bool,
    pub timestamp: u64,
    pub ip_address: String,
}

impl AuditLog {
    /// A record stamped with the given instant.
    pub fn new_at(
        user: &str,
        resource: &str,
        action: &str,
        access_granted: bool,
        timestamp: u64,
        ip_address: &str,
    ) -> (log: AuditLog)
        ensures
            log.user@ == user@,
            log.resource@ == resource@,
            log.action@ == action@,
            log.access_granted == access_granted,
            log.timestamp == timestamp,
            log.ip_address@ == ip_address@,
    {
        AuditLog {
            user: user.to_owned(),
            resource: resource.to_owned(),
            action: action.to_owned(),
            access_granted,
            timestamp,
            ip_address: ip_address.to_owned(),
        }
    }

    /// A record stamped with the current system time.
    pub fn new(user: &str, resource: &str, action: &str, access_granted: bool, ip_address: &str) -> (log:
        AuditLog)
        ensures
            log.user@ == user@,
            log.resource@ == resource@,
            log.action@ == action@,
            log.access_granted == access_granted,
            log.ip_address@ == ip_address@,
    {
        let now = crate::clock::now_seconds();
        AuditLog::new_at(user, resource, action, access_granted, now, ip_address)
    }
}

} // verus!
