use vstd::prelude::*;

use crate::permissions::PermissionSet;

verus! {

/// Data carried by the one owner badge: the identity of the manager it
/// controls and the authority badge class that manager holds in custody.
/// Minted exactly once, at manager creation, and never mutated.
#[derive(Debug)]
pub struct OwnerBadgeData {
    pub manager_component_address: u64,
    pub auth_badge_address: u64,
}

/// Data carried by each access key badge. The addresses are immutable;
/// `permissions` is the badge's sole mutable field and holds the rights the
/// badge grants.
#[derive(Debug)]
pub struct AccessKeyBadgeData {
    pub manager_component_address: u64,
    pub auth_badge_address: u64,
    pub permissions: PermissionSet,
}

/// The one owner badge unit, handed to the initializing principal.
#[derive(Debug)]
pub struct OwnerBadge {
    pub resource_address: u64,
    pub data: OwnerBadgeData,
}

/// One access key badge unit, as minted per delegation event.
#[derive(Debug)]
pub struct AccessKeyBadge {
    pub resource_address: u64,
    pub data: AccessKeyBadgeData,
}

/// Ephemeral evidence that the presenter currently holds one badge unit of
/// the class named by `resource_address`. Presenting it neither transfers nor
/// consumes the badge. `permissions` is the permission set read off the badge
/// when the class is the manager's access key class; for any other class it
/// carries no meaning.
#[derive(Debug)]
pub struct Credential {
    pub resource_address: u64,
    pub permissions: PermissionSet,
}

impl Clone for Credential {
    /// A credential may be presented to several calls within one invocation.
    fn clone(&self) -> (c: Self)
        ensures
            c.resource_address == self.resource_address,
            c.permissions@ == self.permissions@,
    {
        Credential {
            resource_address: self.resource_address,
            permissions: self.permissions.clone(),
        }
    }
}

impl OwnerBadge {
    /// Evidence of holding this owner badge, valid for one invocation.
    pub fn create_proof(&self) -> (c: Credential)
        ensures
            c.resource_address == self.resource_address,
    {
        Credential { resource_address: self.resource_address, permissions: PermissionSet { tags: Vec::new() } }
    }
}

impl AccessKeyBadge {
    /// Evidence of holding this access key badge, valid for one invocation;
    /// it carries the badge's current permission set.
    pub fn create_proof(&self) -> (c: Credential)
        ensures
            c.resource_address == self.resource_address,
            c.permissions@ == self.data.permissions@,
    {
        Credential {
            resource_address: self.resource_address,
            permissions: self.data.permissions.clone(),
        }
    }
}

} // verus!
