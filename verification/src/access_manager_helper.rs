use vstd::prelude::*;

use crate::access_manager::AccessManager;
use crate::badges::Credential;
use crate::errors::AccessError;
use crate::permissions::KeyBadgePermission;
use crate::permissions::PermissionSet;
use crate::permissions::is_super_permission;

verus! {

/// Whether a set of rights includes a super permission.
pub open spec fn spec_contains_super(s: Set<KeyBadgePermission>) -> bool {
    ||| s.contains(KeyBadgePermission::CreateAccessKey)
    ||| s.contains(KeyBadgePermission::RecallAccessKey)
}

/// The verdict of the permission check on a presented credential.
///
/// An owner credential passes unconditionally. An access key credential must
/// grant the required permission; when the required permission is
/// `CreateAccessKey` the holder must in addition already hold every right it
/// intends to grant, and may grant no super right — a violation of that rule
/// is `SuperPermissionEscalation`, distinct from plain `PermissionDenied`.
/// A credential of any other class is `UnrecognizedCredential`.
pub open spec fn spec_check_caller_permissions(
    m: AccessManager,
    required_permission: KeyBadgePermission,
    create_badge_permissions: Option<Set<KeyBadgePermission>>,
    credential: Credential,
) -> Result<(), AccessError> {
    if credential.resource_address == m.owner_badge_address {
        Ok(())
    } else if credential.resource_address == m.access_key_badge_address {
        if !credential.permissions@.contains(required_permission) {
            Err(AccessError::PermissionDenied)
        } else if required_permission == KeyBadgePermission::CreateAccessKey {
            match create_badge_permissions {
                None => Err(AccessError::PermissionDenied),
                Some(granting) => {
                    if granting.subset_of(credential.permissions@) && !spec_contains_super(
                        granting,
                    ) {
                        Ok(())
                    } else {
                        Err(AccessError::SuperPermissionEscalation)
                    }
                },
            }
        } else {
            Ok(())
        }
    } else {
        Err(AccessError::UnrecognizedCredential)
    }
}

/// Checks that the presented credential permits the required action; purely
/// read-only, invoked before any corresponding mutation. When the required
/// permission is `CreateAccessKey`, the caller supplies in
/// `create_badge_permissions` the set it intends to grant.
pub fn check_caller_permissions(
    access_manager: &AccessManager,
    required_permission: KeyBadgePermission,
    create_badge_permissions: Option<&PermissionSet>,
    credential: &Credential,
) -> (r: Result<(), AccessError>)
    requires
        required_permission == KeyBadgePermission::CreateAccessKey
            ==> create_badge_permissions is Some,
    ensures
        r == spec_check_caller_permissions(
            *access_manager,
            required_permission,
            (match create_badge_permissions {
                Some(g) => Some(g@),
                None => None,
            }),
            *credential,
        ),
{
    if credential.resource_address == access_manager.owner_badge_address {
        Ok(())
    } else if credential.resource_address == access_manager.access_key_badge_address {
        if !credential.permissions.contains(required_permission) {
            Err(AccessError::PermissionDenied)
        } else if required_permission == KeyBadgePermission::CreateAccessKey {
            match create_badge_permissions {
                None => Err(AccessError::PermissionDenied),
                Some(granting) => {
                    if granting.is_subset(&credential.permissions) && !granting.contains_super() {
                        Ok(())
                    } else {
                        Err(AccessError::SuperPermissionEscalation)
                    }
                },
            }
        } else {
            Ok(())
        }
    } else {
        Err(AccessError::UnrecognizedCredential)
    }
}

/// Delegation safety. For every grant a non-owner holder asks the checker to
/// approve: if the checker approves it, the granted set is a subset of the
/// holder's own set and carries no super right; and whenever the holder could
/// otherwise issue keys, a grant that violates either bound is refused as
/// `SuperPermissionEscalation`.
pub proof fn lemma_delegation_safety(
    m: AccessManager,
    holder: Credential,
    granting: Set<KeyBadgePermission>,
)
    requires
        holder.resource_address == m.access_key_badge_address,
        holder.resource_address != m.owner_badge_address,
    ensures
        spec_check_caller_permissions(
            m,
            KeyBadgePermission::CreateAccessKey,
            Some(granting),
            holder,
        ) is Ok ==> granting.subset_of(holder.permissions@) && (forall|p: KeyBadgePermission|
            granting.contains(p) ==> !is_super_permission(p)),
        holder.permissions@.contains(KeyBadgePermission::CreateAccessKey) && (!granting.subset_of(
            holder.permissions@,
        ) || (exists|p: KeyBadgePermission| granting.contains(p) && is_super_permission(p)))
            ==> spec_check_caller_permissions(
            m,
            KeyBadgePermission::CreateAccessKey,
            Some(granting),
            holder,
        ) == Err::<(), AccessError>(AccessError::SuperPermissionEscalation),
{
    if spec_check_caller_permissions(m, KeyBadgePermission::CreateAccessKey, Some(granting), holder)
        is Ok {
        assert forall|p: KeyBadgePermission| granting.contains(p) implies !is_super_permission(
            p,
        ) by {
            if is_super_permission(p) {
                assert(spec_contains_super(granting));
            }
        }
    }
    if exists|p: KeyBadgePermission| granting.contains(p) && is_super_permission(p) {
        let p = choose|p: KeyBadgePermission| granting.contains(p) && is_super_permission(p);
        assert(spec_contains_super(granting));
    }
}

} // verus!
