use vstd::prelude::*;

use crate::access_manager_helper::check_caller_permissions;
use crate::access_manager_helper::spec_check_caller_permissions;
use crate::access_manager_helper::spec_contains_super;
use crate::badges::AccessKeyBadge;
use crate::badges::AccessKeyBadgeData;
use crate::badges::Credential;
use crate::badges::OwnerBadge;
use crate::badges::OwnerBadgeData;
use crate::errors::AccessError;
use crate::permissions::KeyBadgePermission;
use crate::permissions::PermissionSet;
use crate::permissions::is_basic_permission;
use crate::permissions::is_super_permission;
use crate::permissions::is_validator_permission;
use crate::permissions::spec_parse;
use crate::validator_extension::ValidatorCall;
use crate::validator_extension::ValidatorOwnerBadgeData;
use crate::validator_extension::spec_validator_op;

verus! {

/// A bucket of managing-authority badge units, as presented for deposit or
/// handed back by a withdrawal.
#[derive(Debug)]
pub struct AuthorityBadgeBucket {
    pub resource_address: u64,
    pub units: Vec<ValidatorOwnerBadgeData>,
}

/// A location holding access key badge units: the target of a recall.
#[derive(Debug)]
pub struct KeyBadgeVault {
    pub resource_address: u64,
    pub units: Vec<AccessKeyBadgeData>,
}

/// A proof referencing exactly one unit of the custodied authority badge.
#[derive(Debug)]
pub struct AuthBadgeProof {
    pub resource_address: u64,
    pub amount: u64,
}

/// The orchestrating component: custody of the managing-authority badge and
/// the identities of the two badge classes it mints and recognises. The
/// custody slot holds zero or one authority badge units, never more.
#[derive(Debug)]
pub struct AccessManager {
    pub component_address: u64,
    pub auth_badge_address: u64,
    pub owner_badge_address: u64,
    pub access_key_badge_address: u64,
    pub auth_badge: Option<ValidatorOwnerBadgeData>,
}

/// What a super key grants: both super rights, the basic right, and — when
/// asked for — every validator right.
pub open spec fn spec_super_key_grant(
    include_validator_permissions: bool,
    p: KeyBadgePermission,
) -> bool {
    ||| is_super_permission(p)
    ||| is_basic_permission(p)
    ||| (include_validator_permissions && is_validator_permission(p))
}

/// What a basic key grants: the basic right, and — when asked for — every
/// validator right; never a super right.
pub open spec fn spec_basic_key_grant(
    include_validator_permissions: bool,
    p: KeyBadgePermission,
) -> bool {
    ||| is_basic_permission(p)
    ||| (include_validator_permissions && is_validator_permission(p))
}

/// The owner-only entry gate of the owner-restricted methods: an owner
/// credential passes, an access key credential is denied, anything else is
/// unrecognised.
pub open spec fn spec_owner_only(m: AccessManager, credential: Credential) -> Result<
    (),
    AccessError,
> {
    if credential.resource_address == m.owner_badge_address {
        Ok(())
    } else if credential.resource_address == m.access_key_badge_address {
        Err(AccessError::PermissionDenied)
    } else {
        Err(AccessError::UnrecognizedCredential)
    }
}

/// The custody-slot transition and verdict of a deposit: it succeeds exactly
/// when the slot is empty and the bucket holds exactly one unit, and then
/// funds the slot with that unit; any failure leaves the manager unchanged.
pub open spec fn spec_deposit_auth_badge(
    m: AccessManager,
    auth_badge: AuthorityBadgeBucket,
) -> (AccessManager, Result<(), AccessError>) {
    if m.auth_badge is Some {
        (m, Err(AccessError::AuthorityAlreadyPresent))
    } else if auth_badge.units@.len() != 1 {
        (m, Err(AccessError::InvalidAmount))
    } else {
        (AccessManager { auth_badge: Some(auth_badge.units@[0]), ..m }, Ok(()))
    }
}

/// The custody-slot transition and verdict of a withdrawal: owner-only, and
/// it succeeds exactly when the slot is funded, emptying it and handing the
/// one unit out; any failure leaves the manager unchanged.
pub open spec fn spec_withdraw_auth_badge(m: AccessManager, credential: Credential) -> (
    AccessManager,
    Result<ValidatorOwnerBadgeData, AccessError>,
) {
    match spec_owner_only(m, credential) {
        Err(e) => (m, Err(e)),
        Ok(()) => match m.auth_badge {
            None => (m, Err(AccessError::AuthorityAbsent)),
            Some(d) => (AccessManager { auth_badge: None, ..m }, Ok(d)),
        },
    }
}

/// The verdict of issuing a custom key from a list of tag strings: the tags
/// must all parse; a key holder may request no super right; and the checker
/// must approve the grant. The payload is the parsed permission list.
pub open spec fn spec_create_custom_key_result(
    m: AccessManager,
    tags: Seq<Seq<char>>,
    credential: Credential,
) -> Result<Seq<KeyBadgePermission>, AccessError> {
    match spec_parse(tags) {
        Err(e) => Err(e),
        Ok(ps) => {
            if credential.resource_address == m.access_key_badge_address && spec_contains_super(
                ps.to_set(),
            ) {
                Err(AccessError::SuperPermissionEscalation)
            } else {
                match spec_check_caller_permissions(
                    m,
                    KeyBadgePermission::CreateAccessKey,
                    Some(ps.to_set()),
                    credential,
                ) {
                    Err(e) => Err(e),
                    Ok(()) => Ok(ps),
                }
            }
        },
    }
}

/// The verdict of a recall aimed at a location holding the given units: the
/// checker must approve `RecallAccessKey`, and the location must hold at
/// least one unit; exactly one unit — the last — leaves.
pub open spec fn spec_recall_key_result(
    m: AccessManager,
    units: Seq<AccessKeyBadgeData>,
    credential: Credential,
) -> Result<AccessKeyBadgeData, AccessError> {
    match spec_check_caller_permissions(
        m,
        KeyBadgePermission::RecallAccessKey,
        None,
        credential,
    ) {
        Err(e) => Err(e),
        Ok(()) => {
            if units.len() == 0 {
                Err(AccessError::RecallTargetEmpty)
            } else {
                Ok(units.last())
            }
        },
    }
}

/// The verdict of producing a proof of the custodied authority badge: the
/// checker must approve `CreateNativeProof`, and custody must be funded.
pub open spec fn spec_create_auth_badge_proof_result(
    m: AccessManager,
    credential: Credential,
) -> Result<(), AccessError> {
    match spec_check_caller_permissions(
        m,
        KeyBadgePermission::CreateNativeProof,
        None,
        credential,
    ) {
        Err(e) => Err(e),
        Ok(()) => if m.auth_badge is None {
            Err(AccessError::AuthorityAbsent)
        } else {
            Ok(())
        },
    }
}

impl AccessManager {
    /// The manager recognises its two badge classes apart, and neither is the
    /// authority badge class it custodies.
    pub open spec fn well_formed(self) -> bool {
        &&& self.owner_badge_address != self.access_key_badge_address
        &&& self.auth_badge_address != self.owner_badge_address
        &&& self.auth_badge_address != self.access_key_badge_address
    }

    /// Creates a manager for the given authority badge class and mints the
    /// one owner badge, bound to the manager's identity. Custody starts
    /// empty: no authority badge is needed at this step. The addresses are
    /// the identities the host allocated for the component and its two badge
    /// classes; they are pairwise distinct by construction there.
    pub fn new(
        auth_badge_address: u64,
        component_address: u64,
        owner_badge_address: u64,
        access_key_badge_address: u64,
    ) -> (r: (AccessManager, OwnerBadge))
        requires
            owner_badge_address != access_key_badge_address,
            auth_badge_address != owner_badge_address,
            auth_badge_address != access_key_badge_address,
        ensures
            r.0.well_formed(),
            r.0.component_address == component_address,
            r.0.auth_badge_address == auth_badge_address,
            r.0.owner_badge_address == owner_badge_address,
            r.0.access_key_badge_address == access_key_badge_address,
            r.0.auth_badge is None,
            r.1.resource_address == owner_badge_address,
            r.1.data.manager_component_address == component_address,
            r.1.data.auth_badge_address == auth_badge_address,
    {
        let manager = AccessManager {
            component_address,
            auth_badge_address,
            owner_badge_address,
            access_key_badge_address,
            auth_badge: None,
        };
        let owner_badge = OwnerBadge {
            resource_address: owner_badge_address,
            data: OwnerBadgeData {
                manager_component_address: component_address,
                auth_badge_address,
            },
        };
        (manager, owner_badge)
    }

    /// Deposits the managing-authority badge into the custody slot. Requires
    /// the slot empty and exactly one unit, failing with
    /// `AuthorityAlreadyPresent` or `InvalidAmount` otherwise.
    pub fn deposit_auth_badge(&mut self, auth_badge: AuthorityBadgeBucket) -> (r: Result<
        (),
        AccessError,
    >)
        requires
            auth_badge.resource_address == old(self).auth_badge_address,
        ensures
            *final(self) == spec_deposit_auth_badge(*old(self), auth_badge).0,
            r == spec_deposit_auth_badge(*old(self), auth_badge).1,
    {
        if self.auth_badge.is_some() {
            return Err(AccessError::AuthorityAlreadyPresent);
        }
        if auth_badge.units.len() != 1 {
            return Err(AccessError::InvalidAmount);
        }
        let mut units = auth_badge.units;
        let unit = units.pop().unwrap();
        self.auth_badge = Some(unit);
        Ok(())
    }

    /// Withdraws the managing-authority badge: owner-only, requires custody
    /// funded, and leaves custody empty. Terminal for this authority
    /// instance: every operation needing the authority fails until a new
    /// deposit.
    pub fn withdraw_auth_badge(&mut self, credential: Credential) -> (r: Result<
        AuthorityBadgeBucket,
        AccessError,
    >)
        ensures
            *final(self) == spec_withdraw_auth_badge(*old(self), credential).0,
            (match r {
                Ok(b) => {
                    &&& spec_withdraw_auth_badge(*old(self), credential).1 matches Ok(d) && b.units@
                        =~= seq![d]
                    &&& b.resource_address == old(self).auth_badge_address
                },
                Err(e) => spec_withdraw_auth_badge(*old(self), credential).1 == Err::<
                    ValidatorOwnerBadgeData,
                    AccessError,
                >(e),
            }),
    {
        match self.check_owner_only(&credential) {
            Err(e) => Err(e),
            Ok(()) => {
                if self.auth_badge.is_none() {
                    return Err(AccessError::AuthorityAbsent);
                }
                let unit = self.auth_badge.take().unwrap();
                let mut units: Vec<ValidatorOwnerBadgeData> = Vec::new();
                units.push(unit);
                Ok(AuthorityBadgeBucket { resource_address: self.auth_badge_address, units })
            },
        }
    }

    /// The entry gate of the owner-restricted methods.
    fn check_owner_only(&self, credential: &Credential) -> (r: Result<(), AccessError>)
        ensures
            r == spec_owner_only(*self, *credential),
    {
        if credential.resource_address == self.owner_badge_address {
            Ok(())
        } else if credential.resource_address == self.access_key_badge_address {
            Err(AccessError::PermissionDenied)
        } else {
            Err(AccessError::UnrecognizedCredential)
        }
    }

    /// Mints one access key badge carrying the given permission set, bound to
    /// this manager and its authority badge class.
    fn internal_create_custom_access_key_badge(&self, permissions: PermissionSet) -> (b:
        AccessKeyBadge)
        ensures
            b.resource_address == self.access_key_badge_address,
            b.data.manager_component_address == self.component_address,
            b.data.auth_badge_address == self.auth_badge_address,
            b.data.permissions == permissions,
    {
        AccessKeyBadge {
            resource_address: self.access_key_badge_address,
            data: AccessKeyBadgeData {
                manager_component_address: self.component_address,
                auth_badge_address: self.auth_badge_address,
                permissions,
            },
        }
    }

    /// Issues a super key: both super rights, the basic right, and optionally
    /// every validator right. Owner-only at the entry gate of the host, so no
    /// permission check is made here; minting is unconditional.
    pub fn create_super_access_key_badge(&mut self, include_validator_permissions: bool) -> (b:
        AccessKeyBadge)
        ensures
            *final(self) == *old(self),
            b.resource_address == old(self).access_key_badge_address,
            b.data.manager_component_address == old(self).component_address,
            b.data.auth_badge_address == old(self).auth_badge_address,
            b.data.permissions@ == Set::new(
                |p: KeyBadgePermission| spec_super_key_grant(include_validator_permissions, p),
            ),
    {
        let mut tags: Vec<KeyBadgePermission> = Vec::new();
        tags.push(KeyBadgePermission::CreateAccessKey);
        tags.push(KeyBadgePermission::RecallAccessKey);
        tags.push(KeyBadgePermission::CreateNativeProof);
        if include_validator_permissions {
            push_all_validator_permissions(&mut tags);
        }
        proof {
            lemma_grant_set_membership(tags@, include_validator_permissions, true);
            assert(tags@.to_set() =~= Set::new(
                |p: KeyBadgePermission| spec_super_key_grant(include_validator_permissions, p),
            ));
        }
        self.internal_create_custom_access_key_badge(PermissionSet { tags })
    }

    /// Issues a basic key: the basic right and optionally every validator
    /// right — never a super right. Callable by the owner or by any key
    /// holder whose badge grants `CreateAccessKey`; since the implicit grant
    /// carries no super right, the escalation rule can only fail on a right
    /// the holder itself lacks.
    pub fn create_basic_key_badge(
        &mut self,
        include_validator_permissions: bool,
        credential: Credential,
    ) -> (r: Result<AccessKeyBadge, AccessError>)
        ensures
            *final(self) == *old(self),
            (match r {
                Ok(b) => {
                    &&& spec_check_caller_permissions(
                        *old(self),
                        KeyBadgePermission::CreateAccessKey,
                        Some(
                            Set::new(
                                |p: KeyBadgePermission|
                                    spec_basic_key_grant(include_validator_permissions, p),
                            ),
                        ),
                        credential,
                    ) is Ok
                    &&& b.resource_address == old(self).access_key_badge_address
                    &&& b.data.manager_component_address == old(self).component_address
                    &&& b.data.auth_badge_address == old(self).auth_badge_address
                    &&& b.data.permissions@ == Set::new(
                        |p: KeyBadgePermission|
                            spec_basic_key_grant(include_validator_permissions, p),
                    )
                },
                Err(e) => spec_check_caller_permissions(
                    *old(self),
                    KeyBadgePermission::CreateAccessKey,
                    Some(
                        Set::new(
                            |p: KeyBadgePermission|
                                spec_basic_key_grant(include_validator_permissions, p),
                        ),
                    ),
                    credential,
                ) == Err::<(), AccessError>(e),
            }),
    {
        let mut tags: Vec<KeyBadgePermission> = Vec::new();
        tags.push(KeyBadgePermission::CreateNativeProof);
        if include_validator_permissions {
            push_all_validator_permissions(&mut tags);
        }
        proof {
            lemma_grant_set_membership(tags@, include_validator_permissions, false);
            assert(tags@.to_set() =~= Set::new(
                |p: KeyBadgePermission| spec_basic_key_grant(include_validator_permissions, p),
            ));
        }
        let permissions = PermissionSet { tags };
        match check_caller_permissions(
            self,
            KeyBadgePermission::CreateAccessKey,
            Some(&permissions),
            &credential,
        ) {
            Err(e) => Err(e),
            Ok(()) => Ok(self.internal_create_custom_access_key_badge(permissions)),
        }
    }

    /// Issues a custom key from a list of tag strings. Unknown tags are
    /// rejected; a key holder may request no super right; and the checker
    /// must approve the grant against the holder's own set.
    pub fn create_custom_access_key_badge(
        &mut self,
        permissions: Vec<String>,
        credential: Credential,
    ) -> (r: Result<AccessKeyBadge, AccessError>)
        ensures
            *final(self) == *old(self),
            (match r {
                Ok(b) => {
                    &&& spec_create_custom_key_result(
                        *old(self),
                        permissions.deep_view(),
                        credential,
                    ) == Ok::<Seq<KeyBadgePermission>, AccessError>(b.data.permissions.tags@)
                    &&& b.resource_address == old(self).access_key_badge_address
                    &&& b.data.manager_component_address == old(self).component_address
                    &&& b.data.auth_badge_address == old(self).auth_badge_address
                },
                Err(e) => spec_create_custom_key_result(
                    *old(self),
                    permissions.deep_view(),
                    credential,
                ) == Err::<Seq<KeyBadgePermission>, AccessError>(e),
            }),
    {
        let parsed = match PermissionSet::parse(&permissions) {
            Ok(ps) => ps,
            Err(e) => {
                return Err(e);
            },
        };
        if credential.resource_address == self.access_key_badge_address
            && parsed.contains_super() {
            return Err(AccessError::SuperPermissionEscalation);
        }
        match check_caller_permissions(
            self,
            KeyBadgePermission::CreateAccessKey,
            Some(&parsed),
            &credential,
        ) {
            Err(e) => Err(e),
            Ok(()) => Ok(self.internal_create_custom_access_key_badge(parsed)),
        }
    }

    /// Recalls one access key badge unit from wherever it is held, bypassing
    /// normal transfer consent, and hands it to the caller. Requires the
    /// `RecallAccessKey` permission (the owner bypasses); fails with
    /// `RecallTargetEmpty` when the location holds no unit.
    pub fn recall_key_badge(&mut self, vault: &mut KeyBadgeVault, credential: Credential) -> (r:
        Result<AccessKeyBadge, AccessError>)
        ensures
            *final(self) == *old(self),
            final(vault).resource_address == old(vault).resource_address,
            (match r {
                Ok(b) => {
                    &&& spec_recall_key_result(*old(self), old(vault).units@, credential) == Ok::<
                        AccessKeyBadgeData,
                        AccessError,
                    >(b.data)
                    &&& b.resource_address == old(vault).resource_address
                    &&& final(vault).units@ == old(vault).units@.drop_last()
                },
                Err(e) => {
                    &&& spec_recall_key_result(*old(self), old(vault).units@, credential) == Err::<
                        AccessKeyBadgeData,
                        AccessError,
                    >(e)
                    &&& final(vault).units@ == old(vault).units@
                },
            }),
    {
        match check_caller_permissions(
            self,
            KeyBadgePermission::RecallAccessKey,
            None,
            &credential,
        ) {
            Err(e) => Err(e),
            Ok(()) => {
                match vault.units.pop() {
                    None => Err(AccessError::RecallTargetEmpty),
                    Some(data) => Ok(
                        AccessKeyBadge { resource_address: vault.resource_address, data },
                    ),
                }
            },
        }
    }

    /// Accepts the burn of an access key badge: possession is sufficient, so
    /// no permission check is made; the badge unit is irreversibly destroyed.
    pub fn burn_key_badge(&mut self, key_badge: AccessKeyBadge)
        ensures
            *final(self) == *old(self),
    {
        let _ = key_badge;
    }

    /// Produces a proof referencing exactly one unit of the custodied
    /// authority badge. Requires the `CreateNativeProof` permission; fails
    /// with `AuthorityAbsent` while custody is empty.
    pub fn create_auth_badge_proof(&mut self, credential: Credential) -> (r: Result<
        AuthBadgeProof,
        AccessError,
    >)
        ensures
            *final(self) == *old(self),
            (match r {
                Ok(p) => {
                    &&& spec_create_auth_badge_proof_result(*old(self), credential) is Ok
                    &&& p.resource_address == old(self).auth_badge_address
                    &&& p.amount == 1
                },
                Err(e) => spec_create_auth_badge_proof_result(*old(self), credential) == Err::<
                    (),
                    AccessError,
                >(e),
            }),
    {
        match check_caller_permissions(
            self,
            KeyBadgePermission::CreateNativeProof,
            None,
            &credential,
        ) {
            Err(e) => Err(e),
            Ok(()) => {
                if self.auth_badge.is_none() {
                    return Err(AccessError::AuthorityAbsent);
                }
                Ok(AuthBadgeProof { resource_address: self.auth_badge_address, amount: 1 })
            },
        }
    }
}

/// Appends every validator permission to the list being built for a new key.
fn push_all_validator_permissions(tags: &mut Vec<KeyBadgePermission>)
    ensures
        final(tags)@ == old(tags)@ + seq![
            KeyBadgePermission::Validator_Register,
            KeyBadgePermission::Validator_Unregister,
            KeyBadgePermission::Validator_StakeAsOwner,
            KeyBadgePermission::Validator_UpdateKey,
            KeyBadgePermission::Validator_UpdateFee,
            KeyBadgePermission::Validator_UpdateAcceptDelegatedStake,
            KeyBadgePermission::Validator_SignalProtocolUpdateReadiness,
            KeyBadgePermission::Validator_LockOwnerStakeUnits,
            KeyBadgePermission::Validator_StartUnlockOwnerStakeUnits,
            KeyBadgePermission::Validator_FinishUnlockOwnerStakeUnits,
        ],
{
    tags.push(KeyBadgePermission::Validator_Register);
    tags.push(KeyBadgePermission::Validator_Unregister);
    tags.push(KeyBadgePermission::Validator_StakeAsOwner);
    tags.push(KeyBadgePermission::Validator_UpdateKey);
    tags.push(KeyBadgePermission::Validator_UpdateFee);
    tags.push(KeyBadgePermission::Validator_UpdateAcceptDelegatedStake);
    tags.push(KeyBadgePermission::Validator_SignalProtocolUpdateReadiness);
    tags.push(KeyBadgePermission::Validator_LockOwnerStakeUnits);
    tags.push(KeyBadgePermission::Validator_StartUnlockOwnerStakeUnits);
    tags.push(KeyBadgePermission::Validator_FinishUnlockOwnerStakeUnits);
    proof {
        assert(final(tags)@ =~= old(tags)@ + seq![
            KeyBadgePermission::Validator_Register,
            KeyBadgePermission::Validator_Unregister,
            KeyBadgePermission::Validator_StakeAsOwner,
            KeyBadgePermission::Validator_UpdateKey,
            KeyBadgePermission::Validator_UpdateFee,
            KeyBadgePermission::Validator_UpdateAcceptDelegatedStake,
            KeyBadgePermission::Validator_SignalProtocolUpdateReadiness,
            KeyBadgePermission::Validator_LockOwnerStakeUnits,
            KeyBadgePermission::Validator_StartUnlockOwnerStakeUnits,
            KeyBadgePermission::Validator_FinishUnlockOwnerStakeUnits,
        ]);
    }
}

/// Membership of the permission lists built for super and basic keys: the
/// list holds a permission exactly when the corresponding grant rule says so.
proof fn lemma_grant_set_membership(
    tags: Seq<KeyBadgePermission>,
    include_validator_permissions: bool,
    super_key: bool,
)
    requires
        (if super_key {
            (if include_validator_permissions {
                tags =~= seq![
                    KeyBadgePermission::CreateAccessKey,
                    KeyBadgePermission::RecallAccessKey,
                    KeyBadgePermission::CreateNativeProof,
                ] + all_validator_permissions_seq()
            } else {
                tags =~= seq![
                    KeyBadgePermission::CreateAccessKey,
                    KeyBadgePermission::RecallAccessKey,
                    KeyBadgePermission::CreateNativeProof,
                ]
            })
        } else {
            (if include_validator_permissions {
                tags =~= seq![KeyBadgePermission::CreateNativeProof]
                    + all_validator_permissions_seq()
            } else {
                tags =~= seq![KeyBadgePermission::CreateNativeProof]
            })
        }),
    ensures
        forall|p: KeyBadgePermission|
            tags.contains(p) <==> (if super_key {
                spec_super_key_grant(include_validator_permissions, p)
            } else {
                spec_basic_key_grant(include_validator_permissions, p)
            }),
{
    let v = all_validator_permissions_seq();
    let base = if super_key {
        seq![
            KeyBadgePermission::CreateAccessKey,
            KeyBadgePermission::RecallAccessKey,
            KeyBadgePermission::CreateNativeProof,
        ]
    } else {
        seq![KeyBadgePermission::CreateNativeProof]
    };
    assert forall|p: KeyBadgePermission|
        tags.contains(p) <==> (if super_key {
            spec_super_key_grant(include_validator_permissions, p)
        } else {
            spec_basic_key_grant(include_validator_permissions, p)
        }) by {
        lemma_all_validator_permissions_seq_contains(p);
        if include_validator_permissions {
            vstd::seq_lib::lemma_seq_concat_contains_all_elements(base, v, p);
            assert(tags == base + v);
        } else {
            assert(tags == base);
        }
        if super_key {
            assert(base[0] == KeyBadgePermission::CreateAccessKey);
            assert(base[1] == KeyBadgePermission::RecallAccessKey);
            assert(base[2] == KeyBadgePermission::CreateNativeProof);
        } else {
            assert(base[0] == KeyBadgePermission::CreateNativeProof);
        }
        if base.contains(p) {
            let i = choose|i: int| 0 <= i < base.len() && base[i] == p;
            assert(base[i] == p);
        }
    }
}

/// The ten validator permissions, in the order a new key's list carries them.
pub open spec fn all_validator_permissions_seq() -> Seq<KeyBadgePermission> {
    seq![
        KeyBadgePermission::Validator_Register,
        KeyBadgePermission::Validator_Unregister,
        KeyBadgePermission::Validator_StakeAsOwner,
        KeyBadgePermission::Validator_UpdateKey,
        KeyBadgePermission::Validator_UpdateFee,
        KeyBadgePermission::Validator_UpdateAcceptDelegatedStake,
        KeyBadgePermission::Validator_SignalProtocolUpdateReadiness,
        KeyBadgePermission::Validator_LockOwnerStakeUnits,
        KeyBadgePermission::Validator_StartUnlockOwnerStakeUnits,
        KeyBadgePermission::Validator_FinishUnlockOwnerStakeUnits,
    ]
}

/// The list of the ten validator permissions holds exactly the validator
/// permissions.
proof fn lemma_all_validator_permissions_seq_contains(p: KeyBadgePermission)
    ensures
        all_validator_permissions_seq().contains(p) <==> is_validator_permission(p),
{
    let s = all_validator_permissions_seq();
    if is_validator_permission(p) {
        match p {
            KeyBadgePermission::Validator_Register => assert(s[0] == p),
            KeyBadgePermission::Validator_Unregister => assert(s[1] == p),
            KeyBadgePermission::Validator_StakeAsOwner => assert(s[2] == p),
            KeyBadgePermission::Validator_UpdateKey => assert(s[3] == p),
            KeyBadgePermission::Validator_UpdateFee => assert(s[4] == p),
            KeyBadgePermission::Validator_UpdateAcceptDelegatedStake => assert(s[5] == p),
            KeyBadgePermission::Validator_SignalProtocolUpdateReadiness => assert(s[6] == p),
            KeyBadgePermission::Validator_LockOwnerStakeUnits => assert(s[7] == p),
            KeyBadgePermission::Validator_StartUnlockOwnerStakeUnits => assert(s[8] == p),
            KeyBadgePermission::Validator_FinishUnlockOwnerStakeUnits => assert(s[9] == p),
            _ => assert(false),
        }
    }
    if s.contains(p) {
        let i = choose|i: int| 0 <= i < s.len() && s[i] == p;
    }
}

impl AccessManager {
    /// Forwards `register` to the delegate target under the custodied
    /// authority; requires the matching validator permission.
    pub fn validator_register(&mut self, credential: Credential) -> (r: Result<
        ValidatorCall,
        AccessError,
    >)
        ensures
            *final(self) == *old(self),
            (match r {
                Ok(call) => {
                    &&& spec_validator_op(
                        *old(self),
                        KeyBadgePermission::Validator_Register,
                        credential,
                    ) == Ok::<u64, AccessError>(call.validator)
                    &&& call.operation is Register
                },
                Err(e) => spec_validator_op(
                    *old(self),
                    KeyBadgePermission::Validator_Register,
                    credential,
                ) == Err::<u64, AccessError>(e),
            }),
    {
        crate::validator_extension::register(self, credential)
    }

    /// Forwards `unregister` to the delegate target under the custodied
    /// authority; requires the matching validator permission.
    pub fn validator_unregister(&mut self, credential: Credential) -> (r: Result<
        ValidatorCall,
        AccessError,
    >)
        ensures
            *final(self) == *old(self),
            (match r {
                Ok(call) => {
                    &&& spec_validator_op(
                        *old(self),
                        KeyBadgePermission::Validator_Unregister,
                        credential,
                    ) == Ok::<u64, AccessError>(call.validator)
                    &&& call.operation is Unregister
                },
                Err(e) => spec_validator_op(
                    *old(self),
                    KeyBadgePermission::Validator_Unregister,
                    credential,
                ) == Err::<u64, AccessError>(e),
            }),
    {
        crate::validator_extension::unregister(self, credential)
    }

    /// Forwards `stake_as_owner` to the delegate target under the custodied
    /// authority; requires the matching validator permission.
    pub fn validator_stake_as_owner(&mut self, stake: u64, credential: Credential) -> (r: Result<
        ValidatorCall,
        AccessError,
    >)
        ensures
            *final(self) == *old(self),
            (match r {
                Ok(call) => {
                    &&& spec_validator_op(
                        *old(self),
                        KeyBadgePermission::Validator_StakeAsOwner,
                        credential,
                    ) == Ok::<u64, AccessError>(call.validator)
                    &&& call.operation matches crate::validator_extension::ValidatorOperation::StakeAsOwner {
                        stake: s,
                    } && s == stake
                },
                Err(e) => spec_validator_op(
                    *old(self),
                    KeyBadgePermission::Validator_StakeAsOwner,
                    credential,
                ) == Err::<u64, AccessError>(e),
            }),
    {
        crate::validator_extension::stake_as_owner(self, stake, credential)
    }

    /// Forwards `update_key` to the delegate target under the custodied
    /// authority; requires the matching validator permission.
    pub fn validator_update_key(&mut self, key: Vec<u8>, credential: Credential) -> (r: Result<
        ValidatorCall,
        AccessError,
    >)
        ensures
            *final(self) == *old(self),
            (match r {
                Ok(call) => {
                    &&& spec_validator_op(
                        *old(self),
                        KeyBadgePermission::Validator_UpdateKey,
                        credential,
                    ) == Ok::<u64, AccessError>(call.validator)
                    &&& call.operation matches crate::validator_extension::ValidatorOperation::UpdateKey {
                        key: k,
                    } && k@ == key@
                },
                Err(e) => spec_validator_op(
                    *old(self),
                    KeyBadgePermission::Validator_UpdateKey,
                    credential,
                ) == Err::<u64, AccessError>(e),
            }),
    {
        crate::validator_extension::update_key(self, key, credential)
    }

    /// Forwards `update_fee` to the delegate target under the custodied
    /// authority; requires the matching validator permission.
    pub fn validator_update_fee(&mut self, new_fee_factor: u64, credential: Credential) -> (r:
        Result<ValidatorCall, AccessError>)
        ensures
            *final(self) == *old(self),
            (match r {
                Ok(call) => {
                    &&& spec_validator_op(
                        *old(self),
                        KeyBadgePermission::Validator_UpdateFee,
                        credential,
                    ) == Ok::<u64, AccessError>(call.validator)
                    &&& call.operation matches crate::validator_extension::ValidatorOperation::UpdateFee {
                        new_fee_factor: f,
                    } && f == new_fee_factor
                },
                Err(e) => spec_validator_op(
                    *old(self),
                    KeyBadgePermission::Validator_UpdateFee,
                    credential,
                ) == Err::<u64, AccessError>(e),
            }),
    {
        crate::validator_extension::update_fee(self, new_fee_factor, credential)
    }

    /// Forwards `update_accept_delegated_stake` to the delegate target under
    /// the custodied authority; requires the matching validator permission.
    pub fn validator_update_accept_delegated_stake(
        &mut self,
        accept_delegated_stake: bool,
        credential: Credential,
    ) -> (r: Result<ValidatorCall, AccessError>)
        ensures
            *final(self) == *old(self),
            (match r {
                Ok(call) => {
                    &&& spec_validator_op(
                        *old(self),
                        KeyBadgePermission::Validator_UpdateAcceptDelegatedStake,
                        credential,
                    ) == Ok::<u64, AccessError>(call.validator)
                    &&& call.operation matches crate::validator_extension::ValidatorOperation::UpdateAcceptDelegatedStake {
                        accept_delegated_stake: a,
                    } && a == accept_delegated_stake
                },
                Err(e) => spec_validator_op(
                    *old(self),
                    KeyBadgePermission::Validator_UpdateAcceptDelegatedStake,
                    credential,
                ) == Err::<u64, AccessError>(e),
            }),
    {
        crate::validator_extension::update_accept_delegated_stake(
            self,
            accept_delegated_stake,
            credential,
        )
    }

    /// Forwards `signal_protocol_update_readiness` to the delegate target
    /// under the custodied authority; requires the matching validator
    /// permission.
    pub fn validator_signal_protocol_update_readiness(
        &mut self,
        vote: String,
        credential: Credential,
    ) -> (r: Result<ValidatorCall, AccessError>)
        ensures
            *final(self) == *old(self),
            (match r {
                Ok(call) => {
                    &&& spec_validator_op(
                        *old(self),
                        KeyBadgePermission::Validator_SignalProtocolUpdateReadiness,
                        credential,
                    ) == Ok::<u64, AccessError>(call.validator)
                    &&& call.operation matches crate::validator_extension::ValidatorOperation::SignalProtocolUpdateReadiness {
                        vote: v,
                    } && v@ == vote@
                },
                Err(e) => spec_validator_op(
                    *old(self),
                    KeyBadgePermission::Validator_SignalProtocolUpdateReadiness,
                    credential,
                ) == Err::<u64, AccessError>(e),
            }),
    {
        crate::validator_extension::signal_protocol_update_readiness(self, vote, credential)
    }

    /// Forwards `lock_owner_stake_units` to the delegate target under the
    /// custodied authority; requires the matching validator permission.
    pub fn validator_lock_owner_stake_units(
        &mut self,
        stake_unit_amount: u64,
        credential: Credential,
    ) -> (r: Result<ValidatorCall, AccessError>)
        ensures
            *final(self) == *old(self),
            (match r {
                Ok(call) => {
                    &&& spec_validator_op(
                        *old(self),
                        KeyBadgePermission::Validator_LockOwnerStakeUnits,
                        credential,
                    ) == Ok::<u64, AccessError>(call.validator)
                    &&& call.operation matches crate::validator_extension::ValidatorOperation::LockOwnerStakeUnits {
                        stake_unit_amount: a,
                    } && a == stake_unit_amount
                },
                Err(e) => spec_validator_op(
                    *old(self),
                    KeyBadgePermission::Validator_LockOwnerStakeUnits,
                    credential,
                ) == Err::<u64, AccessError>(e),
            }),
    {
        crate::validator_extension::lock_owner_stake_units(self, stake_unit_amount, credential)
    }

    /// Forwards `start_unlock_owner_stake_units` to the delegate target under
    /// the custodied authority; requires the matching validator permission.
    pub fn validator_start_unlock_owner_stake_units(
        &mut self,
        requested_stake_unit_amount: u64,
        credential: Credential,
    ) -> (r: Result<ValidatorCall, AccessError>)
        ensures
            *final(self) == *old(self),
            (match r {
                Ok(call) => {
                    &&& spec_validator_op(
                        *old(self),
                        KeyBadgePermission::Validator_StartUnlockOwnerStakeUnits,
                        credential,
                    ) == Ok::<u64, AccessError>(call.validator)
                    &&& call.operation matches crate::validator_extension::ValidatorOperation::StartUnlockOwnerStakeUnits {
                        requested_stake_unit_amount: a,
                    } && a == requested_stake_unit_amount
                },
                Err(e) => spec_validator_op(
                    *old(self),
                    KeyBadgePermission::Validator_StartUnlockOwnerStakeUnits,
                    credential,
                ) == Err::<u64, AccessError>(e),
            }),
    {
        crate::validator_extension::start_unlock_owner_stake_units(
            self,
            requested_stake_unit_amount,
            credential,
        )
    }

    /// Forwards `finish_unlock_owner_stake_units` to the delegate target
    /// under the custodied authority; requires the matching validator
    /// permission.
    pub fn validator_finish_unlock_owner_stake_units(&mut self, credential: Credential) -> (r:
        Result<ValidatorCall, AccessError>)
        ensures
            *final(self) == *old(self),
            (match r {
                Ok(call) => {
                    &&& spec_validator_op(
                        *old(self),
                        KeyBadgePermission::Validator_FinishUnlockOwnerStakeUnits,
                        credential,
                    ) == Ok::<u64, AccessError>(call.validator)
                    &&& call.operation is FinishUnlockOwnerStakeUnits
                },
                Err(e) => spec_validator_op(
                    *old(self),
                    KeyBadgePermission::Validator_FinishUnlockOwnerStakeUnits,
                    credential,
                ) == Err::<u64, AccessError>(e),
            }),
    {
        crate::validator_extension::finish_unlock_owner_stake_units(self, credential)
    }
}

/// The custody slot is exclusive: once a deposit succeeds, exactly one
/// authority unit is present, and a second deposit always fails with
/// `AuthorityAlreadyPresent`, whatever it carries.
pub proof fn lemma_deposit_is_exclusive(
    m: AccessManager,
    first: AuthorityBadgeBucket,
    second: AuthorityBadgeBucket,
)
    requires
        spec_deposit_auth_badge(m, first).1 is Ok,
    ensures
        spec_deposit_auth_badge(m, first).0.auth_badge is Some,
        spec_deposit_auth_badge(spec_deposit_auth_badge(m, first).0, second).1 == Err::<
            (),
            AccessError,
        >(AccessError::AuthorityAlreadyPresent),
{
}

} // verus!
