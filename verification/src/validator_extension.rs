use vstd::prelude::*;

use crate::access_manager::AccessManager;
use crate::access_manager_helper::spec_check_caller_permissions;
use crate::access_manager_helper::check_caller_permissions;
use crate::badges::Credential;
use crate::errors::AccessError;
use crate::permissions::KeyBadgePermission;

verus! {

/// Data carried by the managing-authority badge: it names the validator —
/// the delegate target — that the custodied authority controls.
#[derive(Debug)]
pub struct ValidatorOwnerBadgeData {
    pub name: String,
    pub validator: u64,
}

/// The validator rights of a permission set, grouped one flag per forwarded
/// operation: a derived view of the set-of-tags representation.
#[derive(Debug)]
pub struct KeyBadgeValidatorPermissions {
    pub stake_as_owner: bool,
    pub register: bool,
    pub unregister: bool,
    pub update_key: bool,
    pub update_fee: bool,
    pub update_accept_delegated_stake: bool,
    pub signal_protocol_update_readiness: bool,
    pub lock_owner_stake_units: bool,
    pub start_unlock_owner_stake_units: bool,
    pub finish_unlock_owner_stake_units: bool,
}

/// One operation of the delegate target's interface, with its arguments.
/// Amounts are in atomic units; a key is its byte encoding.
#[derive(Debug, PartialEq, Eq)]
pub enum ValidatorOperation {
    Register,
    Unregister,
    StakeAsOwner { stake: u64 },
    UpdateKey { key: Vec<u8> },
    UpdateFee { new_fee_factor: u64 },
    UpdateAcceptDelegatedStake { accept_delegated_stake: bool },
    SignalProtocolUpdateReadiness { vote: String },
    LockOwnerStakeUnits { stake_unit_amount: u64 },
    StartUnlockOwnerStakeUnits { requested_stake_unit_amount: u64 },
    FinishUnlockOwnerStakeUnits,
}

/// A fully authorized call, ready to be forwarded: the validator it is
/// addressed to — read from the custodied authority badge's data — and the
/// operation to invoke under that authority. Exactly one such call leaves per
/// invocation; carrying it out is the host's part.
#[derive(Debug, PartialEq, Eq)]
pub struct ValidatorCall {
    pub validator: u64,
    pub operation: ValidatorOperation,
}

/// The validator the custodied authority badge controls, or `AuthorityAbsent`
/// when the custody slot is empty.
pub open spec fn spec_validator_authorize(m: AccessManager) -> Result<u64, AccessError> {
    match m.auth_badge {
        None => Err(AccessError::AuthorityAbsent),
        Some(d) => Ok(d.validator),
    }
}

/// The verdict of one forwarded operation: the permission check on the
/// presented credential, then the custody check; the payload is the validator
/// the call goes to.
pub open spec fn spec_validator_op(
    m: AccessManager,
    required_permission: KeyBadgePermission,
    credential: Credential,
) -> Result<u64, AccessError> {
    match spec_check_caller_permissions(m, required_permission, None, credential) {
        Err(e) => Err(e),
        Ok(()) => spec_validator_authorize(m),
    }
}

/// Re-derives the authority for one forwarded call: reads the delegate
/// target's address off the custodied authority badge, failing with
/// `AuthorityAbsent` while custody is empty.
fn validator_authorize(access_manager: &AccessManager) -> (r: Result<u64, AccessError>)
    ensures
        r == spec_validator_authorize(*access_manager),
{
    match &access_manager.auth_badge {
        None => Err(AccessError::AuthorityAbsent),
        Some(d) => Ok(d.validator),
    }
}

/// Authorizes a `register` call under the custodied authority.
pub fn register(access_manager: &AccessManager, credential: Credential) -> (r: Result<
    ValidatorCall,
    AccessError,
>)
    ensures
        (match r {
            Ok(call) => {
                &&& spec_validator_op(
                    *access_manager,
                    KeyBadgePermission::Validator_Register,
                    credential,
                ) == Ok::<u64, AccessError>(call.validator)
                &&& call.operation is Register
            },
            Err(e) => spec_validator_op(
                *access_manager,
                KeyBadgePermission::Validator_Register,
                credential,
            ) == Err::<u64, AccessError>(e),
        }),
{
    match check_caller_permissions(
        access_manager,
        KeyBadgePermission::Validator_Register,
        None,
        &credential,
    ) {
        Err(e) => Err(e),
        Ok(()) => match validator_authorize(access_manager) {
            Err(e) => Err(e),
            Ok(validator) => Ok(
                ValidatorCall { validator, operation: ValidatorOperation::Register },
            ),
        },
    }
}

/// Authorizes an `unregister` call under the custodied authority.
pub fn unregister(access_manager: &AccessManager, credential: Credential) -> (r: Result<
    ValidatorCall,
    AccessError,
>)
    ensures
        (match r {
            Ok(call) => {
                &&& spec_validator_op(
                    *access_manager,
                    KeyBadgePermission::Validator_Unregister,
                    credential,
                ) == Ok::<u64, AccessError>(call.validator)
                &&& call.operation is Unregister
            },
            Err(e) => spec_validator_op(
                *access_manager,
                KeyBadgePermission::Validator_Unregister,
                credential,
            ) == Err::<u64, AccessError>(e),
        }),
{
    match check_caller_permissions(
        access_manager,
        KeyBadgePermission::Validator_Unregister,
        None,
        &credential,
    ) {
        Err(e) => Err(e),
        Ok(()) => match validator_authorize(access_manager) {
            Err(e) => Err(e),
            Ok(validator) => Ok(
                ValidatorCall { validator, operation: ValidatorOperation::Unregister },
            ),
        },
    }
}

/// Authorizes a `stake_as_owner` call under the custodied authority.
pub fn stake_as_owner(access_manager: &AccessManager, stake: u64, credential: Credential) -> (r:
    Result<ValidatorCall, AccessError>)
    ensures
        (match r {
            Ok(call) => {
                &&& spec_validator_op(
                    *access_manager,
                    KeyBadgePermission::Validator_StakeAsOwner,
                    credential,
                ) == Ok::<u64, AccessError>(call.validator)
                &&& call.operation matches ValidatorOperation::StakeAsOwner { stake: s } && s
                    == stake
            },
            Err(e) => spec_validator_op(
                *access_manager,
                KeyBadgePermission::Validator_StakeAsOwner,
                credential,
            ) == Err::<u64, AccessError>(e),
        }),
{
    match check_caller_permissions(
        access_manager,
        KeyBadgePermission::Validator_StakeAsOwner,
        None,
        &credential,
    ) {
        Err(e) => Err(e),
        Ok(()) => match validator_authorize(access_manager) {
            Err(e) => Err(e),
            Ok(validator) => Ok(
                ValidatorCall {
                    validator,
                    operation: ValidatorOperation::StakeAsOwner { stake },
                },
            ),
        },
    }
}

/// Authorizes an `update_key` call under the custodied authority.
pub fn update_key(access_manager: &AccessManager, key: Vec<u8>, credential: Credential) -> (r:
    Result<ValidatorCall, AccessError>)
    ensures
        (match r {
            Ok(call) => {
                &&& spec_validator_op(
                    *access_manager,
                    KeyBadgePermission::Validator_UpdateKey,
                    credential,
                ) == Ok::<u64, AccessError>(call.validator)
                &&& call.operation matches ValidatorOperation::UpdateKey { key: k } && k@ == key@
            },
            Err(e) => spec_validator_op(
                *access_manager,
                KeyBadgePermission::Validator_UpdateKey,
                credential,
            ) == Err::<u64, AccessError>(e),
        }),
{
    match check_caller_permissions(
        access_manager,
        KeyBadgePermission::Validator_UpdateKey,
        None,
        &credential,
    ) {
        Err(e) => Err(e),
        Ok(()) => match validator_authorize(access_manager) {
            Err(e) => Err(e),
            Ok(validator) => Ok(
                ValidatorCall { validator, operation: ValidatorOperation::UpdateKey { key } },
            ),
        },
    }
}

/// Authorizes an `update_fee` call under the custodied authority.
pub fn update_fee(access_manager: &AccessManager, new_fee_factor: u64, credential: Credential) -> (
    r: Result<ValidatorCall, AccessError>)
    ensures
        (match r {
            Ok(call) => {
                &&& spec_validator_op(
                    *access_manager,
                    KeyBadgePermission::Validator_UpdateFee,
                    credential,
                ) == Ok::<u64, AccessError>(call.validator)
                &&& call.operation matches ValidatorOperation::UpdateFee { new_fee_factor: f } && f
                    == new_fee_factor
            },
            Err(e) => spec_validator_op(
                *access_manager,
                KeyBadgePermission::Validator_UpdateFee,
                credential,
            ) == Err::<u64, AccessError>(e),
        }),
{
    match check_caller_permissions(
        access_manager,
        KeyBadgePermission::Validator_UpdateFee,
        None,
        &credential,
    ) {
        Err(e) => Err(e),
        Ok(()) => match validator_authorize(access_manager) {
            Err(e) => Err(e),
            Ok(validator) => Ok(
                ValidatorCall {
                    validator,
                    operation: ValidatorOperation::UpdateFee { new_fee_factor },
                },
            ),
        },
    }
}

/// Authorizes an `update_accept_delegated_stake` call under the custodied
/// authority.
pub fn update_accept_delegated_stake(
    access_manager: &AccessManager,
    accept_delegated_stake: bool,
    credential: Credential,
) -> (r: Result<ValidatorCall, AccessError>)
    ensures
        (match r {
            Ok(call) => {
                &&& spec_validator_op(
                    *access_manager,
                    KeyBadgePermission::Validator_UpdateAcceptDelegatedStake,
                    credential,
                ) == Ok::<u64, AccessError>(call.validator)
                &&& call.operation matches ValidatorOperation::UpdateAcceptDelegatedStake {
                    accept_delegated_stake: a,
                } && a == accept_delegated_stake
            },
            Err(e) => spec_validator_op(
                *access_manager,
                KeyBadgePermission::Validator_UpdateAcceptDelegatedStake,
                credential,
            ) == Err::<u64, AccessError>(e),
        }),
{
    match check_caller_permissions(
        access_manager,
        KeyBadgePermission::Validator_UpdateAcceptDelegatedStake,
        None,
        &credential,
    ) {
        Err(e) => Err(e),
        Ok(()) => match validator_authorize(access_manager) {
            Err(e) => Err(e),
            Ok(validator) => Ok(
                ValidatorCall {
                    validator,
                    operation: ValidatorOperation::UpdateAcceptDelegatedStake {
                        accept_delegated_stake,
                    },
                },
            ),
        },
    }
}

/// Authorizes a `signal_protocol_update_readiness` call under the custodied
/// authority.
pub fn signal_protocol_update_readiness(
    access_manager: &AccessManager,
    vote: String,
    credential: Credential,
) -> (r: Result<ValidatorCall, AccessError>)
    ensures
        (match r {
            Ok(call) => {
                &&& spec_validator_op(
                    *access_manager,
                    KeyBadgePermission::Validator_SignalProtocolUpdateReadiness,
                    credential,
                ) == Ok::<u64, AccessError>(call.validator)
                &&& call.operation matches ValidatorOperation::SignalProtocolUpdateReadiness {
                    vote: v,
                } && v@ == vote@
            },
            Err(e) => spec_validator_op(
                *access_manager,
                KeyBadgePermission::Validator_SignalProtocolUpdateReadiness,
                credential,
            ) == Err::<u64, AccessError>(e),
        }),
{
    match check_caller_permissions(
        access_manager,
        KeyBadgePermission::Validator_SignalProtocolUpdateReadiness,
        None,
        &credential,
    ) {
        Err(e) => Err(e),
        Ok(()) => match validator_authorize(access_manager) {
            Err(e) => Err(e),
            Ok(validator) => Ok(
                ValidatorCall {
                    validator,
                    operation: ValidatorOperation::SignalProtocolUpdateReadiness { vote },
                },
            ),
        },
    }
}

/// Authorizes a `lock_owner_stake_units` call under the custodied authority.
pub fn lock_owner_stake_units(
    access_manager: &AccessManager,
    stake_unit_amount: u64,
    credential: Credential,
) -> (r: Result<ValidatorCall, AccessError>)
    ensures
        (match r {
            Ok(call) => {
                &&& spec_validator_op(
                    *access_manager,
                    KeyBadgePermission::Validator_LockOwnerStakeUnits,
                    credential,
                ) == Ok::<u64, AccessError>(call.validator)
                &&& call.operation matches ValidatorOperation::LockOwnerStakeUnits {
                    stake_unit_amount: a,
                } && a == stake_unit_amount
            },
            Err(e) => spec_validator_op(
                *access_manager,
                KeyBadgePermission::Validator_LockOwnerStakeUnits,
                credential,
            ) == Err::<u64, AccessError>(e),
        }),
{
    match check_caller_permissions(
        access_manager,
        KeyBadgePermission::Validator_LockOwnerStakeUnits,
        None,
        &credential,
    ) {
        Err(e) => Err(e),
        Ok(()) => match validator_authorize(access_manager) {
            Err(e) => Err(e),
            Ok(validator) => Ok(
                ValidatorCall {
                    validator,
                    operation: ValidatorOperation::LockOwnerStakeUnits { stake_unit_amount },
                },
            ),
        },
    }
}

/// Authorizes a `start_unlock_owner_stake_units` call under the custodied
/// authority.
pub fn start_unlock_owner_stake_units(
    access_manager: &AccessManager,
    requested_stake_unit_amount: u64,
    credential: Credential,
) -> (r: Result<ValidatorCall, AccessError>)
    ensures
        (match r {
            Ok(call) => {
                &&& spec_validator_op(
                    *access_manager,
                    KeyBadgePermission::Validator_StartUnlockOwnerStakeUnits,
                    credential,
                ) == Ok::<u64, AccessError>(call.validator)
                &&& call.operation matches ValidatorOperation::StartUnlockOwnerStakeUnits {
                    requested_stake_unit_amount: a,
                } && a == requested_stake_unit_amount
            },
            Err(e) => spec_validator_op(
                *access_manager,
                KeyBadgePermission::Validator_StartUnlockOwnerStakeUnits,
                credential,
            ) == Err::<u64, AccessError>(e),
        }),
{
    match check_caller_permissions(
        access_manager,
        KeyBadgePermission::Validator_StartUnlockOwnerStakeUnits,
        None,
        &credential,
    ) {
        Err(e) => Err(e),
        Ok(()) => match validator_authorize(access_manager) {
            Err(e) => Err(e),
            Ok(validator) => Ok(
                ValidatorCall {
                    validator,
                    operation: ValidatorOperation::StartUnlockOwnerStakeUnits {
                        requested_stake_unit_amount,
                    },
                },
            ),
        },
    }
}

/// Authorizes a `finish_unlock_owner_stake_units` call under the custodied
/// authority.
pub fn finish_unlock_owner_stake_units(
    access_manager: &AccessManager,
    credential: Credential,
) -> (r: Result<ValidatorCall, AccessError>)
    ensures
        (match r {
            Ok(call) => {
                &&& spec_validator_op(
                    *access_manager,
                    KeyBadgePermission::Validator_FinishUnlockOwnerStakeUnits,
                    credential,
                ) == Ok::<u64, AccessError>(call.validator)
                &&& call.operation is FinishUnlockOwnerStakeUnits
            },
            Err(e) => spec_validator_op(
                *access_manager,
                KeyBadgePermission::Validator_FinishUnlockOwnerStakeUnits,
                credential,
            ) == Err::<u64, AccessError>(e),
        }),
{
    match check_caller_permissions(
        access_manager,
        KeyBadgePermission::Validator_FinishUnlockOwnerStakeUnits,
        None,
        &credential,
    ) {
        Err(e) => Err(e),
        Ok(()) => match validator_authorize(access_manager) {
            Err(e) => Err(e),
            Ok(validator) => Ok(
                ValidatorCall {
                    validator,
                    operation: ValidatorOperation::FinishUnlockOwnerStakeUnits,
                },
            ),
        },
    }
}

/// The all-or-nothing rule for a forwarded call: the invocation completes
/// only if the delegate target carried the call out; any other outcome aborts
/// it with `DelegateCallFailed`, discarding every effect.
pub fn complete_forwarded_call(call_succeeded: bool) -> (r: Result<(), AccessError>)
    ensures
        r == (if call_succeeded {
            Ok::<(), AccessError>(())
        } else {
            Err::<(), AccessError>(AccessError::DelegateCallFailed)
        }),
{
    if call_succeeded {
        Ok(())
    } else {
        Err(AccessError::DelegateCallFailed)
    }
}

impl KeyBadgeValidatorPermissions {
    /// The grouped view of the validator rights a permission set grants: one
    /// flag per forwarded operation, true exactly when the set holds the
    /// matching tag.
    pub fn of_permission_set(permissions: &crate::permissions::PermissionSet) -> (r:
        KeyBadgeValidatorPermissions)
        ensures
            r.stake_as_owner == permissions@.contains(KeyBadgePermission::Validator_StakeAsOwner),
            r.register == permissions@.contains(KeyBadgePermission::Validator_Register),
            r.unregister == permissions@.contains(KeyBadgePermission::Validator_Unregister),
            r.update_key == permissions@.contains(KeyBadgePermission::Validator_UpdateKey),
            r.update_fee == permissions@.contains(KeyBadgePermission::Validator_UpdateFee),
            r.update_accept_delegated_stake == permissions@.contains(
                KeyBadgePermission::Validator_UpdateAcceptDelegatedStake,
            ),
            r.signal_protocol_update_readiness == permissions@.contains(
                KeyBadgePermission::Validator_SignalProtocolUpdateReadiness,
            ),
            r.lock_owner_stake_units == permissions@.contains(
                KeyBadgePermission::Validator_LockOwnerStakeUnits,
            ),
            r.start_unlock_owner_stake_units == permissions@.contains(
                KeyBadgePermission::Validator_StartUnlockOwnerStakeUnits,
            ),
            r.finish_unlock_owner_stake_units == permissions@.contains(
                KeyBadgePermission::Validator_FinishUnlockOwnerStakeUnits,
            ),
    {
        KeyBadgeValidatorPermissions {
            stake_as_owner: permissions.contains(KeyBadgePermission::Validator_StakeAsOwner),
            register: permissions.contains(KeyBadgePermission::Validator_Register),
            unregister: permissions.contains(KeyBadgePermission::Validator_Unregister),
            update_key: permissions.contains(KeyBadgePermission::Validator_UpdateKey),
            update_fee: permissions.contains(KeyBadgePermission::Validator_UpdateFee),
            update_accept_delegated_stake: permissions.contains(
                KeyBadgePermission::Validator_UpdateAcceptDelegatedStake,
            ),
            signal_protocol_update_readiness: permissions.contains(
                KeyBadgePermission::Validator_SignalProtocolUpdateReadiness,
            ),
            lock_owner_stake_units: permissions.contains(
                KeyBadgePermission::Validator_LockOwnerStakeUnits,
            ),
            start_unlock_owner_stake_units: permissions.contains(
                KeyBadgePermission::Validator_StartUnlockOwnerStakeUnits,
            ),
            finish_unlock_owner_stake_units: permissions.contains(
                KeyBadgePermission::Validator_FinishUnlockOwnerStakeUnits,
            ),
        }
    }
}

/// Withdrawing the authority badge blocks every extension operation: after a
/// successful withdrawal, a forwarded operation whose permission check passes
/// still fails, with `AuthorityAbsent`, until a new deposit funds custody.
pub proof fn lemma_withdraw_blocks_extension(
    m: AccessManager,
    withdraw_credential: Credential,
    op_credential: Credential,
    required_permission: KeyBadgePermission,
)
    requires
        crate::permissions::is_validator_permission(required_permission),
        crate::access_manager::spec_withdraw_auth_badge(m, withdraw_credential).1 is Ok,
        spec_check_caller_permissions(
            crate::access_manager::spec_withdraw_auth_badge(m, withdraw_credential).0,
            required_permission,
            None,
            op_credential,
        ) is Ok,
    ensures
        spec_validator_op(
            crate::access_manager::spec_withdraw_auth_badge(m, withdraw_credential).0,
            required_permission,
            op_credential,
        ) == Err::<u64, AccessError>(AccessError::AuthorityAbsent),
{
}

} // verus!
