use accessmanagement::access_manager::AccessManager;
use accessmanagement::access_manager::AuthorityBadgeBucket;
use accessmanagement::access_manager::KeyBadgeVault;
use accessmanagement::badges::Credential;
use accessmanagement::errors::AccessError;
use accessmanagement::permissions::KeyBadgePermission;
use accessmanagement::permissions::PermissionSet;
use accessmanagement::validator_extension::ValidatorOperation;
use accessmanagement::validator_extension::ValidatorOwnerBadgeData;
use accessmanagement::validator_extension::complete_forwarded_call;

const AUTH_BADGE_ADDRESS: u64 = 1;
const OWNER_BADGE_ADDRESS: u64 = 2;
const ACCESS_KEY_BADGE_ADDRESS: u64 = 3;
const COMPONENT_ADDRESS: u64 = 10;
const VALIDATOR_ADDRESS: u64 = 77;

fn new_manager() -> (AccessManager, Credential) {
    let (manager, owner_badge) = AccessManager::new(
        AUTH_BADGE_ADDRESS,
        COMPONENT_ADDRESS,
        OWNER_BADGE_ADDRESS,
        ACCESS_KEY_BADGE_ADDRESS,
    );
    let owner_proof = owner_badge.create_proof();
    (manager, owner_proof)
}

fn funded_manager() -> (AccessManager, Credential) {
    let (mut manager, owner_proof) = new_manager();
    let bucket = AuthorityBadgeBucket {
        resource_address: AUTH_BADGE_ADDRESS,
        units: vec![ValidatorOwnerBadgeData {
            name: String::from("validator owner"),
            validator: VALIDATOR_ADDRESS,
        }],
    };
    manager.deposit_auth_badge(bucket).expect("deposit");
    (manager, owner_proof)
}

#[test]
fn recall_takes_exactly_one_unit() {
    let (mut manager, owner_proof) = new_manager();
    let badge = manager.create_super_access_key_badge(false);
    let mut vault = KeyBadgeVault {
        resource_address: ACCESS_KEY_BADGE_ADDRESS,
        units: vec![badge.data],
    };
    let recalled = manager
        .recall_key_badge(&mut vault, owner_proof)
        .expect("recall from a funded location");
    assert_eq!(recalled.resource_address, ACCESS_KEY_BADGE_ADDRESS);
    assert!(recalled.data.permissions.contains(KeyBadgePermission::CreateAccessKey));
    assert!(vault.units.is_empty(), "the recalled unit left the location");
}

#[test]
fn recall_from_empty_location_fails() {
    let (mut manager, owner_proof) = new_manager();
    let mut vault = KeyBadgeVault { resource_address: ACCESS_KEY_BADGE_ADDRESS, units: vec![] };
    let res = manager.recall_key_badge(&mut vault, owner_proof);
    assert_eq!(res.unwrap_err(), AccessError::RecallTargetEmpty);
}

#[test]
fn recall_requires_the_recall_permission() {
    let (mut manager, owner_proof) = new_manager();
    let holder_badge = manager
        .create_custom_access_key_badge(vec![String::from("UpdateFee")], owner_proof.clone())
        .expect("create holder badge");
    let victim_badge = manager
        .create_custom_access_key_badge(vec![String::from("UpdateKey")], owner_proof)
        .expect("create victim badge");
    let mut vault = KeyBadgeVault {
        resource_address: ACCESS_KEY_BADGE_ADDRESS,
        units: vec![victim_badge.data],
    };
    let res = manager.recall_key_badge(&mut vault, holder_badge.create_proof());
    assert_eq!(res.unwrap_err(), AccessError::PermissionDenied);
    assert_eq!(vault.units.len(), 1, "a denied recall moves nothing");
}

#[test]
fn burn_key_badge_accepts_any_holder() {
    let (mut manager, _owner_proof) = new_manager();
    let badge = manager.create_super_access_key_badge(false);
    // Possession is sufficient: no permission check, no error.
    manager.burn_key_badge(badge);
}

#[test]
fn auth_badge_proof_requires_permission_and_custody() {
    let (mut manager, owner_proof) = new_manager();
    // Custody empty: AuthorityAbsent, even for the owner.
    let res = manager.create_auth_badge_proof(owner_proof.clone());
    assert_eq!(res.unwrap_err(), AccessError::AuthorityAbsent);

    let (mut manager, owner_proof) = funded_manager();
    // A holder without CreateNativeProof is denied.
    let fee_badge = manager
        .create_custom_access_key_badge(vec![String::from("UpdateFee")], owner_proof.clone())
        .expect("create fee badge");
    let res = manager.create_auth_badge_proof(fee_badge.create_proof());
    assert_eq!(res.unwrap_err(), AccessError::PermissionDenied);
    // A foreign credential is unrecognised.
    let foreign = Credential { resource_address: 555, permissions: PermissionSet { tags: vec![] } };
    let res = manager.create_auth_badge_proof(foreign);
    assert_eq!(res.unwrap_err(), AccessError::UnrecognizedCredential);
    // The owner passes.
    let auth_proof = manager.create_auth_badge_proof(owner_proof).expect("owner proof");
    assert_eq!(auth_proof.resource_address, AUTH_BADGE_ADDRESS);
    assert_eq!(auth_proof.amount, 1);
}

#[test]
fn basic_key_badge_grants_no_super_right() {
    let (mut manager, owner_proof) = new_manager();
    let badge = manager
        .create_basic_key_badge(true, owner_proof.clone())
        .expect("owner issues a basic key");
    assert!(badge.data.permissions.contains(KeyBadgePermission::CreateNativeProof));
    assert!(badge.data.permissions.contains(KeyBadgePermission::Validator_UpdateFee));
    assert!(!badge.data.permissions.contains(KeyBadgePermission::CreateAccessKey));
    assert!(!badge.data.permissions.contains(KeyBadgePermission::RecallAccessKey));

    let bare = manager.create_basic_key_badge(false, owner_proof).expect("owner issues");
    assert!(bare.data.permissions.contains(KeyBadgePermission::CreateNativeProof));
    assert!(!bare.data.permissions.contains(KeyBadgePermission::Validator_UpdateFee));
}

#[test]
fn basic_key_badge_needs_an_issuing_holder() {
    let (mut manager, owner_proof) = new_manager();
    // A super key holder can issue a basic key: the implicit grant is within
    // its own set and carries no super right.
    let super_badge = manager.create_super_access_key_badge(true);
    let issued = manager.create_basic_key_badge(true, super_badge.create_proof());
    assert!(issued.is_ok(), "a super key holder issues basic keys");

    // A holder without CreateAccessKey is denied.
    let fee_badge = manager
        .create_custom_access_key_badge(vec![String::from("UpdateFee")], owner_proof)
        .expect("create fee badge");
    let res = manager.create_basic_key_badge(false, fee_badge.create_proof());
    assert_eq!(res.unwrap_err(), AccessError::PermissionDenied);
}

#[test]
fn every_extension_operation_is_forwarded_with_its_arguments() {
    let (mut manager, owner) = funded_manager();
    let call = manager.validator_register(owner.clone()).unwrap();
    assert_eq!(call.validator, VALIDATOR_ADDRESS);
    assert_eq!(call.operation, ValidatorOperation::Register);

    let call = manager.validator_unregister(owner.clone()).unwrap();
    assert_eq!(call.operation, ValidatorOperation::Unregister);

    let call = manager.validator_stake_as_owner(250, owner.clone()).unwrap();
    assert_eq!(call.operation, ValidatorOperation::StakeAsOwner { stake: 250 });

    let call = manager.validator_update_key(vec![7, 7, 7], owner.clone()).unwrap();
    assert_eq!(call.operation, ValidatorOperation::UpdateKey { key: vec![7, 7, 7] });

    let call = manager.validator_update_fee(42, owner.clone()).unwrap();
    assert_eq!(call.operation, ValidatorOperation::UpdateFee { new_fee_factor: 42 });

    let call = manager.validator_update_accept_delegated_stake(true, owner.clone()).unwrap();
    assert_eq!(
        call.operation,
        ValidatorOperation::UpdateAcceptDelegatedStake { accept_delegated_stake: true }
    );

    let call = manager
        .validator_signal_protocol_update_readiness(String::from("ready"), owner.clone())
        .unwrap();
    assert_eq!(
        call.operation,
        ValidatorOperation::SignalProtocolUpdateReadiness { vote: String::from("ready") }
    );

    let call = manager.validator_lock_owner_stake_units(11, owner.clone()).unwrap();
    assert_eq!(call.operation, ValidatorOperation::LockOwnerStakeUnits { stake_unit_amount: 11 });

    let call = manager.validator_start_unlock_owner_stake_units(12, owner.clone()).unwrap();
    assert_eq!(
        call.operation,
        ValidatorOperation::StartUnlockOwnerStakeUnits { requested_stake_unit_amount: 12 }
    );

    let call = manager.validator_finish_unlock_owner_stake_units(owner).unwrap();
    assert_eq!(call.operation, ValidatorOperation::FinishUnlockOwnerStakeUnits);
    assert_eq!(call.validator, VALIDATOR_ADDRESS);
}

#[test]
fn extension_operations_check_the_matching_permission() {
    let (mut manager, owner) = funded_manager();
    let fee_badge = manager
        .create_custom_access_key_badge(vec![String::from("UpdateFee")], owner)
        .expect("create fee badge");
    let proof = fee_badge.create_proof();
    assert!(manager.validator_update_fee(1, proof.clone()).is_ok());
    assert_eq!(
        manager.validator_register(proof.clone()).unwrap_err(),
        AccessError::PermissionDenied
    );
    assert_eq!(
        manager.validator_update_key(vec![1], proof.clone()).unwrap_err(),
        AccessError::PermissionDenied
    );
    // A foreign credential is always unrecognised, never silently granted.
    let foreign = Credential { resource_address: 123, permissions: proof.permissions.clone() };
    assert_eq!(
        manager.validator_update_fee(1, foreign).unwrap_err(),
        AccessError::UnrecognizedCredential
    );
}

#[test]
fn each_extension_operation_maps_to_its_own_tag() {
    let (mut manager, owner) = funded_manager();
    let badge_with = |manager: &mut AccessManager, tag: &str| {
        manager
            .create_custom_access_key_badge(vec![String::from(tag)], owner.clone())
            .expect("create single-tag badge")
            .create_proof()
    };

    let register = badge_with(&mut manager, "Register");
    assert!(manager.validator_register(register.clone()).is_ok());
    assert_eq!(manager.validator_unregister(register).unwrap_err(), AccessError::PermissionDenied);

    let unregister = badge_with(&mut manager, "Unregister");
    assert!(manager.validator_unregister(unregister.clone()).is_ok());
    assert_eq!(
        manager.validator_stake_as_owner(1, unregister).unwrap_err(),
        AccessError::PermissionDenied
    );

    let stake = badge_with(&mut manager, "StakeAsOwner");
    assert!(manager.validator_stake_as_owner(1, stake.clone()).is_ok());
    assert_eq!(
        manager.validator_update_key(vec![1], stake).unwrap_err(),
        AccessError::PermissionDenied
    );

    let update_key = badge_with(&mut manager, "UpdateKey");
    assert!(manager.validator_update_key(vec![1], update_key.clone()).is_ok());
    assert_eq!(manager.validator_update_fee(1, update_key).unwrap_err(), AccessError::PermissionDenied);

    let update_fee = badge_with(&mut manager, "UpdateFee");
    assert!(manager.validator_update_fee(1, update_fee.clone()).is_ok());
    assert_eq!(
        manager.validator_update_accept_delegated_stake(true, update_fee).unwrap_err(),
        AccessError::PermissionDenied
    );

    let accept = badge_with(&mut manager, "UpdateAcceptDelegatedStake");
    assert!(manager.validator_update_accept_delegated_stake(true, accept.clone()).is_ok());
    assert_eq!(
        manager
            .validator_signal_protocol_update_readiness(String::from("v"), accept)
            .unwrap_err(),
        AccessError::PermissionDenied
    );

    let signal = badge_with(&mut manager, "SignalProtocolUpdateReadiness");
    assert!(manager
        .validator_signal_protocol_update_readiness(String::from("v"), signal.clone())
        .is_ok());
    assert_eq!(
        manager.validator_lock_owner_stake_units(1, signal).unwrap_err(),
        AccessError::PermissionDenied
    );

    let lock = badge_with(&mut manager, "LockOwnerStakeUnits");
    assert!(manager.validator_lock_owner_stake_units(1, lock.clone()).is_ok());
    assert_eq!(
        manager.validator_start_unlock_owner_stake_units(1, lock).unwrap_err(),
        AccessError::PermissionDenied
    );

    let start_unlock = badge_with(&mut manager, "StartUnlockOwnerStakeUnits");
    assert!(manager.validator_start_unlock_owner_stake_units(1, start_unlock.clone()).is_ok());
    assert_eq!(
        manager.validator_finish_unlock_owner_stake_units(start_unlock).unwrap_err(),
        AccessError::PermissionDenied
    );

    let finish_unlock = badge_with(&mut manager, "FinishUnlockOwnerStakeUnits");
    assert!(manager.validator_finish_unlock_owner_stake_units(finish_unlock.clone()).is_ok());
    assert_eq!(
        manager.validator_register(finish_unlock).unwrap_err(),
        AccessError::PermissionDenied
    );
}

#[test]
fn forwarded_call_outcome_is_all_or_nothing() {
    assert_eq!(complete_forwarded_call(true), Ok(()));
    assert_eq!(complete_forwarded_call(false), Err(AccessError::DelegateCallFailed));
}
