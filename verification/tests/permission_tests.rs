use accessmanagement::access_manager::AccessManager;
use accessmanagement::access_manager::AuthorityBadgeBucket;
use accessmanagement::badges::Credential;
use accessmanagement::errors::AccessError;
use accessmanagement::permissions::KeyBadgePermission;
use accessmanagement::permissions::PermissionSet;
use accessmanagement::validator_extension::ValidatorOperation;
use accessmanagement::validator_extension::ValidatorOwnerBadgeData;

const AUTH_BADGE_ADDRESS: u64 = 1;
const OWNER_BADGE_ADDRESS: u64 = 2;
const ACCESS_KEY_BADGE_ADDRESS: u64 = 3;
const COMPONENT_ADDRESS: u64 = 10;
const VALIDATOR_ADDRESS: u64 = 77;

fn new_manager() -> (AccessManager, Credential) {
    let (manager, owner_badge) = AccessManager::new(
        AUTH_BADGE_ADDRESS,
        COMPONENT_ADDRESS,
        OWNER_BADGE_ADDRESS,
        ACCESS_KEY_BADGE_ADDRESS,
    );
    let owner_proof = owner_badge.create_proof();
    (manager, owner_proof)
}

fn auth_badge_bucket() -> AuthorityBadgeBucket {
    AuthorityBadgeBucket {
        resource_address: AUTH_BADGE_ADDRESS,
        units: vec![ValidatorOwnerBadgeData {
            name: String::from("validator owner"),
            validator: VALIDATOR_ADDRESS,
        }],
    }
}

#[test]
fn access_manager_basic_permission_flow() {
    let (mut manager, owner_proof) = new_manager();
    manager.deposit_auth_badge(auth_badge_bucket()).expect("deposit auth badge");

    // Using the owner proof, create a custom single-permission badge for UpdateFee
    let permissions = vec![String::from("UpdateFee")];
    let fee_badge = manager
        .create_custom_access_key_badge(permissions.clone(), owner_proof.clone())
        .expect("create custom badge");
    let fee_proof = fee_badge.create_proof();

    // Call validator_update_fee with fee_proof — should succeed
    let res_ok = manager.validator_update_fee(2, fee_proof);
    assert!(res_ok.is_ok(), "validator_update_fee should succeed with UpdateFee permission");
    let call = res_ok.unwrap();
    assert_eq!(call.validator, VALIDATOR_ADDRESS);
    assert_eq!(call.operation, ValidatorOperation::UpdateFee { new_fee_factor: 2 });

    // Now create a custom badge with UpdateKey permission only and ensure
    // validator_update_fee fails with it
    let key_perms = vec![String::from("UpdateKey")];
    let key_badge = manager
        .create_custom_access_key_badge(key_perms.clone(), owner_proof.clone())
        .expect("create key badge");
    let key_proof = key_badge.create_proof();
    let res_fail = manager.validator_update_fee(3, key_proof);
    assert!(
        res_fail.is_err(),
        "validator_update_fee should fail with a badge that only has UpdateKey permission"
    );
    assert_eq!(res_fail.unwrap_err(), AccessError::PermissionDenied);

    // Create a super access key badge (owner only) with validator permissions
    let super_badge = manager.create_super_access_key_badge(true);
    let super_proof = super_badge.create_proof();
    let super_fee_res = manager.validator_update_fee(5, super_proof);
    assert!(super_fee_res.is_ok(), "validator_update_fee should succeed with super badge");

    // Create a CreateNativeProof-only badge and test create_auth_badge_proof
    let native_perms = vec![String::from("CreateNativeProof")];
    let native_badge = manager
        .create_custom_access_key_badge(native_perms.clone(), owner_proof)
        .expect("create native badge");
    let native_proof = native_badge.create_proof();
    let create_proof_res = manager.create_auth_badge_proof(native_proof);
    assert!(
        create_proof_res.is_ok(),
        "create_auth_badge_proof should succeed with CreateNativeProof badge"
    );
    let auth_proof = create_proof_res.unwrap();
    assert_eq!(auth_proof.resource_address, AUTH_BADGE_ADDRESS);
    assert_eq!(auth_proof.amount, 1);
}

#[test]
fn super_key_contains_all_permission_groups() {
    let (mut manager, _owner_proof) = new_manager();
    let badge = manager.create_super_access_key_badge(true);
    let all_tags = [
        KeyBadgePermission::CreateAccessKey,
        KeyBadgePermission::RecallAccessKey,
        KeyBadgePermission::CreateNativeProof,
        KeyBadgePermission::Validator_Register,
        KeyBadgePermission::Validator_Unregister,
        KeyBadgePermission::Validator_StakeAsOwner,
        KeyBadgePermission::Validator_UpdateKey,
        KeyBadgePermission::Validator_UpdateFee,
        KeyBadgePermission::Validator_UpdateAcceptDelegatedStake,
        KeyBadgePermission::Validator_SignalProtocolUpdateReadiness,
        KeyBadgePermission::Validator_LockOwnerStakeUnits,
        KeyBadgePermission::Validator_StartUnlockOwnerStakeUnits,
        KeyBadgePermission::Validator_FinishUnlockOwnerStakeUnits,
    ];
    for tag in all_tags {
        assert!(badge.data.permissions.contains(tag), "super key must grant {:?}", tag);
    }

    // Without validator rights the super key grants only super and basic tags.
    let bare = manager.create_super_access_key_badge(false);
    assert!(bare.data.permissions.contains(KeyBadgePermission::CreateAccessKey));
    assert!(bare.data.permissions.contains(KeyBadgePermission::RecallAccessKey));
    assert!(bare.data.permissions.contains(KeyBadgePermission::CreateNativeProof));
    assert!(!bare.data.permissions.contains(KeyBadgePermission::Validator_UpdateFee));
}

#[test]
fn standard_holder_cannot_grant_tag_it_lacks() {
    let (mut manager, owner_proof) = new_manager();
    // A holder with only the UpdateFee right.
    let fee_badge = manager
        .create_custom_access_key_badge(vec![String::from("UpdateFee")], owner_proof)
        .expect("create fee badge");
    let fee_proof = fee_badge.create_proof();
    // The holder lacks CreateAccessKey, so issuing any key is denied.
    let res = manager.create_custom_access_key_badge(vec![String::from("UpdateKey")], fee_proof);
    assert_eq!(res.unwrap_err(), AccessError::PermissionDenied);
}

#[test]
fn issuer_holder_grants_subset_but_never_super() {
    let (mut manager, owner_proof) = new_manager();
    // A holder with CreateAccessKey and UpdateFee.
    let issuer_badge = manager
        .create_custom_access_key_badge(
            vec![String::from("CreateAccessKey"), String::from("UpdateFee")],
            owner_proof,
        )
        .expect("create issuer badge");

    // Granting a right within its own set succeeds.
    let granted = manager
        .create_custom_access_key_badge(
            vec![String::from("UpdateFee")],
            issuer_badge.create_proof(),
        )
        .expect("issuing a subset must succeed");
    assert!(granted.data.permissions.contains(KeyBadgePermission::Validator_UpdateFee));
    assert!(!granted.data.permissions.contains(KeyBadgePermission::CreateAccessKey));

    // Granting a super right is an escalation, even though the issuer holds it.
    let res = manager.create_custom_access_key_badge(
        vec![String::from("CreateAccessKey")],
        issuer_badge.create_proof(),
    );
    assert_eq!(res.unwrap_err(), AccessError::SuperPermissionEscalation);

    // Granting a right outside its own set is an escalation too.
    let res = manager.create_custom_access_key_badge(
        vec![String::from("UpdateKey")],
        issuer_badge.create_proof(),
    );
    assert_eq!(res.unwrap_err(), AccessError::SuperPermissionEscalation);
}

#[test]
fn deposit_funds_custody_exactly_once() {
    let (mut manager, _owner_proof) = new_manager();
    assert!(manager.auth_badge.is_none());
    manager.deposit_auth_badge(auth_badge_bucket()).expect("first deposit");
    assert!(manager.auth_badge.is_some());
    // A second deposit always fails with AuthorityAlreadyPresent.
    let res = manager.deposit_auth_badge(auth_badge_bucket());
    assert_eq!(res.unwrap_err(), AccessError::AuthorityAlreadyPresent);
    assert!(manager.auth_badge.is_some());
}

#[test]
fn deposit_rejects_wrong_amount() {
    let (mut manager, _owner_proof) = new_manager();
    let empty = AuthorityBadgeBucket { resource_address: AUTH_BADGE_ADDRESS, units: vec![] };
    assert_eq!(manager.deposit_auth_badge(empty).unwrap_err(), AccessError::InvalidAmount);
    let two = AuthorityBadgeBucket {
        resource_address: AUTH_BADGE_ADDRESS,
        units: vec![
            ValidatorOwnerBadgeData { name: String::from("a"), validator: VALIDATOR_ADDRESS },
            ValidatorOwnerBadgeData { name: String::from("b"), validator: VALIDATOR_ADDRESS },
        ],
    };
    assert_eq!(manager.deposit_auth_badge(two).unwrap_err(), AccessError::InvalidAmount);
    assert!(manager.auth_badge.is_none());
}

#[test]
fn withdraw_then_extension_operation_fails_authority_absent() {
    let (mut manager, owner_proof) = new_manager();
    manager.deposit_auth_badge(auth_badge_bucket()).expect("deposit");
    let bucket = manager.withdraw_auth_badge(owner_proof.clone()).expect("withdraw");
    assert_eq!(bucket.resource_address, AUTH_BADGE_ADDRESS);
    assert_eq!(bucket.units.len(), 1);
    assert!(manager.auth_badge.is_none());

    // Every extension operation now fails with AuthorityAbsent, even for the
    // owner, whose permission check always passes.
    let res = manager.validator_register(owner_proof.clone());
    assert_eq!(res.unwrap_err(), AccessError::AuthorityAbsent);
    let res = manager.validator_update_fee(2, owner_proof.clone());
    assert_eq!(res.unwrap_err(), AccessError::AuthorityAbsent);
    let res = manager.validator_stake_as_owner(100, owner_proof);
    assert_eq!(res.unwrap_err(), AccessError::AuthorityAbsent);
}

#[test]
fn withdraw_requires_owner_and_funded_custody() {
    let (mut manager, owner_proof) = new_manager();
    // Empty custody: AuthorityAbsent.
    let res = manager.withdraw_auth_badge(owner_proof.clone());
    assert_eq!(res.unwrap_err(), AccessError::AuthorityAbsent);
    manager.deposit_auth_badge(auth_badge_bucket()).expect("deposit");
    // A key holder cannot withdraw.
    let key_badge = manager.create_super_access_key_badge(true);
    let res = manager.withdraw_auth_badge(key_badge.create_proof());
    assert_eq!(res.unwrap_err(), AccessError::PermissionDenied);
    // A foreign credential is unrecognised.
    let foreign = Credential { resource_address: 999, permissions: PermissionSet { tags: vec![] } };
    let res = manager.withdraw_auth_badge(foreign);
    assert_eq!(res.unwrap_err(), AccessError::UnrecognizedCredential);
    // The owner can.
    manager.withdraw_auth_badge(owner_proof).expect("owner withdraws");
}
