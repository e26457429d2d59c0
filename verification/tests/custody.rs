use node_warden::{
    AccessKeyPermissions, AuthorizedCall, BadgeBucket, BadgeProof, Error, NodeWarden, OwnerBadge,
    PermissionType, ValidatorCall, ValidatorOwnerBadge, ValidatorOwnerBadgeData,
    ValidatorOwnerBadgeProof,
};
use scrypto::prelude::{
    Bucket, ComponentAddress, Decimal, FungibleBucket, NodeId, NonFungibleLocalId, Own,
    ResourceAddress, Secp256k1PublicKey, ACCOUNT_OWNER_BADGE, VALIDATOR_OWNER_BADGE,
};

fn component(kind: u8, tail: u8) -> ComponentAddress {
    let mut raw = [tail; 30];
    raw[0] = kind;
    ComponentAddress::new_or_panic(raw)
}

fn resource(tail: u8) -> ResourceAddress {
    let mut raw = [tail; 30];
    raw[0] = 0b10011010;
    ResourceAddress::new_or_panic(raw)
}

fn validator(tail: u8) -> ComponentAddress {
    component(0b10000011, tail)
}

fn badge_of(tail: u8) -> ValidatorOwnerBadge {
    ValidatorOwnerBadge {
        local_id: NonFungibleLocalId::bytes(validator(tail).to_vec()).unwrap(),
        data: ValidatorOwnerBadgeData {
            name: format!("Validator {} Owner Badge", tail),
            validator: validator(tail),
        },
    }
}

fn bucket_of(resource_address: ResourceAddress, tails: &[u8]) -> BadgeBucket {
    BadgeBucket {
        resource_address,
        badges: tails.iter().map(|tail| badge_of(*tail)).collect(),
    }
}

fn fungible_bucket(tail: u8) -> FungibleBucket {
    FungibleBucket(Bucket(Own(NodeId([tail; 30]))))
}

fn warden() -> (NodeWarden, OwnerBadge) {
    NodeWarden::new(None, component(0b11000000, 1), resource(2), resource(3)).unwrap()
}

fn all_permissions() -> AccessKeyPermissions {
    AccessKeyPermissions {
        stake_as_owner: true,
        register: true,
        unregister: true,
        update_key: true,
        update_fee: true,
        lock_owner_stake_units: true,
        start_unlock_owner_stake_units: true,
        finish_unlock_owner_stake_units: true,
        update_accept_delegated_stake: true,
        signal_protocol_update_readiness: true,
        create_validator_owner_badge_proof: true,
    }
}

/// Every call on the validator, made with the same proof.
fn every_call(warden: &NodeWarden, proof: BadgeProof) -> Vec<(ValidatorCall, Result<AuthorizedCall, Error>)> {
    let key = Secp256k1PublicKey([2; 33]);
    let fee = Decimal::try_from("0.05").unwrap();
    let amount = Decimal::try_from("12.5").unwrap();
    vec![
        (
            ValidatorCall::StakeAsOwner {
                stake: fungible_bucket(40),
            },
            warden.stake_as_owner(proof, fungible_bucket(40)),
        ),
        (ValidatorCall::Register, warden.register(proof)),
        (ValidatorCall::Unregister, warden.unregister(proof)),
        (ValidatorCall::UpdateKey { key }, warden.update_key(proof, key)),
        (
            ValidatorCall::UpdateFee {
                new_fee_factor: fee,
            },
            warden.update_fee(proof, fee),
        ),
        (
            ValidatorCall::LockOwnerStakeUnits {
                stake_unit_bucket: fungible_bucket(41),
            },
            warden.lock_owner_stake_units(proof, fungible_bucket(41)),
        ),
        (
            ValidatorCall::StartUnlockOwnerStakeUnits {
                requested_stake_unit_amount: amount,
            },
            warden.start_unlock_owner_stake_units(proof, amount),
        ),
        (
            ValidatorCall::FinishUnlockOwnerStakeUnits,
            warden.finish_unlock_owner_stake_units(proof),
        ),
        (
            ValidatorCall::UpdateAcceptDelegatedStake {
                accept_delegated_stake: true,
            },
            warden.update_accept_delegated_stake(proof, true),
        ),
        (
            ValidatorCall::SignalProtocolUpdateReadiness {
                protocol_version_name: String::from("cuttlefish"),
            },
            warden.signal_protocol_update_readiness(proof, String::from("cuttlefish")),
        ),
    ]
}

#[test]
fn a_new_proxy_holds_nothing() {
    let (warden, owner) = warden();
    assert!(!warden.is_bound());
    assert_eq!(warden.held_quantity(), 0);
    assert_eq!(warden.validator_address(), None);
    assert_eq!(warden.validator_owner_badge_resource(), VALIDATOR_OWNER_BADGE);
    let mut warden = warden;
    assert_eq!(
        warden.withdraw_validator_owner_badge(owner.create_proof()),
        Err(Error::NothingToWithdraw)
    );
    assert!(!warden.is_bound());
}

#[test]
fn deposit_binds_to_the_validator_of_the_badge() {
    let (mut warden, owner) = warden();
    assert_eq!(
        warden.deposit_validator_owner_badge(
            owner.create_proof(),
            bucket_of(VALIDATOR_OWNER_BADGE, &[7])
        ),
        Ok(())
    );
    assert!(warden.is_bound());
    assert_eq!(warden.held_quantity(), 1);
    assert_eq!(warden.validator_address(), Some(validator(7)));
}

#[test]
fn withdraw_returns_what_was_deposited() {
    let (mut warden, owner) = warden();
    let proof = owner.create_proof();
    warden
        .deposit_validator_owner_badge(proof, bucket_of(VALIDATOR_OWNER_BADGE, &[7]))
        .unwrap();
    let withdrawn = warden.withdraw_validator_owner_badge(proof).unwrap();
    assert_eq!(withdrawn, bucket_of(VALIDATOR_OWNER_BADGE, &[7]));
    assert!(!warden.is_bound());
    assert_eq!(warden.validator_address(), None);
    for (_, outcome) in every_call(&warden, proof) {
        assert_eq!(outcome, Err(Error::NotBound));
    }
    assert_eq!(
        warden.create_validator_owner_badge_proof(proof),
        Err(Error::NotBound)
    );
    assert_eq!(
        warden.withdraw_validator_owner_badge(proof),
        Err(Error::NothingToWithdraw)
    );
}

#[test]
fn the_proxy_can_be_bound_again_after_a_withdrawal() {
    let (mut warden, owner) = warden();
    let proof = owner.create_proof();
    warden
        .deposit_validator_owner_badge(proof, bucket_of(VALIDATOR_OWNER_BADGE, &[7]))
        .unwrap();
    warden.withdraw_validator_owner_badge(proof).unwrap();
    warden
        .deposit_validator_owner_badge(proof, bucket_of(VALIDATOR_OWNER_BADGE, &[8]))
        .unwrap();
    assert_eq!(warden.validator_address(), Some(validator(8)));
    let passed = warden.register(proof).unwrap();
    assert_eq!(passed.validator, validator(8));
    assert_eq!(passed.badge, badge_of(8).local_id);
}

#[test]
fn a_second_deposit_is_refused() {
    let (mut warden, owner) = warden();
    let proof = owner.create_proof();
    warden
        .deposit_validator_owner_badge(proof, bucket_of(VALIDATOR_OWNER_BADGE, &[7]))
        .unwrap();
    for offered in [
        bucket_of(VALIDATOR_OWNER_BADGE, &[8]),
        bucket_of(VALIDATOR_OWNER_BADGE, &[7]),
        bucket_of(VALIDATOR_OWNER_BADGE, &[]),
        bucket_of(VALIDATOR_OWNER_BADGE, &[8, 9]),
        bucket_of(ACCOUNT_OWNER_BADGE, &[8]),
    ] {
        assert_eq!(
            warden.deposit_validator_owner_badge(proof, offered),
            Err(Error::AlreadyBound)
        );
        assert_eq!(warden.validator_address(), Some(validator(7)));
    }
    assert_eq!(
        warden.withdraw_validator_owner_badge(proof).unwrap(),
        bucket_of(VALIDATOR_OWNER_BADGE, &[7])
    );
}

#[test]
fn a_bucket_of_another_resource_is_refused() {
    let (mut warden, owner) = warden();
    let proof = owner.create_proof();
    for offered in [
        bucket_of(ACCOUNT_OWNER_BADGE, &[7]),
        bucket_of(resource(2), &[7]),
        bucket_of(resource(3), &[7]),
        bucket_of(ACCOUNT_OWNER_BADGE, &[]),
        bucket_of(ACCOUNT_OWNER_BADGE, &[7, 8]),
    ] {
        assert_eq!(
            warden.deposit_validator_owner_badge(proof, offered),
            Err(Error::WrongCredentialType)
        );
        assert!(!warden.is_bound());
    }
}

#[test]
fn a_bucket_must_hold_exactly_one_badge() {
    let (mut warden, owner) = warden();
    let proof = owner.create_proof();
    for tails in [&[][..], &[7, 8][..], &[7, 7][..], &[7, 8, 9][..]] {
        assert_eq!(
            warden.deposit_validator_owner_badge(proof, bucket_of(VALIDATOR_OWNER_BADGE, tails)),
            Err(Error::WrongQuantity)
        );
        assert!(!warden.is_bound());
        assert_eq!(warden.validator_address(), None);
    }
}

#[test]
fn custody_is_the_owners_alone() {
    let (mut warden, owner) = warden();
    let owner_proof = owner.create_proof();
    let key = warden
        .create_access_key_badge(owner_proof, all_permissions())
        .unwrap();
    let strangers = [
        key.create_proof(),
        BadgeProof {
            resource_address: VALIDATOR_OWNER_BADGE,
            local_id: 0,
        },
        BadgeProof {
            resource_address: resource(9),
            local_id: owner.local_id(),
        },
    ];
    for stranger in strangers {
        assert_eq!(
            warden.deposit_validator_owner_badge(stranger, bucket_of(VALIDATOR_OWNER_BADGE, &[7])),
            Err(Error::UnauthorizedProof)
        );
        assert!(!warden.is_bound());
        assert_eq!(
            warden.withdraw_validator_owner_badge(stranger),
            Err(Error::UnauthorizedProof)
        );
    }
    warden
        .deposit_validator_owner_badge(owner_proof, bucket_of(VALIDATOR_OWNER_BADGE, &[7]))
        .unwrap();
    for stranger in strangers {
        assert_eq!(
            warden.withdraw_validator_owner_badge(stranger),
            Err(Error::UnauthorizedProof)
        );
        assert_eq!(warden.validator_address(), Some(validator(7)));
        assert_eq!(
            warden.deposit_validator_owner_badge(stranger, bucket_of(VALIDATOR_OWNER_BADGE, &[8])),
            Err(Error::UnauthorizedProof)
        );
    }
    assert!(warden.is_bound());
}

#[test]
fn the_owner_passes_every_call() {
    let (mut warden, owner) = warden();
    let proof = owner.create_proof();
    warden
        .create_access_key_badge(proof, AccessKeyPermissions::default())
        .unwrap();
    warden
        .deposit_validator_owner_badge(proof, bucket_of(VALIDATOR_OWNER_BADGE, &[7]))
        .unwrap();
    for action in PermissionType::all() {
        assert_eq!(warden.check_proof(proof, action), Ok(()));
    }
    let calls = every_call(&warden, proof);
    assert_eq!(calls.len(), 10);
    for (call, outcome) in calls {
        assert_eq!(
            outcome,
            Ok(AuthorizedCall {
                validator: validator(7),
                badge: badge_of(7).local_id,
                call,
            })
        );
    }
    assert_eq!(
        warden.create_validator_owner_badge_proof(proof),
        Ok(ValidatorOwnerBadgeProof {
            resource_address: VALIDATOR_OWNER_BADGE,
            local_id: badge_of(7).local_id,
        })
    );
}

#[test]
fn each_call_needs_its_own_permission() {
    let (mut warden, owner) = warden();
    let owner_proof = owner.create_proof();
    warden
        .deposit_validator_owner_badge(owner_proof, bucket_of(VALIDATOR_OWNER_BADGE, &[7]))
        .unwrap();
    let needed = [
        PermissionType::StakeAsOwner,
        PermissionType::Register,
        PermissionType::Unregister,
        PermissionType::UpdateKey,
        PermissionType::UpdateFee,
        PermissionType::LockOwnerStakeUnits,
        PermissionType::StartUnlockOwnerStakeUnits,
        PermissionType::FinishUnlockOwnerStakeUnits,
        PermissionType::UpdateAcceptDelegatedStake,
        PermissionType::SignalProtocolUpdateReadiness,
    ];
    for allowed in PermissionType::all() {
        let mut permissions = AccessKeyPermissions::default();
        permissions.update_permission(allowed, true);
        let key = warden
            .create_access_key_badge(owner_proof, permissions)
            .unwrap();
        let proof = key.create_proof();
        for (index, (call, outcome)) in every_call(&warden, proof).into_iter().enumerate() {
            assert_eq!(call.permission(), needed[index]);
            if needed[index] == allowed {
                assert_eq!(
                    outcome,
                    Ok(AuthorizedCall {
                        validator: validator(7),
                        badge: badge_of(7).local_id,
                        call,
                    })
                );
            } else {
                assert_eq!(
                    outcome,
                    Err(Error::PermissionDenied {
                        action: needed[index]
                    })
                );
            }
        }
        let made = warden.create_validator_owner_badge_proof(proof);
        if allowed == PermissionType::CreateValidatorOwnerBadgeProof {
            assert_eq!(
                made,
                Ok(ValidatorOwnerBadgeProof {
                    resource_address: VALIDATOR_OWNER_BADGE,
                    local_id: badge_of(7).local_id,
                })
            );
        } else {
            assert_eq!(
                made,
                Err(Error::PermissionDenied {
                    action: PermissionType::CreateValidatorOwnerBadgeProof
                })
            );
        }
    }
}

#[test]
fn a_fee_only_badge_updates_the_fee_and_nothing_else() {
    let (mut warden, owner) = warden();
    let owner_proof = owner.create_proof();
    warden
        .deposit_validator_owner_badge(owner_proof, bucket_of(VALIDATOR_OWNER_BADGE, &[7]))
        .unwrap();
    let key = warden
        .create_access_key_badge(
            owner_proof,
            AccessKeyPermissions {
                update_fee: true,
                ..Default::default()
            },
        )
        .unwrap();
    let proof = key.create_proof();
    for action in PermissionType::all() {
        if action == PermissionType::UpdateFee {
            assert_eq!(warden.check_proof(proof, action), Ok(()));
        } else {
            assert_eq!(
                warden.check_proof(proof, action),
                Err(Error::PermissionDenied { action })
            );
        }
    }
    let fee = Decimal::try_from("0.069").unwrap();
    assert_eq!(
        warden.update_fee(proof, fee),
        Ok(AuthorizedCall {
            validator: validator(7),
            badge: badge_of(7).local_id,
            call: ValidatorCall::UpdateFee {
                new_fee_factor: fee
            },
        })
    );
    assert_eq!(
        warden.register(proof),
        Err(Error::PermissionDenied {
            action: PermissionType::Register
        })
    );
}

#[test]
fn permission_is_checked_before_custody() {
    let (mut warden, owner) = warden();
    let owner_proof = owner.create_proof();
    let key = warden
        .create_access_key_badge(
            owner_proof,
            AccessKeyPermissions {
                register: true,
                ..Default::default()
            },
        )
        .unwrap();
    let proof = key.create_proof();
    let foreign = BadgeProof {
        resource_address: VALIDATOR_OWNER_BADGE,
        local_id: 0,
    };
    assert_eq!(warden.register(proof), Err(Error::NotBound));
    assert_eq!(
        warden.unregister(proof),
        Err(Error::PermissionDenied {
            action: PermissionType::Unregister
        })
    );
    assert_eq!(warden.register(foreign), Err(Error::UnauthorizedProof));
    assert_eq!(
        warden.create_validator_owner_badge_proof(foreign),
        Err(Error::UnauthorizedProof)
    );
    assert_eq!(
        warden.do_with_validator_owner_badge_proof(ValidatorCall::Register),
        Err(Error::NotBound)
    );
}

#[test]
fn a_foreign_proof_is_refused() {
    let (mut warden, owner) = warden();
    let owner_proof = owner.create_proof();
    warden
        .deposit_validator_owner_badge(owner_proof, bucket_of(VALIDATOR_OWNER_BADGE, &[7]))
        .unwrap();
    let key = warden
        .create_access_key_badge(owner_proof, all_permissions())
        .unwrap();
    for resource_address in [VALIDATOR_OWNER_BADGE, ACCOUNT_OWNER_BADGE, resource(4)] {
        for local_id in [0, key.local_id(), 1, u64::MAX] {
            let proof = BadgeProof {
                resource_address,
                local_id,
            };
            for action in PermissionType::all() {
                assert_eq!(
                    warden.check_proof(proof, action),
                    Err(Error::UnauthorizedProof)
                );
            }
            for (_, outcome) in every_call(&warden, proof) {
                assert_eq!(outcome, Err(Error::UnauthorizedProof));
            }
        }
    }
}
