use node_warden::{
    AccessKeyBadge, AccessKeyBadgeData, AccessKeyPermissions, AuthorizedCall, BadgeBucket,
    BadgeProof, Error, NodeWarden, OwnerBadge, ValidatorCall, ValidatorOwnerBadge,
    ValidatorOwnerBadgeData,
};
use scrypto::prelude::{
    ComponentAddress, Decimal, NonFungibleLocalId, ResourceAddress, VALIDATOR_OWNER_BADGE,
};

/// Somebody who holds a badge and shows proofs of it.
#[derive(Clone, Debug)]
pub struct Account {
    account_address: ComponentAddress,
    badge: BadgeProof,
}

/// A validator as far as these tests look at it.
struct Validator {
    address: ComponentAddress,
    owner_badge: NonFungibleLocalId,
    is_registered: bool,
    validator_fee_change_request: Option<Decimal>,
}

impl Validator {
    /// Performs a call that the proxy has let through.
    fn perform(&mut self, authorized: AuthorizedCall) {
        assert_eq!(authorized.validator, self.address);
        assert_eq!(authorized.badge, self.owner_badge);
        match authorized.call {
            ValidatorCall::Register => self.is_registered = true,
            ValidatorCall::Unregister => self.is_registered = false,
            ValidatorCall::UpdateFee { new_fee_factor } => {
                self.validator_fee_change_request = Some(new_fee_factor)
            }
            other => panic!("not looked at in these tests: {:?}", other),
        }
    }
}

struct CustomTestEnvironment {
    node_warden: NodeWarden,
    validator: Validator,
}

struct NodeWardenInstantiateResult {
    component_address: ComponentAddress,
    owner_badge: OwnerBadge,
    access_key_resource: ResourceAddress,
}

fn component_address(kind: u8, tail: u8) -> ComponentAddress {
    let mut raw = [tail; 30];
    raw[0] = kind;
    ComponentAddress::new_or_panic(raw)
}

fn resource_address(tail: u8) -> ResourceAddress {
    let mut raw = [tail; 30];
    raw[0] = 0b10011010;
    ResourceAddress::new_or_panic(raw)
}

fn expect_commit_success<T>(outcome: Result<T, Error>) -> T {
    match outcome {
        Ok(value) => value,
        Err(error) => panic!("Expected success but was failure: {:?}", error),
    }
}

fn expect_or_message<T>(outcome: Result<T, Error>) -> T {
    match outcome {
        Ok(value) => value,
        Err(error) => panic!("{}", error.message()),
    }
}

impl CustomTestEnvironment {
    fn create_validator_component() -> (Validator, BadgeBucket) {
        let address = component_address(0b10000011, 7);
        let owner_badge = NonFungibleLocalId::bytes(address.to_vec()).unwrap();
        let validator = Validator {
            address,
            owner_badge: owner_badge.clone(),
            is_registered: false,
            validator_fee_change_request: None,
        };
        let bucket = BadgeBucket {
            resource_address: VALIDATOR_OWNER_BADGE,
            badges: vec![ValidatorOwnerBadge {
                local_id: owner_badge,
                data: ValidatorOwnerBadgeData {
                    name: String::from("Validator Owner Badge"),
                    validator: address,
                },
            }],
        };
        (validator, bucket)
    }

    fn instantiate_node_warden() -> (NodeWarden, NodeWardenInstantiateResult) {
        let component_address = component_address(0b11000000, 1);
        let access_key_resource = resource_address(3);
        let (node_warden, owner_badge) =
            NodeWarden::new(None, component_address, resource_address(2), access_key_resource)
                .unwrap();
        (
            node_warden,
            NodeWardenInstantiateResult {
                component_address,
                owner_badge,
                access_key_resource,
            },
        )
    }

    fn deposit_validator_owner_badge(&mut self, account: &Account, bucket: BadgeBucket) {
        expect_commit_success(
            self.node_warden
                .deposit_validator_owner_badge(account.badge, bucket),
        );
    }

    fn create_access_key_badge(
        &mut self,
        account: &Account,
        permissions: AccessKeyPermissions,
    ) -> AccessKeyBadge {
        expect_commit_success(
            self.node_warden
                .create_access_key_badge(account.badge, permissions),
        )
    }

    fn update_access_key_badge_permissions(
        &mut self,
        account: &Account,
        access_key_badge: &AccessKeyBadge,
        permission: &str,
        allow: bool,
    ) {
        expect_commit_success(self.node_warden.update_access_key_badge_permissions(
            account.badge,
            access_key_badge.local_id(),
            permission,
            allow,
        ));
    }

    fn update_fee(&mut self, account: &Account, new_fee_factor: Decimal) {
        let authorized =
            expect_or_message(self.node_warden.update_fee(account.badge, new_fee_factor));
        self.validator.perform(authorized);
    }

    fn register(&mut self, account: &Account) {
        let authorized = expect_or_message(self.node_warden.register(account.badge));
        self.validator.perform(authorized);
    }

    fn unregister(&mut self, account: &Account) {
        let authorized = expect_or_message(self.node_warden.unregister(account.badge));
        self.validator.perform(authorized);
    }

    fn withdraw_validator_owner_badge(&mut self, account: &Account) -> BadgeBucket {
        expect_commit_success(
            self.node_warden
                .withdraw_validator_owner_badge(account.badge),
        )
    }

    fn get_non_fungible_data(&self, access_key_badge: &AccessKeyBadge) -> AccessKeyBadgeData {
        assert_eq!(
            access_key_badge.resource_address(),
            self.node_warden.access_key_badge_resource()
        );
        self.node_warden
            .access_key_badge_data(access_key_badge.local_id())
            .unwrap()
    }
}

struct SimpleSetupStuff {
    env: CustomTestEnvironment,
    validator_owner: Account,
    validator_component: ComponentAddress,
    admin1: Account,
    node_warden_results: NodeWardenInstantiateResult,
    admin1_access_key: AccessKeyBadge,
}

fn simple_setup(permissions: AccessKeyPermissions) -> SimpleSetupStuff {
    let (validator, validator_owner_badge) = CustomTestEnvironment::create_validator_component();
    let validator_component = validator.address;
    let (node_warden, node_warden_results) = CustomTestEnvironment::instantiate_node_warden();
    let mut env = CustomTestEnvironment {
        node_warden,
        validator,
    };

    let validator_owner = Account {
        account_address: component_address(0b11000001, 10),
        badge: node_warden_results.owner_badge.create_proof(),
    };
    env.deposit_validator_owner_badge(&validator_owner, validator_owner_badge);

    let access_key = env.create_access_key_badge(&validator_owner, permissions);
    let admin1 = Account {
        account_address: component_address(0b11000001, 11),
        badge: access_key.create_proof(),
    };
    assert_ne!(validator_owner.account_address, admin1.account_address);
    assert_eq!(
        access_key.resource_address(),
        node_warden_results.access_key_resource
    );
    assert_eq!(
        env.node_warden.component_address(),
        node_warden_results.component_address
    );

    return SimpleSetupStuff {
        env,
        validator_owner,
        validator_component,
        admin1,
        node_warden_results,
        admin1_access_key: access_key,
    };
}

fn dec(text: &str) -> Decimal {
    Decimal::try_from(text).unwrap()
}

#[test]
fn create_env() {
    let SimpleSetupStuff {
        mut env,
        validator_owner: _,
        admin1,
        node_warden_results: _,
        admin1_access_key: _,
        validator_component,
    } = simple_setup(AccessKeyPermissions {
        update_fee: true,
        ..Default::default()
    });

    env.update_fee(&admin1, dec("0.069"));

    assert_eq!(env.validator.address, validator_component);
    let validator_info = &env.validator;
    assert!(validator_info.validator_fee_change_request.unwrap() == dec("0.069"));
}

#[test]
fn successfully_update_fee() {
    let SimpleSetupStuff {
        mut env,
        validator_owner: _,
        admin1,
        node_warden_results: _,
        admin1_access_key: _,
        validator_component: _,
    } = simple_setup(AccessKeyPermissions {
        update_fee: true,
        ..Default::default()
    });

    env.update_fee(&admin1, dec("0.069"));

    let validator_info = &env.validator;
    assert!(validator_info.validator_fee_change_request.unwrap() == dec("0.069"));
}

#[test]
#[should_panic(expected = "Access key badge does not have permission for: unregister")]
fn unsuccessfully_unregister() {
    let SimpleSetupStuff {
        mut env,
        validator_owner: _,
        admin1,
        node_warden_results: _,
        admin1_access_key: _,
        validator_component: _,
    } = simple_setup(AccessKeyPermissions {
        update_fee: true,
        unregister: false, // not allowed to unregister
        ..Default::default()
    });

    env.unregister(&admin1);
}

#[test]
fn update_fee_then_withdraw_validator_owner_badge() {
    let SimpleSetupStuff {
        mut env,
        validator_owner,
        admin1,
        node_warden_results: _,
        admin1_access_key: _,
        validator_component,
    } = simple_setup(AccessKeyPermissions {
        update_fee: true,
        unregister: false, // not allowed to unregister
        ..Default::default()
    });

    env.update_fee(&admin1, dec("0.069"));

    let withdrawn = env.withdraw_validator_owner_badge(&validator_owner);
    assert_eq!(withdrawn.resource_address, VALIDATOR_OWNER_BADGE);
    assert_eq!(withdrawn.badges.len(), 1);
    assert_eq!(withdrawn.badges[0].data.validator, validator_component);
    assert_eq!(withdrawn.badges[0].local_id, env.validator.owner_badge);
    assert_eq!(env.node_warden.validator_address(), None);
}

#[test]
#[should_panic(expected = "Expected success but was failure: UnauthorizedProof")]
fn admin_unsuccessfully_withdraw_validator_owner_badge() {
    let SimpleSetupStuff {
        mut env,
        validator_owner: _,
        admin1,
        node_warden_results: _,
        admin1_access_key: _,
        validator_component: _,
    } = simple_setup(AccessKeyPermissions {
        update_fee: true,
        unregister: false, // not allowed to unregister
        ..Default::default()
    });

    let _ = env.withdraw_validator_owner_badge(&admin1);
}

#[test]
fn enable_unregister_and_successfully_do_it() {
    let SimpleSetupStuff {
        mut env,
        validator_owner,
        admin1,
        node_warden_results: _,
        admin1_access_key,
        validator_component: _,
    } = simple_setup(AccessKeyPermissions {
        update_fee: true,
        unregister: false, // not allowed to unregister at first
        register: false,   // not allowed to register at first
        ..Default::default()
    });

    env.update_access_key_badge_permissions(
        &validator_owner,
        &admin1_access_key,
        "unregister",
        true,
    );

    let non_fungible_data: AccessKeyBadgeData = env.get_non_fungible_data(&admin1_access_key);
    assert!(
        non_fungible_data.permissions.unregister,
        "Unregister permission should now be true"
    );

    env.unregister(&admin1);

    let validator_info = &env.validator;

    assert!(
        !validator_info.is_registered,
        "Validator should not be registered after unregistering"
    );

    // now enable the register permission

    env.update_access_key_badge_permissions(
        &validator_owner,
        &admin1_access_key,
        "register",
        true,
    );

    let non_fungible_data: AccessKeyBadgeData = env.get_non_fungible_data(&admin1_access_key);
    assert!(
        non_fungible_data.permissions.register,
        "Register permission should now be true"
    );

    env.register(&admin1);

    let validator_info = &env.validator;

    assert!(
        validator_info.is_registered,
        "Validator should be registered after registering"
    );
}
