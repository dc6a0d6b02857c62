use smoke_contract::{Address, AuthContext, Env, InstanceStorage, SmokeContract, SmokeError};

fn user(tag: &str) -> Address {
    Address::from_bytes(tag.as_bytes().to_vec())
}

#[test]
fn roundtrip() {
    let mut env = Env::new();
    let user = user("GUSERAAAAAAAAAAAAAAAAAAAAAAAAAAAAAAAAAAAAAAAAAAAAAAAAAAA");

    assert_eq!(SmokeContract::no_auth_bump(1), 2);

    // read before write returns default 0
    assert_eq!(SmokeContract::read_value(&env, &user), 0);

    // write with address auth
    env.authorize(&user, &user, 7);
    assert_eq!(SmokeContract::write_with_address_auth(&mut env, &user, 7), Ok(()));
    assert_eq!(SmokeContract::read_value(&env, &user), 7);
}

#[test]
fn bump_adds_one_below_max() {
    assert_eq!(SmokeContract::no_auth_bump(0), 1);
    assert_eq!(SmokeContract::no_auth_bump(41), 42);
    assert_eq!(SmokeContract::no_auth_bump(u32::MAX - 1), u32::MAX);
}

#[test]
fn bump_saturates_at_max() {
    assert_eq!(SmokeContract::no_auth_bump(u32::MAX), u32::MAX);
}

#[test]
fn read_without_write_is_zero() {
    let env = Env::new();
    assert_eq!(SmokeContract::read_value(&env, &user("a")), 0);
    assert_eq!(SmokeContract::read_value(&env, &user("")), 0);
}

#[test]
fn write_then_read_round_trips() {
    let mut env = Env::new();
    let a = user("alice");
    env.authorize(&a, &a, u32::MAX);
    assert_eq!(SmokeContract::write_with_address_auth(&mut env, &a, u32::MAX), Ok(()));
    assert_eq!(SmokeContract::read_value(&env, &a), u32::MAX);
}

#[test]
fn later_write_wins() {
    let mut env = Env::new();
    let a = user("alice");
    env.authorize(&a, &a, 3);
    env.authorize(&a, &a, 9);
    assert_eq!(SmokeContract::write_with_address_auth(&mut env, &a, 3), Ok(()));
    assert_eq!(SmokeContract::write_with_address_auth(&mut env, &a, 9), Ok(()));
    assert_eq!(SmokeContract::read_value(&env, &a), 9);
}

#[test]
fn unauthorized_write_has_no_effect() {
    let mut env = Env::new();
    let a = user("alice");
    env.authorize(&a, &a, 4);
    assert_eq!(SmokeContract::write_with_address_auth(&mut env, &a, 4), Ok(()));
    // a grant for other arguments does not cover this call
    assert_eq!(
        SmokeContract::write_with_address_auth(&mut env, &a, 5),
        Err(SmokeError::AuthorizationError)
    );
    assert_eq!(SmokeContract::read_value(&env, &a), 4);
}

#[test]
fn scenario_authorized_user_writes() {
    let mut env = Env::new();
    let user_a = user("userA");
    assert_eq!(SmokeContract::no_auth_bump(1), 2);
    assert_eq!(SmokeContract::read_value(&env, &user_a), 0);
    env.authorize(&user_a, &user_a, 7);
    assert_eq!(SmokeContract::write_with_address_auth(&mut env, &user_a, 7), Ok(()));
    assert_eq!(SmokeContract::read_value(&env, &user_a), 7);
}

#[test]
fn scenario_unauthorized_user_rejected() {
    let mut env = Env::new();
    let user_b = user("userB");
    assert_eq!(
        SmokeContract::write_with_address_auth(&mut env, &user_b, 5),
        Err(SmokeError::AuthorizationError)
    );
    assert_eq!(SmokeContract::read_value(&env, &user_b), 0);
}

#[test]
fn grant_signed_by_another_identity_is_rejected() {
    let mut env = Env::new();
    let a = user("alice");
    let b = user("bob");
    env.authorize(&a, &b, 5);
    assert_eq!(
        SmokeContract::write_with_address_auth(&mut env, &b, 5),
        Err(SmokeError::AuthorizationError)
    );
    assert_eq!(SmokeContract::read_value(&env, &b), 0);
}

#[test]
fn writes_are_kept_per_identity() {
    let mut env = Env::new();
    let a = user("alice");
    let b = user("alicf");
    let c = user("alic");
    env.authorize(&a, &a, 1);
    env.authorize(&b, &b, 2);
    assert_eq!(SmokeContract::write_with_address_auth(&mut env, &a, 1), Ok(()));
    assert_eq!(SmokeContract::write_with_address_auth(&mut env, &b, 2), Ok(()));
    assert_eq!(SmokeContract::read_value(&env, &a), 1);
    assert_eq!(SmokeContract::read_value(&env, &b), 2);
    assert_eq!(SmokeContract::read_value(&env, &c), 0);
}

#[test]
fn storage_get_and_set() {
    let mut s = InstanceStorage::new();
    let a = user("k");
    assert_eq!(s.get(&a), None);
    s.set(&a, 10);
    assert_eq!(s.get(&a), Some(10));
    s.set(&a, 11);
    assert_eq!(s.get(&a), Some(11));
    assert_eq!(s.get(&user("j")), None);
}

#[test]
fn auth_context_checks_exact_arguments() {
    let mut ctx = AuthContext::new();
    let a = user("a");
    let b = user("b");
    assert_eq!(ctx.require_auth_for_args(&a, &a, 1), Err(SmokeError::AuthorizationError));
    ctx.grant(&a, &a, 1);
    assert_eq!(ctx.require_auth_for_args(&a, &a, 1), Ok(()));
    assert_eq!(ctx.require_auth_for_args(&a, &a, 2), Err(SmokeError::AuthorizationError));
    assert_eq!(ctx.require_auth_for_args(&b, &a, 1), Err(SmokeError::AuthorizationError));
    assert_eq!(ctx.require_auth_for_args(&a, &b, 1), Err(SmokeError::AuthorizationError));
}

#[test]
fn address_identity_follows_bytes() {
    let a = user("same");
    assert!(a.same_as(&user("same")));
    assert!(a.same_as(&a.duplicate()));
    assert!(!a.same_as(&user("samf")));
    assert!(!a.same_as(&user("sam")));
}

#[test]
fn env_over_existing_storage() {
    let a = user("alice");
    let mut s = InstanceStorage::new();
    s.set(&a, 21);
    let mut env = Env::with_storage(s);
    assert_eq!(SmokeContract::read_value(&env, &a), 21);
    env.authorize(&a, &a, 22);
    assert_eq!(SmokeContract::write_with_address_auth(&mut env, &a, 22), Ok(()));
    assert_eq!(env.storage().get(&a), Some(22));
}
