use soroban_sdk::testutils::{Address as _, EnvTestConfig};
use soroban_sdk::xdr::ScAddress;
use soroban_sdk::{Address, Env, IntoVal, TryFromVal, Val};
use stella_rep::contract::StellaRepContract;
use stella_rep::record::{clamp_score, stamped_record, ReputationData, MAX_SCORE};
use stella_rep::table::{or_empty, record_in, write_record};

fn plain_env() -> Env {
    Env::new_with_config(EnvTestConfig {
        capture_snapshot_at_drop: false,
    })
}

fn empty_table(env: &Env) -> soroban_sdk::Map<Address, Val> {
    soroban_sdk::Map::new(env)
}

fn pair_at(env: &Env, table: &soroban_sdk::Map<Address, Val>, who: &Address) -> Option<(u32, u64)> {
    table
        .get(who.clone())
        .map(|raw| <(u32, u64)>::try_from_val(env, &raw).unwrap())
}

#[test]
fn clamp_score_caps_at_the_limit() {
    assert_eq!(MAX_SCORE, 1000);
    assert_eq!(clamp_score(0), 0);
    assert_eq!(clamp_score(750), 750);
    assert_eq!(clamp_score(999), 999);
    assert_eq!(clamp_score(1000), 1000);
    assert_eq!(clamp_score(1001), 1000);
    assert_eq!(clamp_score(2000), 1000);
    assert_eq!(clamp_score(u32::MAX), 1000);
}

#[test]
fn stamped_record_holds_capped_score_and_time() {
    assert_eq!(
        stamped_record(750, 9),
        ReputationData { score: 750, timestamp: 9 }
    );
    assert_eq!(
        stamped_record(5000, u64::MAX),
        ReputationData { score: 1000, timestamp: u64::MAX }
    );
}

#[test]
fn or_empty_starts_without_entries() {
    let env = plain_env();
    let table = or_empty(&env, None);
    assert_eq!(table.len(), 0);
    assert!(table.is_empty());
}

#[test]
fn or_empty_keeps_what_was_persisted() {
    let env = plain_env();
    let user = Address::generate(&env);
    let mut persisted = empty_table(&env);
    persisted.set(user.clone(), (12u32, 34u64).into_val(&env));

    let table = or_empty(&env, Some(persisted));
    assert_eq!(table.len(), 1);
    assert_eq!(pair_at(&env, &table, &user), Some((12, 34)));
}

#[test]
fn write_record_installs_the_record() {
    let env = plain_env();
    let alice = Address::generate(&env);
    let bob = Address::generate(&env);
    let mut table = empty_table(&env);
    table.set(bob.clone(), (3u32, 1u64).into_val(&env));

    write_record(&mut table, &alice, 750, 77);
    assert_eq!(table.len(), 2);
    assert_eq!(pair_at(&env, &table, &alice), Some((750, 77)));
    assert_eq!(pair_at(&env, &table, &bob), Some((3, 1)));

    write_record(&mut table, &alice, 4000, 78);
    assert_eq!(table.len(), 2);
    assert_eq!(pair_at(&env, &table, &alice), Some((1000, 78)));
    assert_eq!(pair_at(&env, &table, &bob), Some((3, 1)));
}

#[test]
fn record_in_finds_the_record_of_the_identity() {
    let env = plain_env();
    let alice = Address::generate(&env);
    let bob = Address::generate(&env);
    let mut table = empty_table(&env);
    table.set(alice.clone(), (750u32, 60u64).into_val(&env));
    let slot = Some(table);

    assert_eq!(
        record_in(&slot, &alice),
        Some(ReputationData { score: 750, timestamp: 60 })
    );
    assert_eq!(record_in(&slot, &bob), None);
    assert_eq!(record_in(&None, &alice), None);
}

#[test]
fn equal_addresses_reach_the_same_record() {
    let env = plain_env();
    let alice = Address::generate(&env);
    let again = Address::from_string(&alice.to_string());
    let mut table = empty_table(&env);

    write_record(&mut table, &alice, 10, 1);
    write_record(&mut table, &again, 20, 2);
    assert_eq!(table.len(), 1);
    assert_eq!(
        record_in(&Some(table), &alice),
        Some(ReputationData { score: 20, timestamp: 2 })
    );
}

#[test]
fn address_of_another_environment_reaches_the_same_record() {
    let env = plain_env();
    let elsewhere = plain_env();
    let alice = Address::generate(&env);
    let bob = Address::generate(&env);
    for _ in 0..5 {
        Address::generate(&elsewhere);
    }
    let alice_elsewhere =
        Address::try_from_val(&elsewhere, &ScAddress::from(&alice)).unwrap();
    let bob_elsewhere = Address::try_from_val(&elsewhere, &ScAddress::from(&bob)).unwrap();

    let mut table = empty_table(&env);
    write_record(&mut table, &alice, 10, 1);
    write_record(&mut table, &bob_elsewhere, 30, 3);
    assert_eq!(table.len(), 2);
    assert_eq!(pair_at(&env, &table, &bob), Some((30, 3)));

    let slot = Some(table.clone());
    assert_eq!(
        record_in(&slot, &alice_elsewhere),
        Some(ReputationData { score: 10, timestamp: 1 })
    );
    assert_eq!(
        StellaRepContract::get_reputation_with_timestamp(&slot, &bob_elsewhere),
        Some((30, 3))
    );

    write_record(&mut table, &alice_elsewhere, 20, 2);
    assert_eq!(table.len(), 2);
    assert_eq!(pair_at(&env, &table, &alice), Some((20, 2)));
}

#[test]
fn entry_that_is_no_record_reads_as_absent() {
    let env = plain_env();
    let alice = Address::generate(&env);
    let bob = Address::generate(&env);
    let mut table = empty_table(&env);
    table.set(alice.clone(), 5u32.into_val(&env));

    let slot = Some(table.clone());
    assert_eq!(record_in(&slot, &alice), None);
    assert_eq!(StellaRepContract::get_reputation(&slot, &alice), 0);
    assert_eq!(StellaRepContract::get_reputation_with_timestamp(&slot, &alice), None);

    write_record(&mut table, &bob, 8, 3);
    let slot = Some(table.clone());
    assert_eq!(StellaRepContract::get_reputation_with_timestamp(&slot, &bob), Some((8, 3)));
    assert_eq!(StellaRepContract::get_reputation_with_timestamp(&slot, &alice), None);

    write_record(&mut table, &alice, 9, 4);
    let slot = Some(table);
    assert_eq!(StellaRepContract::get_reputation_with_timestamp(&slot, &alice), Some((9, 4)));
    assert_eq!(StellaRepContract::get_reputation_with_timestamp(&slot, &bob), Some((8, 3)));
}

#[test]
fn vector_of_another_length_reads_as_absent() {
    let env = plain_env();
    let one = Address::generate(&env);
    let three = Address::generate(&env);
    let none = Address::generate(&env);
    let mut table = empty_table(&env);
    table.set(one.clone(), (5u32,).into_val(&env));
    table.set(three.clone(), (5u32, 6u64, 7u32).into_val(&env));
    table.set(none.clone(), ().into_val(&env));

    let slot = Some(table);
    assert_eq!(record_in(&slot, &one), None);
    assert_eq!(record_in(&slot, &three), None);
    assert_eq!(record_in(&slot, &none), None);
    assert_eq!(StellaRepContract::get_reputation(&slot, &three), 0);
}

#[test]
fn pair_of_other_types_reads_as_absent() {
    let env = plain_env();
    let swapped = Address::generate(&env);
    let signed = Address::generate(&env);
    let mut table = empty_table(&env);
    table.set(swapped.clone(), (6u64, 5u32).into_val(&env));
    table.set(signed.clone(), (5i32, 6u64).into_val(&env));

    let slot = Some(table);
    assert_eq!(record_in(&slot, &swapped), None);
    assert_eq!(record_in(&slot, &signed), None);
}
