use ic_canister_stable_storage::agent_impl::{AgentImplType, MAX_ERROR_RETRIES};
use ic_canister_stable_storage::canister_init_arguments::ControllerType;
use ic_canister_stable_storage::dscvr_canister_context::UpdateContext;
use ic_canister_stable_storage::dscvr_canister_exports::{register, CanisterDefinition};
use ic_canister_stable_storage::dscvr_interface::{Interface, UnitTest};
use ic_canister_stable_storage::scoped_instruction_counter::ScopedInstructionCounter;
use ic_canister_stable_storage::text::{decimal, digit_char, push_decimal, str_equal};

fn double(args: &[u8]) -> Vec<u8> {
    args.iter().map(|b| b * 2).collect()
}

fn reverse(args: &[u8]) -> Vec<u8> {
    args.iter().rev().copied().collect()
}

#[test]
fn numbers_in_decimal() {
    assert_eq!(decimal(0), "0");
    assert_eq!(decimal(9), "9");
    assert_eq!(decimal(10), "10");
    assert_eq!(decimal(1090), "1090");
    assert_eq!(decimal(u64::MAX), "18446744073709551615");
    let mut text = "n=".to_string();
    push_decimal(&mut text, 407);
    assert_eq!(text, "n=407");
    assert_eq!(digit_char(7), '7');
    assert!(str_equal("a", "a"));
    assert!(!str_equal("a", "b"));
    assert!(!str_equal("a", "ab"));
}

#[test]
fn kinds_of_agents_and_controllers() {
    assert_eq!(MAX_ERROR_RETRIES, 3);
    assert_ne!(AgentImplType::Default, AgentImplType::StateMachine);
    assert_eq!(ControllerType::Backup, ControllerType::Backup);
    assert_ne!(ControllerType::Backup, ControllerType::Restore);
}

#[test]
fn the_context_of_an_update() {
    assert!(UpdateContext::Primary.is_primary());
    assert!(!UpdateContext::Secondary.is_primary());
    let response = [1u8, 2];
    let validated = UpdateContext::SecondaryWithValidation(&response);
    assert!(!validated.is_primary());
    assert_eq!(validated.expected_response(), Some(&response[..]));
    assert_eq!(UpdateContext::Primary.expected_response(), None);
    assert_eq!(UpdateContext::Secondary.expected_response(), None);
}

#[test]
fn methods_are_registered_by_name() {
    type Method = fn(&[u8]) -> Vec<u8>;
    let updates: [(&'static str, Method); 3] = [("a", double), ("b", double), ("a", reverse)];
    let queries: [(&'static str, Method); 1] = [("q", reverse)];
    let init: [(&'static str, u8); 2] = [("init", 1), ("other", 2)];
    let post: [(&'static str, u16); 1] = [("post", 10)];
    let pre: [(&'static str, u16); 2] = [("pre", 20), ("other", 30)];
    let definition = CanisterDefinition::new(&updates, &queries, &init, &post, &pre, true);
    assert_eq!(definition.update_methods.len(), 2);
    assert_eq!(definition.update_methods.key_at(0), "a");
    // a later registration takes the place of an earlier one
    assert_eq!((definition.update_methods.get("a").unwrap())(&[1, 2]), vec![2, 1]);
    assert_eq!((definition.update_methods.get("b").unwrap())(&[1, 2]), vec![2, 4]);
    assert_eq!((definition.query_methods.get("q").unwrap())(&[1, 2]), vec![2, 1]);
    assert!(definition.query_methods.get("a").is_none());
    assert_eq!(definition.init_method, 1);
    assert_eq!(definition.post_upgrade, 10);
    assert_eq!(definition.pre_upgrade, 20);
    assert!(definition.primary);
    assert_eq!(register::<u8>(&[]).len(), 0);
}

#[test]
fn instructions_are_counted_from_the_start() {
    let counter = ScopedInstructionCounter::started_at("work", 100);
    assert_eq!(counter.instructions_until(250), 150);
    assert_eq!(counter.instructions_until(100), 0);
    assert_eq!(counter.instructions_until(99), 0);
    let counter = ScopedInstructionCounter::new("idle", &UnitTest);
    assert_eq!(counter.instructions_until(UnitTest.instruction_counter()), 0);
    assert_eq!(counter.finish(&UnitTest), ("idle".to_string(), 0));
}
