use clack_boundary::extensions::{partition_for, ExtensionRegistry, Partition, ThreadClass};
use clack_boundary::state::{state_call_result, StateError};

#[test]
fn declared_extension_is_found_and_others_are_absent() {
    let mut registry = ExtensionRegistry::new();
    assert!(registry.register(b"clap.log", ThreadClass::AnyThread, Partition::Shared, 1u32));
    assert!(registry.register(b"clap.timer-support", ThreadClass::MainThread, Partition::MainThread, 2u32));
    assert_eq!(registry.get(b"clap.log"), Some(&1));
    assert_eq!(registry.get(b"clap.timer-support"), Some(&2));
    assert_eq!(registry.get(b"clap.gui"), None);
    assert!(registry.supports(b"clap.log"));
    assert!(!registry.supports(b"clap.gui"));
}

#[test]
fn second_declaration_of_an_identifier_is_ignored() {
    let mut registry = ExtensionRegistry::new();
    assert!(registry.register(b"clap.params", ThreadClass::MainThread, Partition::MainThread, 10u32));
    assert!(!registry.register(b"clap.params", ThreadClass::MainThread, Partition::MainThread, 20u32));
    assert_eq!(registry.len(), 1);
    assert_eq!(registry.get(b"clap.params"), Some(&10));
}

#[test]
fn each_thread_class_has_its_partition() {
    assert_eq!(partition_for(ThreadClass::AnyThread), Partition::Shared);
    assert_eq!(partition_for(ThreadClass::MainThread), Partition::MainThread);
    assert_eq!(partition_for(ThreadClass::AudioThread), Partition::AudioProcessor);
}

#[test]
fn state_calls_succeed_only_when_the_plugin_says_so() {
    assert_eq!(state_call_result(false, Some(true)), Ok(()));
    assert_eq!(state_call_result(false, Some(false)), Err(StateError { saving: false }));
    assert_eq!(state_call_result(true, None), Err(StateError { saving: true }));
    assert_eq!(state_call_result(true, Some(true)), Ok(()));
}
