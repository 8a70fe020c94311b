use cjsh_plugin::abi::plugin_error_t;
use cjsh_plugin::dispatch::{package_args, Dispatcher};
use cjsh_plugin::ledger::{plugin_free_memory, AllocationLedger};
use cjsh_plugin::lifecycle::{step, HostError, LifecycleEvent, LifecycleState, PluginSlot};
use cjsh_plugin::plugin::{plugin_get_commands, plugin_get_subscribed_events, plugin_handle_command, PluginState};
use cjsh_plugin::registry::CallbackRegistry;

fn strings(v: &[&str]) -> Vec<String> {
    v.iter().map(|s| s.to_string()).collect()
}

#[test]
fn incompatible_version_is_never_initialized() {
    let mut slot = PluginSlot::new();
    assert_eq!(slot.apply(LifecycleEvent::Load { exports_complete: true }), Ok(()));
    assert_eq!(
        slot.apply(LifecycleEvent::QueryMetadata { interface_version: 99 }),
        Err(HostError::IncompatibleVersionError { reported: 99 })
    );
    assert_eq!(slot.state, LifecycleState::Unloaded);
    assert!(!slot.may_initialize());
    assert_eq!(slot.apply(LifecycleEvent::Initialize { status: 0 }), Err(HostError::OutOfOrder));
    assert_eq!(slot.state, LifecycleState::Unloaded);
}

#[test]
fn full_lifecycle() {
    let mut slot = PluginSlot::new();
    assert_eq!(slot.apply(LifecycleEvent::Load { exports_complete: true }), Ok(()));
    assert_eq!(slot.apply(LifecycleEvent::QueryMetadata { interface_version: 3 }), Ok(()));
    assert!(slot.may_initialize());
    assert_eq!(slot.apply(LifecycleEvent::Initialize { status: 0 }), Ok(()));
    assert!(!slot.accepts_calls());
    assert_eq!(slot.apply(LifecycleEvent::Activate), Ok(()));
    assert!(slot.accepts_calls());
    assert!(slot.may_shut_down());
    assert_eq!(slot.apply(LifecycleEvent::Shutdown), Ok(()));
    assert_eq!(slot.state, LifecycleState::ShuttingDown);
    assert_eq!(slot.apply(LifecycleEvent::Shutdown), Err(HostError::OutOfOrder));
    assert_eq!(slot.apply(LifecycleEvent::Unload), Ok(()));
    assert_eq!(slot.state, LifecycleState::Unloaded);
    assert_eq!(slot.apply(LifecycleEvent::Shutdown), Err(HostError::OutOfOrder));
}

#[test]
fn load_failures() {
    assert_eq!(
        step(LifecycleState::Unloaded, LifecycleEvent::Load { exports_complete: false }),
        (LifecycleState::Unloaded, Err(HostError::LoadError))
    );
    assert_eq!(
        step(LifecycleState::MetadataQueried, LifecycleEvent::Initialize { status: -1 }),
        (LifecycleState::Unloaded, Err(HostError::InitializeFailed { status: -1 }))
    );
    assert_eq!(
        step(LifecycleState::Loaded, LifecycleEvent::Activate),
        (LifecycleState::Loaded, Err(HostError::OutOfOrder))
    );
}

#[test]
fn load_then_unload_frees_nothing() {
    let mut slot = PluginSlot::new();
    let mut ledger = AllocationLedger::new();
    assert_eq!(slot.apply(LifecycleEvent::Load { exports_complete: true }), Ok(()));
    assert_eq!(slot.apply(LifecycleEvent::Unload), Ok(()));
    assert_eq!(slot.state, LifecycleState::Unloaded);
    assert_eq!(ledger.outstanding(), 0);
    // metadata strings are never handed out as releasable buffers
    assert!(!plugin_free_memory(&mut ledger, 0x4000));
    assert!(!plugin_free_memory(&mut ledger, 0));
    assert_eq!(ledger.outstanding(), 0);
}

#[test]
fn settings_buffer_released_exactly_once() {
    let mut ledger = AllocationLedger::new();
    ledger.record(0x1000);
    ledger.record(0x2000);
    ledger.record(0);
    assert_eq!(ledger.outstanding(), 2);
    assert!(plugin_free_memory(&mut ledger, 0x1000));
    assert_eq!(ledger.outstanding(), 1);
    assert!(!plugin_free_memory(&mut ledger, 0x1000));
    assert!(plugin_free_memory(&mut ledger, 0x2000));
    assert_eq!(ledger.outstanding(), 0);
}

#[test]
fn callback_registry_policy() {
    let mut reg: CallbackRegistry<u32> = CallbackRegistry::new();
    assert_eq!(reg.register(Some("CURRENT_TIME".to_string()), Some(1)), plugin_error_t::PLUGIN_SUCCESS);
    assert_eq!(reg.register(Some("CURRENT_TIME".to_string()), Some(2)), plugin_error_t::PLUGIN_ERROR_INVALID_ARGS);
    assert_eq!(reg.register(Some("X".to_string()), None), plugin_error_t::PLUGIN_ERROR_NULL_POINTER);
    assert_eq!(reg.register(None, Some(3)), plugin_error_t::PLUGIN_ERROR_NULL_POINTER);
    assert_eq!(reg.lookup(&"CURRENT_TIME".to_string()), Some(&1));
    assert_eq!(reg.lookup(&"X".to_string()), None);
}

#[test]
fn dispatch_routes_to_owner() {
    let mut d = Dispatcher::new();
    let (c, e) = d.declare_plugin(0, &plugin_get_commands(), &plugin_get_subscribed_events());
    assert!(c.is_empty());
    assert!(e.is_empty());
    let (c2, e2) = d.declare_plugin(1, &strings(&["hello", "other"]), &strings(&["plugin_enabled"]));
    assert_eq!(c2, strings(&["hello"]));
    assert_eq!(e2, strings(&["plugin_enabled"]));
    assert_eq!(d.route_command(&"hello".to_string()), Some(0));
    assert_eq!(d.route_command(&"other".to_string()), Some(1));
    assert_eq!(d.route_command(&"unknown".to_string()), None);
    assert_eq!(d.route_event(&"main_process_start".to_string()), Some(0));

    let args = package_args(&"echo".to_string(), &strings(&["a", "b"]));
    assert_eq!(args.args, strings(&["echo", "a", "b"]));
    assert_eq!(args.count, 3);
    assert_eq!(args.position, 0);
    let mut st = PluginState::new();
    let r = plugin_handle_command(&mut st, &args);
    assert_eq!(r.status(), 0);
}
