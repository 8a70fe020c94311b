//! The host's lifecycle of one loaded plugin:
//! Unloaded, Loaded, MetadataQueried, Initialized, Active, ShuttingDown, and
//! back to Unloaded. Each host step is an event; an event that the current
//! state does not admit is refused and changes nothing.
use vstd::prelude::*;
use crate::abi::PLUGIN_INTERFACE_VERSION;

verus! {

/// Where a plugin stands.
#[derive(Clone, Copy, Debug, PartialEq, Eq, Structural)]
pub enum LifecycleState {
    Unloaded,
    Loaded,
    MetadataQueried,
    Initialized,
    Active,
    ShuttingDown,
}

/// A step of the host, with what the plugin answered where it answered.
#[derive(Clone, Copy, Debug, PartialEq, Eq, Structural)]
pub enum LifecycleEvent {
    /// The library was opened; whether every mandatory export was found.
    Load { exports_complete: bool },
    /// The metadata accessor was called; the interface version it reported.
    QueryMetadata { interface_version: i32 },
    /// `initialize` was called; the status it returned.
    Initialize { status: i32 },
    /// The plugin enters steady state.
    Activate,
    /// `shutdown` was called.
    Shutdown,
    /// The library handle was released.
    Unload,
}

/// Why a step failed.
#[derive(Clone, Copy, Debug, PartialEq, Eq, Structural)]
pub enum HostError {
    /// A mandatory export is missing.
    LoadError,
    /// The plugin speaks another interface version.
    IncompatibleVersionError { reported: i32 },
    /// `initialize` returned a failure status.
    InitializeFailed { status: i32 },
    /// The event is not admitted in the current state.
    OutOfOrder,
}

/// The state after `e` in state `s`, and whether the step succeeded.
pub open spec fn transition(s: LifecycleState, e: LifecycleEvent) -> (LifecycleState, Result<(), HostError>) {
    match (s, e) {
        (LifecycleState::Unloaded, LifecycleEvent::Load { exports_complete }) => if exports_complete {
            (LifecycleState::Loaded, Ok(()))
        } else {
            (LifecycleState::Unloaded, Err(HostError::LoadError))
        },
        (LifecycleState::Loaded, LifecycleEvent::QueryMetadata { interface_version }) => if interface_version
            == PLUGIN_INTERFACE_VERSION {
            (LifecycleState::MetadataQueried, Ok(()))
        } else {
            (LifecycleState::Unloaded, Err(HostError::IncompatibleVersionError { reported: interface_version }))
        },
        (LifecycleState::MetadataQueried, LifecycleEvent::Initialize { status }) => if status == 0 {
            (LifecycleState::Initialized, Ok(()))
        } else {
            (LifecycleState::Unloaded, Err(HostError::InitializeFailed { status }))
        },
        (LifecycleState::Initialized, LifecycleEvent::Activate) => (LifecycleState::Active, Ok(())),
        (LifecycleState::Initialized, LifecycleEvent::Shutdown) => (LifecycleState::ShuttingDown, Ok(())),
        (LifecycleState::Active, LifecycleEvent::Shutdown) => (LifecycleState::ShuttingDown, Ok(())),
        (LifecycleState::Loaded, LifecycleEvent::Unload) => (LifecycleState::Unloaded, Ok(())),
        (LifecycleState::MetadataQueried, LifecycleEvent::Unload) => (LifecycleState::Unloaded, Ok(())),
        (LifecycleState::ShuttingDown, LifecycleEvent::Unload) => (LifecycleState::Unloaded, Ok(())),
        _ => (s, Err(HostError::OutOfOrder)),
    }
}

/// Whether the step `e` in state `s` calls the plugin's `initialize`.
pub open spec fn invokes_initialize(s: LifecycleState, e: LifecycleEvent) -> bool {
    s == LifecycleState::MetadataQueried && e is Initialize
}

/// Whether the step `e` in state `s` calls the plugin's `shutdown`.
pub open spec fn invokes_shutdown(s: LifecycleState, e: LifecycleEvent) -> bool {
    transition(s, e).1 is Ok && e is Shutdown
}

/// Whether the plugin has been initialized and not yet shut down.
pub open spec fn is_running(s: LifecycleState) -> bool {
    s == LifecycleState::Initialized || s == LifecycleState::Active
}

/// The state after the events `es` in turn, from `s`.
pub open spec fn run(s: LifecycleState, es: Seq<LifecycleEvent>) -> LifecycleState
    decreases es.len(),
{
    if es.len() == 0 {
        s
    } else {
        transition(run(s, es.drop_last()), es.last()).0
    }
}

/// How many of the events `es`, from `s`, initialized the plugin successfully.
pub open spec fn initializations(s: LifecycleState, es: Seq<LifecycleEvent>) -> nat
    decreases es.len(),
{
    if es.len() == 0 {
        0
    } else {
        let before = run(s, es.drop_last());
        initializations(s, es.drop_last()) + if invokes_initialize(before, es.last()) && transition(
            before,
            es.last(),
        ).1 is Ok {
            1nat
        } else {
            0nat
        }
    }
}

/// How many of the events `es`, from `s`, called the plugin's `shutdown`.
pub open spec fn shutdowns(s: LifecycleState, es: Seq<LifecycleEvent>) -> nat
    decreases es.len(),
{
    if es.len() == 0 {
        0
    } else {
        shutdowns(s, es.drop_last()) + if invokes_shutdown(run(s, es.drop_last()), es.last()) {
            1nat
        } else {
            0nat
        }
    }
}

/// One plugin as the host tracks it.
pub struct PluginSlot {
    pub state: LifecycleState,
}

impl PluginSlot {
    /// A slot with nothing loaded.
    pub fn new() -> (r: PluginSlot)
        ensures
            r.state == LifecycleState::Unloaded,
    {
        PluginSlot { state: LifecycleState::Unloaded }
    }

    /// Takes the step `e`.
    pub fn apply(&mut self, e: LifecycleEvent) -> (r: Result<(), HostError>)
        ensures
            (final(self).state, r) == transition(old(self).state, e),
    {
        let (next, r) = step(self.state, e);
        self.state = next;
        r
    }

    /// Whether the host may call `initialize` now.
    pub fn may_initialize(&self) -> (r: bool)
        ensures
            r == (self.state == LifecycleState::MetadataQueried),
    {
        self.state == LifecycleState::MetadataQueried
    }

    /// Whether the host may call `shutdown` now.
    pub fn may_shut_down(&self) -> (r: bool)
        ensures
            r == is_running(self.state),
    {
        self.state == LifecycleState::Initialized || self.state == LifecycleState::Active
    }

    /// Whether commands, events and setting updates may be delivered now.
    pub fn accepts_calls(&self) -> (r: bool)
        ensures
            r == (self.state == LifecycleState::Active),
    {
        self.state == LifecycleState::Active
    }
}

/// The state after `e` in state `s`, and whether the step succeeded.
pub fn step(s: LifecycleState, e: LifecycleEvent) -> (r: (LifecycleState, Result<(), HostError>))
    ensures
        r == transition(s, e),
{
    match (s, e) {
        (LifecycleState::Unloaded, LifecycleEvent::Load { exports_complete }) => if exports_complete {
            (LifecycleState::Loaded, Ok(()))
        } else {
            (LifecycleState::Unloaded, Err(HostError::LoadError))
        },
        (LifecycleState::Loaded, LifecycleEvent::QueryMetadata { interface_version }) => if interface_version
            == PLUGIN_INTERFACE_VERSION {
            (LifecycleState::MetadataQueried, Ok(()))
        } else {
            (LifecycleState::Unloaded, Err(HostError::IncompatibleVersionError { reported: interface_version }))
        },
        (LifecycleState::MetadataQueried, LifecycleEvent::Initialize { status }) => if status == 0 {
            (LifecycleState::Initialized, Ok(()))
        } else {
            (LifecycleState::Unloaded, Err(HostError::InitializeFailed { status }))
        },
        (LifecycleState::Initialized, LifecycleEvent::Activate) => (LifecycleState::Active, Ok(())),
        (LifecycleState::Initialized, LifecycleEvent::Shutdown) => (LifecycleState::ShuttingDown, Ok(())),
        (LifecycleState::Active, LifecycleEvent::Shutdown) => (LifecycleState::ShuttingDown, Ok(())),
        (LifecycleState::Loaded, LifecycleEvent::Unload) => (LifecycleState::Unloaded, Ok(())),
        (LifecycleState::MetadataQueried, LifecycleEvent::Unload) => (LifecycleState::Unloaded, Ok(())),
        (LifecycleState::ShuttingDown, LifecycleEvent::Unload) => (LifecycleState::Unloaded, Ok(())),
        _ => (s, Err(HostError::OutOfOrder)),
    }
}

/// Loading a plugin and unloading it straight away succeeds and calls no
/// other entry point: neither `initialize` nor `shutdown` runs.
pub proof fn lemma_load_then_unload()
    ensures
        ({
            let es = seq![LifecycleEvent::Load { exports_complete: true }, LifecycleEvent::Unload];
            &&& run(LifecycleState::Unloaded, es) == LifecycleState::Unloaded
            &&& transition(LifecycleState::Unloaded, es[0]).1 is Ok
            &&& transition(LifecycleState::Loaded, es[1]).1 is Ok
            &&& initializations(LifecycleState::Unloaded, es) == 0
            &&& shutdowns(LifecycleState::Unloaded, es) == 0
        }),
{
    let es = seq![LifecycleEvent::Load { exports_complete: true }, LifecycleEvent::Unload];
    assert(es.drop_last().drop_last() =~= Seq::<LifecycleEvent>::empty());
    assert(es.drop_last() =~= seq![LifecycleEvent::Load { exports_complete: true }]);
    let e1 = es.drop_last();
    assert(run(LifecycleState::Unloaded, e1.drop_last()) == LifecycleState::Unloaded);
    assert(initializations(LifecycleState::Unloaded, e1.drop_last()) == 0);
    assert(shutdowns(LifecycleState::Unloaded, e1.drop_last()) == 0);
    assert(run(LifecycleState::Unloaded, e1) == LifecycleState::Loaded);
    assert(initializations(LifecycleState::Unloaded, e1) == 0);
    assert(shutdowns(LifecycleState::Unloaded, e1) == 0);
}

/// Over any run, each call of `shutdown` pairs with one earlier successful
/// initialization: shutdowns so far, plus one while the plugin is running,
/// equal successful initializations so far, plus one if it was running at
/// the start.
pub proof fn lemma_shutdown_balance(s: LifecycleState, es: Seq<LifecycleEvent>)
    ensures
        shutdowns(s, es) + (if is_running(run(s, es)) { 1nat } else { 0nat })
            == initializations(s, es) + (if is_running(s) { 1nat } else { 0nat }),
    decreases es.len(),
{
    if es.len() > 0 {
        lemma_shutdown_balance(s, es.drop_last());
    }
}

/// From a plugin that is not loaded, `shutdown` is called at most as often
/// as `initialize` succeeded: never twice for one load.
pub proof fn lemma_shutdown_at_most_once_per_load(es: Seq<LifecycleEvent>)
    ensures
        shutdowns(LifecycleState::Unloaded, es) <= initializations(LifecycleState::Unloaded, es),
{
    lemma_shutdown_balance(LifecycleState::Unloaded, es);
}

/// Once `shutdown` has been called, a second `shutdown` is refused and does
/// not call the plugin.
pub proof fn lemma_second_shutdown_refused(s: LifecycleState)
    requires
        transition(s, LifecycleEvent::Shutdown).1 is Ok,
    ensures
        transition(s, LifecycleEvent::Shutdown).0 == LifecycleState::ShuttingDown,
        !invokes_shutdown(transition(s, LifecycleEvent::Shutdown).0, LifecycleEvent::Shutdown),
        !invokes_shutdown(LifecycleState::Unloaded, LifecycleEvent::Shutdown),
{
}

/// A plugin that reports an interface version other than the host's never
/// gets past the metadata query: the host unloads it with
/// `IncompatibleVersionError`, and no later step calls `initialize` until
/// the plugin is loaded anew.
pub proof fn lemma_incompatible_version(v: i32, es: Seq<LifecycleEvent>)
    requires
        v != PLUGIN_INTERFACE_VERSION,
        forall|i: int| 0 <= i < es.len() ==> !(es[i] is Load),
    ensures
        transition(LifecycleState::Loaded, LifecycleEvent::QueryMetadata { interface_version: v })
            == (LifecycleState::Unloaded, Err::<(), HostError>(HostError::IncompatibleVersionError { reported: v })),
        run(LifecycleState::Unloaded, es) == LifecycleState::Unloaded,
        initializations(LifecycleState::Unloaded, es) == 0,
        forall|i: int| 0 <= i < es.len() ==> !invokes_initialize(
            run(LifecycleState::Unloaded, es.subrange(0, i)),
            #[trigger] es[i],
        ),
    decreases es.len(),
{
    if es.len() > 0 {
        let p = es.drop_last();
        assert forall|i: int| 0 <= i < p.len() implies !(p[i] is Load) by {
            assert(p[i] == es[i]);
        }
        lemma_incompatible_version(v, p);
        assert forall|i: int| 0 <= i < es.len() implies !invokes_initialize(
            run(LifecycleState::Unloaded, es.subrange(0, i)),
            #[trigger] es[i],
        ) by {
            if i < p.len() {
                assert(es.subrange(0, i) =~= p.subrange(0, i));
                assert(p[i] == es[i]);
            } else {
                assert(es.subrange(0, i) =~= p);
            }
        }
    }
}

} // verus!
