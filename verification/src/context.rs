use vstd::prelude::*;

use crate::error::BootstrapError;

verus! {

/// The lifecycle of the bootstrap owner: initialization either runs to
/// `Ready` or fails straight to `Destroyed` after cleanup; `Destroyed` is
/// terminal.
#[derive(Clone, Copy, Debug, PartialEq, Eq, Structural)]
pub enum ContextState {
    Uninitialized,
    Initializing,
    Ready,
    Destroyed,
}

/// The resources the bootstrap acquires, named in acquisition order.
#[derive(Clone, Copy, Debug, PartialEq, Eq, Structural)]
pub enum ResourceKind {
    Entry,
    Window,
    Instance,
    DiagnosticsSubscription,
    Surface,
    LogicalDevice,
}

/// The mathematical model of a `Context`: its lifecycle state, the
/// acquisition ledger in order, the handle each slot holds, and the device
/// selection.
#[verifier::ext_equal]
pub ghost struct ContextModel {
    pub state: ContextState,
    pub diagnostics_enabled: bool,
    pub ledger: Seq<ResourceKind>,
    pub entry: Option<u64>,
    pub window: Option<u64>,
    pub instance: Option<u64>,
    pub diagnostics: Option<u64>,
    pub surface: Option<u64>,
    pub device: Option<u64>,
    pub queue: Option<u64>,
    pub device_index: Option<usize>,
    pub queue_family_index: Option<u32>,
}

/// The canonical acquisition order; the diagnostics subscription appears
/// exactly when diagnostics are enabled.
pub open spec fn creation_order(diagnostics_enabled: bool) -> Seq<ResourceKind> {
    if diagnostics_enabled {
        seq![
            ResourceKind::Entry,
            ResourceKind::Window,
            ResourceKind::Instance,
            ResourceKind::DiagnosticsSubscription,
            ResourceKind::Surface,
            ResourceKind::LogicalDevice,
        ]
    } else {
        seq![
            ResourceKind::Entry,
            ResourceKind::Window,
            ResourceKind::Instance,
            ResourceKind::Surface,
            ResourceKind::LogicalDevice,
        ]
    }
}

/// Position of the surface in the acquisition order.
pub open spec fn surface_position(diagnostics_enabled: bool) -> int {
    if diagnostics_enabled {
        4
    } else {
        3
    }
}

/// The release plan of a context: its acquisition ledger, reversed.
pub open spec fn teardown_plan(m: ContextModel) -> Seq<ResourceKind> {
    m.ledger.reverse()
}

/// What a context looks like after teardown: terminal state, nothing held,
/// only the diagnostics policy remembered.
pub open spec fn shut_down_model(m: ContextModel) -> ContextModel {
    ContextModel {
        state: ContextState::Destroyed,
        diagnostics_enabled: m.diagnostics_enabled,
        ledger: Seq::empty(),
        entry: None,
        window: None,
        instance: None,
        diagnostics: None,
        surface: None,
        device: None,
        queue: None,
        device_index: None,
        queue_family_index: None,
    }
}

/// The context invariant: the ledger is always a prefix of the canonical
/// acquisition order, each handle is held exactly when its slot of the order
/// has been reached, the selection sits between surface and device, the
/// queue exists exactly in the ready state, and the terminal and initial
/// states hold nothing.
pub open spec fn wf(m: ContextModel) -> bool {
    let order = creation_order(m.diagnostics_enabled);
    &&& m.ledger.len() <= order.len()
    &&& m.ledger == order.take(m.ledger.len() as int)
    &&& (m.entry is Some <==> m.ledger.len() >= 1)
    &&& (m.window is Some <==> m.ledger.len() >= 2)
    &&& (m.instance is Some <==> m.ledger.len() >= 3)
    &&& (m.diagnostics is Some <==> m.diagnostics_enabled && m.ledger.len() >= 4)
    &&& (m.surface is Some <==> m.ledger.len() >= surface_position(m.diagnostics_enabled) + 1)
    &&& (m.device is Some <==> m.ledger.len() == order.len())
    &&& (m.device_index is Some <==> m.queue_family_index is Some)
    &&& (m.queue_family_index is Some ==> m.surface is Some)
    &&& (m.device is Some ==> m.queue_family_index is Some)
    &&& (m.queue is Some <==> m.state == ContextState::Ready)
    &&& (m.state == ContextState::Ready ==> m.device is Some)
    &&& (m.state == ContextState::Uninitialized || m.state == ContextState::Destroyed
        ==> m.ledger.len() == 0 && m.device_index is None && m.queue_family_index is None)
}

/// The owner of the whole bootstrap chain. It records every successful
/// acquisition in order, hands out handles only while ready, and always
/// releases in exactly the reverse of the acquisition order — on explicit
/// shutdown as well as on every early-failure path.
pub struct Context {
    state: ContextState,
    diagnostics_enabled: bool,
    ledger: Vec<ResourceKind>,
    entry: Option<u64>,
    window: Option<u64>,
    instance: Option<u64>,
    diagnostics: Option<u64>,
    surface: Option<u64>,
    device: Option<u64>,
    queue: Option<u64>,
    device_index: Option<usize>,
    queue_family_index: Option<u32>,
}

impl View for Context {
    type V = ContextModel;

    closed spec fn view(&self) -> ContextModel {
        ContextModel {
            state: self.state,
            diagnostics_enabled: self.diagnostics_enabled,
            ledger: self.ledger@,
            entry: self.entry,
            window: self.window,
            instance: self.instance,
            diagnostics: self.diagnostics,
            surface: self.surface,
            device: self.device,
            queue: self.queue,
            device_index: self.device_index,
            queue_family_index: self.queue_family_index,
        }
    }
}

impl Context {
    /// A context that has acquired nothing yet.
    pub fn new(enable_diagnostics: bool) -> (context: Context)
        ensures
            wf(context@),
            context@.state == ContextState::Uninitialized,
            context@.diagnostics_enabled == enable_diagnostics,
            context@.ledger == Seq::<ResourceKind>::empty(),
    {
        let context = Context {
            state: ContextState::Uninitialized,
            diagnostics_enabled: enable_diagnostics,
            ledger: Vec::new(),
            entry: None,
            window: None,
            instance: None,
            diagnostics: None,
            surface: None,
            device: None,
            queue: None,
            device_index: None,
            queue_family_index: None,
        };
        proof {
            assert(context@.ledger =~= creation_order(enable_diagnostics).take(0));
        }
        context
    }

    /// Starts the linear initialization sequence.
    pub fn begin_initialization(&mut self)
        requires
            wf(old(self)@),
            old(self)@.state == ContextState::Uninitialized,
        ensures
            wf(final(self)@),
            final(self)@ == (ContextModel { state: ContextState::Initializing, ..old(self)@ }),
    {
        self.state = ContextState::Initializing;
    }

    /// The driver connection was loaded; the first acquisition.
    pub fn record_entry(&mut self, handle: u64)
        requires
            wf(old(self)@),
            old(self)@.state == ContextState::Initializing,
            old(self)@.ledger.len() == 0,
        ensures
            wf(final(self)@),
            final(self)@ == (ContextModel {
                ledger: old(self)@.ledger.push(ResourceKind::Entry),
                entry: Some(handle),
                ..old(self)@
            }),
    {
        self.ledger.push(ResourceKind::Entry);
        self.entry = Some(handle);
        proof {
            let order = creation_order(self@.diagnostics_enabled);
            assert(self@.ledger =~= order.take(1));
        }
    }

    /// The window was created by the windowing collaborator.
    pub fn record_window(&mut self, handle: u64)
        requires
            wf(old(self)@),
            old(self)@.state == ContextState::Initializing,
            old(self)@.ledger.len() == 1,
        ensures
            wf(final(self)@),
            final(self)@ == (ContextModel {
                ledger: old(self)@.ledger.push(ResourceKind::Window),
                window: Some(handle),
                ..old(self)@
            }),
    {
        self.ledger.push(ResourceKind::Window);
        self.window = Some(handle);
        proof {
            let order = creation_order(self@.diagnostics_enabled);
            assert(self@.ledger =~= order.take(2));
        }
    }

    /// The driver accepted instance creation.
    pub fn record_instance(&mut self, handle: u64)
        requires
            wf(old(self)@),
            old(self)@.state == ContextState::Initializing,
            old(self)@.ledger.len() == 2,
        ensures
            wf(final(self)@),
            final(self)@ == (ContextModel {
                ledger: old(self)@.ledger.push(ResourceKind::Instance),
                instance: Some(handle),
                ..old(self)@
            }),
    {
        self.ledger.push(ResourceKind::Instance);
        self.instance = Some(handle);
        proof {
            let order = creation_order(self@.diagnostics_enabled);
            assert(self@.ledger =~= order.take(3));
        }
    }

    /// The debug-message subscription was attached; only part of the
    /// sequence when diagnostics are enabled.
    pub fn record_diagnostics_subscription(&mut self, handle: u64)
        requires
            wf(old(self)@),
            old(self)@.state == ContextState::Initializing,
            old(self)@.diagnostics_enabled,
            old(self)@.ledger.len() == 3,
        ensures
            wf(final(self)@),
            final(self)@ == (ContextModel {
                ledger: old(self)@.ledger.push(ResourceKind::DiagnosticsSubscription),
                diagnostics: Some(handle),
                ..old(self)@
            }),
    {
        self.ledger.push(ResourceKind::DiagnosticsSubscription);
        self.diagnostics = Some(handle);
        proof {
            let order = creation_order(self@.diagnostics_enabled);
            assert(self@.ledger =~= order.take(4));
        }
    }

    /// The surface was bound to the window.
    pub fn record_surface(&mut self, handle: u64)
        requires
            wf(old(self)@),
            old(self)@.state == ContextState::Initializing,
            old(self)@.ledger.len() == surface_position(old(self)@.diagnostics_enabled),
        ensures
            wf(final(self)@),
            final(self)@ == (ContextModel {
                ledger: old(self)@.ledger.push(ResourceKind::Surface),
                surface: Some(handle),
                ..old(self)@
            }),
    {
        self.ledger.push(ResourceKind::Surface);
        self.surface = Some(handle);
        proof {
            let order = creation_order(self@.diagnostics_enabled);
            assert(self@.ledger =~= order.take(surface_position(self@.diagnostics_enabled) + 1));
        }
    }

    /// The selection policy chose a physical device and a queue family.
    pub fn record_selection(&mut self, device_index: usize, queue_family_index: u32)
        requires
            wf(old(self)@),
            old(self)@.state == ContextState::Initializing,
            old(self)@.ledger.len() == surface_position(old(self)@.diagnostics_enabled) + 1,
        ensures
            wf(final(self)@),
            final(self)@ == (ContextModel {
                device_index: Some(device_index),
                queue_family_index: Some(queue_family_index),
                ..old(self)@
            }),
    {
        self.device_index = Some(device_index);
        self.queue_family_index = Some(queue_family_index);
    }

    /// The driver accepted logical-device creation; the last acquisition.
    pub fn record_logical_device(&mut self, handle: u64)
        requires
            wf(old(self)@),
            old(self)@.state == ContextState::Initializing,
            old(self)@.queue_family_index is Some,
            old(self)@.ledger.len() == surface_position(old(self)@.diagnostics_enabled) + 1,
        ensures
            wf(final(self)@),
            final(self)@ == (ContextModel {
                ledger: old(self)@.ledger.push(ResourceKind::LogicalDevice),
                device: Some(handle),
                ..old(self)@
            }),
    {
        self.ledger.push(ResourceKind::LogicalDevice);
        self.device = Some(handle);
        proof {
            let order = creation_order(self@.diagnostics_enabled);
            assert(self@.ledger =~= order.take(order.len() as int));
            assert(self@.ledger.len() == order.len());
        }
    }

    /// The queue handle was retrieved — retrieval has no failure mode — and
    /// the context becomes ready.
    pub fn record_queue(&mut self, handle: u64)
        requires
            wf(old(self)@),
            old(self)@.state == ContextState::Initializing,
            old(self)@.device is Some,
        ensures
            wf(final(self)@),
            final(self)@ == (ContextModel {
                state: ContextState::Ready,
                queue: Some(handle),
                ..old(self)@
            }),
    {
        self.state = ContextState::Ready;
        self.queue = Some(handle);
    }

    /// Tears the context down from any state: hands back the release plan —
    /// every acquired resource in exactly the reverse of its acquisition
    /// order — and moves to the terminal state. A second call finds nothing
    /// left and releases nothing.
    pub fn shutdown(&mut self) -> (release_plan: Vec<ResourceKind>)
        requires
            wf(old(self)@),
        ensures
            wf(final(self)@),
            release_plan@ == teardown_plan(old(self)@),
            final(self)@ == shut_down_model(old(self)@),
    {
        let mut release_plan: Vec<ResourceKind> = Vec::new();
        let n = self.ledger.len();
        let mut k: usize = 0;
        while k < n
            invariant
                n == self.ledger.len(),
                self.ledger@ == old(self)@.ledger,
                k <= n,
                release_plan@.len() == k,
                forall|j: int| 0 <= j < k ==> release_plan@[j] == self.ledger@[n - 1 - j],
            decreases n - k,
        {
            release_plan.push(self.ledger[n - 1 - k]);
            k = k + 1;
        }
        proof {
            assert(release_plan@ =~= old(self)@.ledger.reverse());
        }
        self.state = ContextState::Destroyed;
        self.ledger = Vec::new();
        self.entry = None;
        self.window = None;
        self.instance = None;
        self.diagnostics = None;
        self.surface = None;
        self.device = None;
        self.queue = None;
        self.device_index = None;
        self.queue_family_index = None;
        proof {
            assert(self@.ledger =~= creation_order(self@.diagnostics_enabled).take(0));
            assert(self@ =~= shut_down_model(old(self)@));
        }
        release_plan
    }

    /// Abandons a failed initialization: releases everything acquired so
    /// far, in reverse acquisition order, and surfaces the failure — the
    /// first one encountered — unchanged to the caller.
    pub fn fail_initialization(&mut self, error: BootstrapError) -> (result: (
        Vec<ResourceKind>,
        BootstrapError,
    ))
        requires
            wf(old(self)@),
            old(self)@.state == ContextState::Initializing,
        ensures
            wf(final(self)@),
            result.0@ == teardown_plan(old(self)@),
            result.1 == error,
            final(self)@ == shut_down_model(old(self)@),
    {
        let release_plan = self.shutdown();
        (release_plan, error)
    }

    /// The lifecycle state.
    pub fn state(&self) -> (state: ContextState)
        ensures
            state == self@.state,
    {
        self.state
    }

    /// Whether the diagnostics subscription is part of this bootstrap.
    pub fn diagnostics_enabled(&self) -> (enabled: bool)
        ensures
            enabled == self@.diagnostics_enabled,
    {
        self.diagnostics_enabled
    }

    /// How many resources the context currently holds.
    pub fn resources_held(&self) -> (count: usize)
        ensures
            count == self@.ledger.len(),
    {
        self.ledger.len()
    }

    /// The instance handle; readable only while the context is ready.
    pub fn instance_handle(&self) -> (handle: Option<u64>)
        ensures
            handle == (if self@.state == ContextState::Ready {
                self@.instance
            } else {
                None::<u64>
            }),
    {
        if self.state == ContextState::Ready {
            self.instance
        } else {
            None
        }
    }

    /// The surface handle; readable only while the context is ready.
    pub fn surface_handle(&self) -> (handle: Option<u64>)
        ensures
            handle == (if self@.state == ContextState::Ready {
                self@.surface
            } else {
                None::<u64>
            }),
    {
        if self.state == ContextState::Ready {
            self.surface
        } else {
            None
        }
    }

    /// The logical-device handle; readable only while the context is ready.
    pub fn device_handle(&self) -> (handle: Option<u64>)
        ensures
            handle == (if self@.state == ContextState::Ready {
                self@.device
            } else {
                None::<u64>
            }),
    {
        if self.state == ContextState::Ready {
            self.device
        } else {
            None
        }
    }

    /// The queue handle; readable only while the context is ready.
    pub fn queue_handle(&self) -> (handle: Option<u64>)
        ensures
            handle == (if self@.state == ContextState::Ready {
                self@.queue
            } else {
                None::<u64>
            }),
    {
        if self.state == ContextState::Ready {
            self.queue
        } else {
            None
        }
    }

    /// The selected queue family; readable only while the context is ready.
    pub fn selected_queue_family(&self) -> (index: Option<u32>)
        ensures
            index == (if self@.state == ContextState::Ready {
                self@.queue_family_index
            } else {
                None::<u32>
            }),
    {
        if self.state == ContextState::Ready {
            self.queue_family_index
        } else {
            None
        }
    }

    /// The selected device's position among the candidates; readable only
    /// while the context is ready.
    pub fn selected_device_index(&self) -> (index: Option<usize>)
        ensures
            index == (if self@.state == ContextState::Ready {
                self@.device_index
            } else {
                None::<usize>
            }),
    {
        if self.state == ContextState::Ready {
            self.device_index
        } else {
            None
        }
    }
}

/// The teardown plan visits exactly the acquired resources, in exactly the
/// reverse of the order in which they were acquired.
pub proof fn lemma_teardown_reverses_creation(m: ContextModel)
    ensures
        teardown_plan(m).len() == m.ledger.len(),
        forall|i: int|
            0 <= i < m.ledger.len() ==> teardown_plan(m)[i] == m.ledger[m.ledger.len() - 1 - i],
{
}

/// A ready context releases in exactly the reverse of the canonical
/// acquisition order: the device before the surface, the surface before the
/// diagnostics subscription, the subscription before the owning instance,
/// and the window and driver connection last.
pub proof fn lemma_ready_teardown_order(m: ContextModel)
    requires
        wf(m),
        m.state == ContextState::Ready,
    ensures
        teardown_plan(m) == (if m.diagnostics_enabled {
            seq![
                ResourceKind::LogicalDevice,
                ResourceKind::Surface,
                ResourceKind::DiagnosticsSubscription,
                ResourceKind::Instance,
                ResourceKind::Window,
                ResourceKind::Entry,
            ]
        } else {
            seq![
                ResourceKind::LogicalDevice,
                ResourceKind::Surface,
                ResourceKind::Instance,
                ResourceKind::Window,
                ResourceKind::Entry,
            ]
        }),
{
    let order = creation_order(m.diagnostics_enabled);
    assert(m.ledger =~= order);
    if m.diagnostics_enabled {
        assert(teardown_plan(m) =~= seq![
            ResourceKind::LogicalDevice,
            ResourceKind::Surface,
            ResourceKind::DiagnosticsSubscription,
            ResourceKind::Instance,
            ResourceKind::Window,
            ResourceKind::Entry,
        ]);
    } else {
        assert(teardown_plan(m) =~= seq![
            ResourceKind::LogicalDevice,
            ResourceKind::Surface,
            ResourceKind::Instance,
            ResourceKind::Window,
            ResourceKind::Entry,
        ]);
    }
}

/// Shutting a context down is idempotent: a context already shut down is
/// left exactly as it is, and its teardown plan releases nothing.
pub proof fn lemma_shutdown_idempotent(m: ContextModel)
    ensures
        shut_down_model(shut_down_model(m)) == shut_down_model(m),
        teardown_plan(shut_down_model(m)) == Seq::<ResourceKind>::empty(),
        wf(shut_down_model(m)),
{
    assert(teardown_plan(shut_down_model(m)) =~= Seq::<ResourceKind>::empty());
    assert(shut_down_model(m).ledger =~= creation_order(m.diagnostics_enabled).take(0));
}

} // verus!
