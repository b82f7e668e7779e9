//! The hook controller: the shared state of one push-to-talk hook and the
//! operations that start it, stop it, feed it keyboard events and query a
//! key directly.
//!
//! Each operation is a step from state and input to next state and an action
//! for the host: spawn the worker thread, post the quit message to a thread,
//! deliver a notification. The host performs the action and reports back
//! through the worker's steps.
use vstd::prelude::*;

use crate::callback::{edge_of, key_edge, pressed_after, signal_of, edge_signal, PttSignal};
use crate::win32::KBDLLHOOKSTRUCT;

verus! {

/// The configured key that matches no key: the hook is disabled.
pub const DISABLED_KEY: i32 = 0;

/// Where the hook's single worker thread stands.
#[derive(Clone, Copy, Debug, PartialEq, Eq, Structural)]
pub enum WorkerPhase {
    /// No worker exists.
    Idle,
    /// A worker was asked for and is installing the hook; `quit_requested`
    /// records a `stop` that came meanwhile.
    Installing { quit_requested: bool },
    /// The worker on `thread` has installed the hook and pumps its queue.
    Pumping { thread: u32 },
    /// The quit message was posted to `thread`; its worker is removing the
    /// hook.
    Uninstalling { thread: u32 },
}

/// State shared by the controller, the worker thread and the callback.
#[derive(Clone, Copy, Debug, PartialEq, Eq, Structural)]
pub struct PttHook {
    /// Whether the platform offers the low-level hook primitive.
    pub supported: bool,
    /// The key observed, or `DISABLED_KEY`.
    pub configured_key: i32,
    /// Whether the configured key is believed held.
    pub pressed: bool,
    /// The worker, if any.
    pub worker: WorkerPhase,
}

/// What `start` leaves for the host to do.
#[derive(Clone, Copy, Debug, PartialEq, Eq, Structural)]
pub enum StartStep {
    /// Nothing: `start` returns this outcome.
    Finished(bool),
    /// Spawn a worker thread; once it has tried to install the hook, report
    /// the attempt through `worker_installed` and return whether it worked.
    SpawnWorker,
    /// A worker is installing or uninstalling the hook: wait for its next
    /// report, then call `start` again.
    AwaitWorker,
}

/// What a worker does once its installation attempt is reported.
#[derive(Clone, Copy, Debug, PartialEq, Eq, Structural)]
pub enum InstallStep {
    /// Pump the queue until the quit message, then remove the hook.
    Pump,
    /// Remove the hook at once: a `stop` came during installation.
    Unhook,
    /// Nothing was installed: end the thread.
    Exit,
}

/// Answer of the direct key-state query.
#[derive(Clone, Copy, Debug, PartialEq, Eq, Structural)]
pub enum KeyState {
    Pressed,
    NotPressed,
    Unsupported,
}

/// Whether a worker has installed the hook and not yet removed it.
pub open spec fn hook_installed(h: PttHook) -> bool {
    h.worker is Pumping || h.worker is Uninstalling
}

/// The thread that owns the installed hook.
pub open spec fn owner(h: PttHook) -> Option<u32> {
    match h.worker {
        WorkerPhase::Pumping { thread } => Some(thread),
        WorkerPhase::Uninstalling { thread } => Some(thread),
        _ => None,
    }
}

impl PttHook {
    /// A platform without the hook primitive never has a worker.
    pub open spec fn wf(self) -> bool {
        !self.supported ==> self.worker == WorkerPhase::Idle
    }
}

/// The state of a hook on a platform that does (`supported`) or does not
/// offer the primitive, before anything was started.
pub open spec fn initial(supported: bool) -> PttHook {
    PttHook { supported, configured_key: DISABLED_KEY, pressed: false, worker: WorkerPhase::Idle }
}

/// `start(key_code)`: on a supported platform, the key is configured and the
/// pressed flag cleared. A worker is asked for only when none exists; one
/// that is installing keeps going (a pending quit is withdrawn), and one that
/// is uninstalling is waited for. A pumping worker is kept and serves the new
/// key at once. On an unsupported platform nothing changes and the outcome
/// is failure.
pub open spec fn start_step(h: PttHook, key_code: i32) -> (PttHook, StartStep) {
    if !h.supported {
        (h, StartStep::Finished(false))
    } else {
        let h1 = PttHook { configured_key: key_code, pressed: false, ..h };
        match h.worker {
            WorkerPhase::Idle => (
                PttHook { worker: WorkerPhase::Installing { quit_requested: false }, ..h1 },
                StartStep::SpawnWorker,
            ),
            WorkerPhase::Installing { .. } => (
                PttHook { worker: WorkerPhase::Installing { quit_requested: false }, ..h1 },
                StartStep::AwaitWorker,
            ),
            WorkerPhase::Pumping { .. } => (h1, StartStep::Finished(true)),
            WorkerPhase::Uninstalling { .. } => (h1, StartStep::AwaitWorker),
        }
    }
}

/// `stop()`: the key is disabled and the pressed flag cleared. A pumping
/// worker is told to quit by a message posted to its thread (posted again if
/// it is already uninstalling); an installing worker is marked to remove the
/// hook as soon as it has it.
pub open spec fn stop_step(h: PttHook) -> (PttHook, Option<u32>) {
    let h1 = PttHook { configured_key: DISABLED_KEY, pressed: false, ..h };
    match h.worker {
        WorkerPhase::Idle => (h1, None),
        WorkerPhase::Installing { .. } => (
            PttHook { worker: WorkerPhase::Installing { quit_requested: true }, ..h1 },
            None,
        ),
        WorkerPhase::Pumping { thread } => (
            PttHook { worker: WorkerPhase::Uninstalling { thread }, ..h1 },
            Some(thread),
        ),
        WorkerPhase::Uninstalling { thread } => (h1, Some(thread)),
    }
}

/// The worker on `thread_id` tried to install the hook (`installed` tells
/// how it went). The expected worker then owns the hook, pumping or (after a
/// `stop`) uninstalling; a failure leaves no worker. A report that no
/// installing worker can have made changes nothing, and a hook installed
/// that way is removed.
pub open spec fn install_step(h: PttHook, thread_id: u32, installed: bool) -> (PttHook, InstallStep) {
    match h.worker {
        WorkerPhase::Installing { quit_requested } => if !installed {
            (PttHook { worker: WorkerPhase::Idle, ..h }, InstallStep::Exit)
        } else if quit_requested {
            (PttHook { worker: WorkerPhase::Uninstalling { thread: thread_id }, ..h }, InstallStep::Unhook)
        } else {
            (PttHook { worker: WorkerPhase::Pumping { thread: thread_id }, ..h }, InstallStep::Pump)
        },
        _ => (h, if installed { InstallStep::Unhook } else { InstallStep::Exit }),
    }
}

/// The worker on `thread_id` removed its hook and ends: if it owned the
/// hook, no worker is left; otherwise nothing changes.
pub open spec fn exit_step(h: PttHook, thread_id: u32) -> PttHook {
    if owner(h) == Some(thread_id) {
        PttHook { worker: WorkerPhase::Idle, ..h }
    } else {
        h
    }
}

/// One raw keyboard event through the callback: events that report no edge
/// of the configured key leave the state alone; an edge sets the pressed
/// flag and yields a notification only when it changes that flag.
pub open spec fn event_step(h: PttHook, code: i32, w_param: usize, vk_code: u32) -> (PttHook, Option<PttSignal>) {
    match edge_of(code, w_param, vk_code, h.configured_key) {
        None => (h, None),
        Some(e) => (PttHook { pressed: pressed_after(e), ..h }, signal_of(e, h.pressed)),
    }
}

/// The direct query, given the asynchronous key state the platform reported
/// (its sign bit is set while the key is down).
pub open spec fn query(h: PttHook, async_key_state: i16) -> KeyState {
    if !h.supported {
        KeyState::Unsupported
    } else if async_key_state < 0 {
        KeyState::Pressed
    } else {
        KeyState::NotPressed
    }
}

impl KeyState {
    /// The integer form handed to the front end: 1 pressed, 0 not pressed,
    /// -1 unsupported.
    pub fn code(&self) -> (r: i32)
        ensures
            r == match *self {
                KeyState::Pressed => 1i32,
                KeyState::NotPressed => 0i32,
                KeyState::Unsupported => -1i32,
            },
    {
        match self {
            KeyState::Pressed => 1,
            KeyState::NotPressed => 0,
            KeyState::Unsupported => -1,
        }
    }
}

impl PttHook {
    /// A hook with no key configured and no worker.
    pub fn new(supported: bool) -> (r: PttHook)
        ensures
            r == initial(supported),
            r.wf(),
    {
        PttHook { supported, configured_key: DISABLED_KEY, pressed: false, worker: WorkerPhase::Idle }
    }

    /// Whether a worker has installed the hook and not yet removed it.
    pub fn is_running(&self) -> (r: bool)
        ensures
            r == hook_installed(*self),
    {
        match self.worker {
            WorkerPhase::Pumping { .. } | WorkerPhase::Uninstalling { .. } => true,
            _ => false,
        }
    }

    /// The thread that owns the installed hook, if any.
    pub fn owning_thread(&self) -> (r: Option<u32>)
        ensures
            r == owner(*self),
    {
        match self.worker {
            WorkerPhase::Pumping { thread } => Some(thread),
            WorkerPhase::Uninstalling { thread } => Some(thread),
            _ => None,
        }
    }

    /// Starts observing `key_code`, or swaps the key of the existing worker.
    pub fn start(&mut self, key_code: i32) -> (r: StartStep)
        requires
            old(self).wf(),
        ensures
            (*final(self), r) == start_step(*old(self), key_code),
            final(self).wf(),
    {
        if !self.supported {
            return StartStep::Finished(false);
        }
        self.configured_key = key_code;
        self.pressed = false;
        match self.worker {
            WorkerPhase::Idle => {
                self.worker = WorkerPhase::Installing { quit_requested: false };
                StartStep::SpawnWorker
            },
            WorkerPhase::Installing { .. } => {
                self.worker = WorkerPhase::Installing { quit_requested: false };
                StartStep::AwaitWorker
            },
            WorkerPhase::Pumping { .. } => StartStep::Finished(true),
            WorkerPhase::Uninstalling { .. } => StartStep::AwaitWorker,
        }
    }

    /// Stops observing; returns the thread to post the quit message to, where
    /// a worker has the hook. Teardown is not awaited.
    pub fn stop(&mut self) -> (r: Option<u32>)
        requires
            old(self).wf(),
        ensures
            (*final(self), r) == stop_step(*old(self)),
            final(self).wf(),
    {
        self.configured_key = DISABLED_KEY;
        self.pressed = false;
        match self.worker {
            WorkerPhase::Idle => None,
            WorkerPhase::Installing { .. } => {
                self.worker = WorkerPhase::Installing { quit_requested: true };
                None
            },
            WorkerPhase::Pumping { thread } => {
                self.worker = WorkerPhase::Uninstalling { thread };
                Some(thread)
            },
            WorkerPhase::Uninstalling { thread } => Some(thread),
        }
    }

    /// The worker on `thread_id` tried to install the hook; returns what it
    /// does next.
    pub fn worker_installed(&mut self, thread_id: u32, installed: bool) -> (r: InstallStep)
        requires
            old(self).wf(),
        ensures
            (*final(self), r) == install_step(*old(self), thread_id, installed),
            final(self).wf(),
    {
        match self.worker {
            WorkerPhase::Installing { quit_requested } => {
                if !installed {
                    self.worker = WorkerPhase::Idle;
                    InstallStep::Exit
                } else if quit_requested {
                    self.worker = WorkerPhase::Uninstalling { thread: thread_id };
                    InstallStep::Unhook
                } else {
                    self.worker = WorkerPhase::Pumping { thread: thread_id };
                    InstallStep::Pump
                }
            },
            _ => if installed {
                InstallStep::Unhook
            } else {
                InstallStep::Exit
            },
        }
    }

    /// The worker on `thread_id` removed its hook (its pump ended, by the
    /// quit message or an error) and its thread ends.
    pub fn worker_exited(&mut self, thread_id: u32)
        requires
            old(self).wf(),
        ensures
            *final(self) == exit_step(*old(self), thread_id),
            final(self).wf(),
    {
        let owns = match self.worker {
            WorkerPhase::Pumping { thread } => thread == thread_id,
            WorkerPhase::Uninstalling { thread } => thread == thread_id,
            _ => false,
        };
        if owns {
            self.worker = WorkerPhase::Idle;
        }
    }

    /// The callback's work on one raw event: the notification to deliver, if
    /// any. The host forwards the event to the next hook in any case.
    pub fn on_key_event(&mut self, code: i32, w_param: usize, kb: &KBDLLHOOKSTRUCT) -> (r: Option<PttSignal>)
        requires
            old(self).wf(),
        ensures
            (*final(self), r) == event_step(*old(self), code, w_param, kb.vk_code),
            final(self).wf(),
    {
        match key_edge(code, w_param, kb.vk_code, self.configured_key) {
            None => None,
            Some(edge) => {
                let was_pressed = self.pressed;
                self.pressed = edge.pressed_after();
                edge_signal(edge, was_pressed)
            },
        }
    }

    /// Whether the key is down now, from the asynchronous key state that the
    /// platform reported for it; `Unsupported` where the platform lacks the
    /// primitive, whatever the hook's state.
    pub fn check_key_pressed(&self, async_key_state: i16) -> (r: KeyState)
        ensures
            r == query(*self, async_key_state),
    {
        if !self.supported {
            KeyState::Unsupported
        } else if async_key_state < 0 {
            KeyState::Pressed
        } else {
            KeyState::NotPressed
        }
    }
}

} // verus!
