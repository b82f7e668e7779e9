//! Properties of the hook that relate several steps, proved over the step
//! functions that the operations' contracts are stated with.
use vstd::prelude::*;

use crate::callback::{edge_of, pressed_after, signal_of, KeyEdge, PttSignal};
use crate::controller::{
    event_step, exit_step, hook_installed, initial, install_step, owner, query, start_step, stop_step, KeyState, PttHook,
    StartStep, WorkerPhase,
};

verus! {

/// The pressed flag and the notifications after feeding `edges`, in order,
/// to the repeat filter starting from `pressed`.
pub open spec fn feed(pressed: bool, edges: Seq<KeyEdge>) -> (bool, Seq<PttSignal>)
    decreases edges.len(),
{
    if edges.len() == 0 {
        (pressed, Seq::empty())
    } else {
        let (p, out) = feed(pressed, edges.drop_last());
        let e = edges.last();
        let out2 = match signal_of(e, p) {
            Some(s) => out.push(s),
            None => out,
        };
        (pressed_after(e), out2)
    }
}

/// How many times `s` occurs in `sigs`.
pub open spec fn occurrences(sigs: Seq<PttSignal>, s: PttSignal) -> nat
    decreases sigs.len(),
{
    if sigs.len() == 0 {
        0
    } else {
        occurrences(sigs.drop_last(), s) + if sigs.last() == s { 1nat } else { 0nat }
    }
}

/// Whether the key is held just before edge `i`: for the first edge the
/// starting flag, else whether the edge before it was a press.
pub open spec fn held_before(pressed: bool, edges: Seq<KeyEdge>, i: int) -> bool {
    if i == 0 {
        pressed
    } else {
        edges[i - 1] == KeyEdge::Down
    }
}

/// The number of distinct press episodes in `edges`: presses that do not
/// continue a hold (a run of presses is one episode, its tail repeats).
pub open spec fn press_episodes(pressed: bool, edges: Seq<KeyEdge>) -> nat
    decreases edges.len(),
{
    if edges.len() == 0 {
        0
    } else {
        let i = edges.len() - 1;
        press_episodes(pressed, edges.drop_last())
            + if edges[i] == KeyEdge::Down && !held_before(pressed, edges, i) { 1nat } else { 0nat }
    }
}

/// The number of distinct releases in `edges`: releases that end a hold.
pub open spec fn release_episodes(pressed: bool, edges: Seq<KeyEdge>) -> nat
    decreases edges.len(),
{
    if edges.len() == 0 {
        0
    } else {
        let i = edges.len() - 1;
        release_episodes(pressed, edges.drop_last())
            + if edges[i] == KeyEdge::Up && held_before(pressed, edges, i) { 1nat } else { 0nat }
    }
}

/// Feeding a sequence through the filter leaves the flag at the last edge's
/// class.
proof fn lemma_feed_pressed(pressed: bool, edges: Seq<KeyEdge>)
    ensures
        feed(pressed, edges).0 == (if edges.len() == 0 { pressed } else { edges.last() == KeyEdge::Down }),
    decreases edges.len(),
{
}

/// Repeat suppression: over any sequence of presses and releases of the
/// configured key, repeats included, the filter emits one key-down per
/// distinct press episode and one key-up per release that ends a hold.
pub proof fn lemma_repeat_suppression(pressed: bool, edges: Seq<KeyEdge>)
    ensures
        occurrences(feed(pressed, edges).1, PttSignal::KeyDown) == press_episodes(pressed, edges),
        occurrences(feed(pressed, edges).1, PttSignal::KeyUp) == release_episodes(pressed, edges),
    decreases edges.len(),
{
    if edges.len() > 0 {
        let init = edges.drop_last();
        lemma_repeat_suppression(pressed, init);
        lemma_feed_pressed(pressed, init);
        let i = edges.len() - 1;
        assert(held_before(pressed, edges, i) == feed(pressed, init).0);
        let (p, out) = feed(pressed, init);
        match signal_of(edges.last(), p) {
            Some(s) => {
                assert(out.push(s).drop_last() == out);
            },
            None => {},
        }
    }
}

/// The hook's state and the notifications after it took the raw events
/// `events` (hook code, message, key) in order.
pub open spec fn run_events(h: PttHook, events: Seq<(i32, usize, u32)>) -> (PttHook, Seq<PttSignal>)
    decreases events.len(),
{
    if events.len() == 0 {
        (h, Seq::empty())
    } else {
        let (h0, out) = run_events(h, events.drop_last());
        let ev = events.last();
        let (h1, sig) = event_step(h0, ev.0, ev.1, ev.2);
        (h1, match sig {
            Some(s) => out.push(s),
            None => out,
        })
    }
}

/// The edges of key `configured_key` among `events`, in order.
pub open spec fn edges_of(events: Seq<(i32, usize, u32)>, configured_key: i32) -> Seq<KeyEdge>
    decreases events.len(),
{
    if events.len() == 0 {
        Seq::empty()
    } else {
        let ev = events.last();
        let init = edges_of(events.drop_last(), configured_key);
        match edge_of(ev.0, ev.1, ev.2, configured_key) {
            Some(e) => init.push(e),
            None => init,
        }
    }
}

/// The hook's callback is the repeat filter on the configured key's edges:
/// whatever other keys, messages or codes are interleaved, the notifications
/// are those the filter gives for the edges alone, and only the pressed flag
/// changes.
pub proof fn lemma_events_are_filtered(h: PttHook, events: Seq<(i32, usize, u32)>)
    ensures
        run_events(h, events) == (PttHook { pressed: feed(h.pressed, edges_of(events, h.configured_key)).0, ..h },
            feed(h.pressed, edges_of(events, h.configured_key)).1),
    decreases events.len(),
{
    if events.len() > 0 {
        let init = events.drop_last();
        lemma_events_are_filtered(h, init);
        let ev = events.last();
        let edges = edges_of(init, h.configured_key);
        match edge_of(ev.0, ev.1, ev.2, h.configured_key) {
            Some(e) => {
                assert(edges.push(e).drop_last() =~= edges);
            },
            None => {},
        }
    }
}

/// Repeat suppression on the hook itself: over any run of raw events, the
/// hook emits one key-down per distinct press episode of the configured key
/// and one key-up per release that ends a hold, however many repeats arrive.
pub proof fn lemma_hook_suppresses_repeats(h: PttHook, events: Seq<(i32, usize, u32)>)
    ensures
        occurrences(run_events(h, events).1, PttSignal::KeyDown)
            == press_episodes(h.pressed, edges_of(events, h.configured_key)),
        occurrences(run_events(h, events).1, PttSignal::KeyUp)
            == release_episodes(h.pressed, edges_of(events, h.configured_key)),
{
    lemma_events_are_filtered(h, events);
    lemma_repeat_suppression(h.pressed, edges_of(events, h.configured_key));
}

/// A second `start` while a worker pumps spawns nothing: both report
/// success, the worker and its thread stay, only the key changes, and the
/// very next event is filtered against the new key from a released state.
pub proof fn lemma_restart_keeps_worker(h: PttHook, first_key: i32, second_key: i32, code: i32, w_param: usize, vk_code: u32)
    requires
        h.supported,
        h.worker is Pumping,
    ensures
        ({
            let (h1, r1) = start_step(h, first_key);
            let (h2, r2) = start_step(h1, second_key);
            &&& r1 == StartStep::Finished(true)
            &&& r2 == StartStep::Finished(true)
            &&& h2 == (PttHook { configured_key: second_key, pressed: false, ..h })
            &&& owner(h2) == owner(h)
            &&& event_step(h2, code, w_param, vk_code).1 == match edge_of(code, w_param, vk_code, second_key) {
                Some(e) => signal_of(e, false),
                None => None,
            }
        }),
{
}

/// A second `start` while the first worker is still installing asks for no
/// second worker: it waits for the first.
pub proof fn lemma_start_during_install_waits(h: PttHook, first_key: i32, second_key: i32)
    requires
        h.supported,
        h.worker == WorkerPhase::Idle,
    ensures
        ({
            let (h1, r1) = start_step(h, first_key);
            let (h2, r2) = start_step(h1, second_key);
            &&& r1 == StartStep::SpawnWorker
            &&& r2 == StartStep::AwaitWorker
            &&& h2.worker == (WorkerPhase::Installing { quit_requested: false })
            &&& h2.configured_key == second_key
        }),
{
}

/// After `stop`, and after `stop` followed at once by `start` of a new key,
/// no event of any other key yields a notification or changes the state;
/// right after `stop` no event at all does.
pub proof fn lemma_stop_then_start(h: PttHook, key_code: i32, code: i32, w_param: usize, vk_code: u32)
    ensures
        ({
            let h1 = stop_step(h).0;
            event_step(h1, code, w_param, vk_code) == (h1, None::<PttSignal>)
        }),
        ({
            let h2 = start_step(stop_step(h).0, key_code).0;
            vk_code != key_code as u32 ==> event_step(h2, code, w_param, vk_code) == (h2, None::<PttSignal>)
        }),
{
}

/// `stop` then `start` of a new key on a pumping worker does not reuse the
/// worker that was told to quit: the quit goes to its thread, `start` waits
/// for it, and once it has exited the next `start` asks for a fresh worker
/// for the new key.
pub proof fn lemma_stop_then_start_gets_fresh_worker(h: PttHook, thread: u32, key_code: i32)
    requires
        h.supported,
        h.worker == (WorkerPhase::Pumping { thread }),
    ensures
        ({
            let (h1, posted) = stop_step(h);
            let (h2, r2) = start_step(h1, key_code);
            let h3 = exit_step(h2, thread);
            let (h4, r4) = start_step(h3, key_code);
            &&& posted == Some(thread)
            &&& r2 == StartStep::AwaitWorker
            &&& h3.worker == WorkerPhase::Idle
            &&& r4 == StartStep::SpawnWorker
            &&& h4.configured_key == key_code
        }),
{
}

/// On a platform without the primitive the direct query answers
/// `Unsupported`, whatever the worker's phase.
pub proof fn lemma_query_unsupported(h: PttHook, worker: WorkerPhase, async_key_state: i16)
    requires
        !h.supported,
    ensures
        query(h, async_key_state) == KeyState::Unsupported,
        query(PttHook { worker, ..h }, async_key_state) == KeyState::Unsupported,
{
}

/// `stop` is idempotent, and on a hook that never started it changes nothing
/// and posts nothing.
pub proof fn lemma_stop_idempotent(h: PttHook, supported: bool)
    ensures
        stop_step(stop_step(h).0).0 == stop_step(h).0,
        !hook_installed(h) ==> stop_step(stop_step(h).0) == stop_step(h),
        stop_step(initial(supported)) == (initial(supported), None::<u32>),
{
}

/// One thing that happens to the hook: a command, a worker's report, or a
/// keyboard event.
pub enum HostEvent {
    Start(i32),
    Stop,
    /// The worker on this thread reports its installation attempt.
    Installed(u32, bool),
    /// The worker on this thread removed its hook and ends.
    Exited(u32),
    Key(i32, usize, u32),
}

/// The hook together with what runs around it: the number of workers asked
/// for that have not yet reported, and the threads whose hook is installed.
pub type HostState = (PttHook, nat, Set<u32>);

/// What the host can do: a report comes only from a worker that was asked
/// for, an exit only from a thread that has a hook installed.
pub open spec fn host_allows(s: HostState, ev: HostEvent) -> bool {
    match ev {
        HostEvent::Installed(_, _) => s.1 > 0,
        HostEvent::Exited(t) => s.2.contains(t),
        _ => true,
    }
}

/// The effect of one event: a `SpawnWorker` adds a worker that has not yet
/// reported; a successful report adds an installed hook on its thread; an
/// exit removes its thread's hook.
pub open spec fn host_next(s: HostState, ev: HostEvent) -> HostState {
    match ev {
        HostEvent::Start(k) => {
            let (h1, r) = start_step(s.0, k);
            (h1, if r == StartStep::SpawnWorker { s.1 + 1 } else { s.1 }, s.2)
        },
        HostEvent::Stop => (stop_step(s.0).0, s.1, s.2),
        HostEvent::Installed(t, ok) => (
            install_step(s.0, t, ok).0,
            (s.1 - 1) as nat,
            if ok { s.2.insert(t) } else { s.2 },
        ),
        HostEvent::Exited(t) => (exit_step(s.0, t), s.1, s.2.remove(t)),
        HostEvent::Key(c, w, v) => (event_step(s.0, c, w, v).0, s.1, s.2),
    }
}

/// The host after `events`, from `s`; `None` if one of them cannot happen.
pub open spec fn run_host(s: HostState, events: Seq<HostEvent>) -> Option<HostState>
    decreases events.len(),
{
    if events.len() == 0 {
        Some(s)
    } else {
        match run_host(s, events.drop_last()) {
            None => None,
            Some(s0) => if host_allows(s0, events.last()) {
                Some(host_next(s0, events.last()))
            } else {
                None
            },
        }
    }
}

/// The phase accounts for every worker: none without one, one asked for
/// while installing, and exactly the owner's hook while pumping or
/// uninstalling.
pub open spec fn host_inv(s: HostState) -> bool {
    &&& s.0.wf()
    &&& match s.0.worker {
        WorkerPhase::Idle => s.1 == 0 && s.2 == Set::<u32>::empty(),
        WorkerPhase::Installing { .. } => s.1 == 1 && s.2 == Set::<u32>::empty(),
        WorkerPhase::Pumping { thread } => s.1 == 0 && s.2 == set![thread],
        WorkerPhase::Uninstalling { thread } => s.1 == 0 && s.2 == set![thread],
    }
}

proof fn lemma_host_step(s: HostState, ev: HostEvent)
    requires
        host_inv(s),
        host_allows(s, ev),
    ensures
        host_inv(host_next(s, ev)),
{
    let s1 = host_next(s, ev);
    match ev {
        HostEvent::Installed(t, ok) => {
            if ok {
                assert(s1.2 =~= set![t]);
            }
        },
        HostEvent::Exited(t) => {
            assert(s1.2 =~= Set::<u32>::empty());
        },
        _ => {},
    }
}

/// At most one worker at a time: over any run of commands, worker reports,
/// exits and keyboard events from a fresh hook, the workers asked for and
/// not yet reported plus the hooks installed and not yet removed never
/// exceed one; an installed hook belongs to the thread the hook names as
/// owner, which `stop` addresses.
pub proof fn lemma_at_most_one_worker(supported: bool, events: Seq<HostEvent>)
    ensures
        run_host((initial(supported), 0nat, Set::<u32>::empty()), events) matches Some(s) ==> {
            &&& host_inv(s)
            &&& s.1 + s.2.len() <= 1
            &&& (s.2.len() == 1 ==> (owner(s.0) is Some && s.2 == set![owner(s.0).unwrap()]))
        },
    decreases events.len(),
{
    let s0 = (initial(supported), 0nat, Set::<u32>::empty());
    if events.len() > 0 {
        lemma_at_most_one_worker(supported, events.drop_last());
        if let Some(s) = run_host(s0, events.drop_last()) {
            if host_allows(s, events.last()) {
                lemma_host_step(s, events.last());
            }
        }
    }
    if let Some(s) = run_host(s0, events) {
        match s.0.worker {
            WorkerPhase::Pumping { thread } => {
                assert(set![thread].len() == 1);
            },
            WorkerPhase::Uninstalling { thread } => {
                assert(set![thread].len() == 1);
            },
            _ => {},
        }
    }
}

} // verus!
