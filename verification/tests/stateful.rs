use kobold::event::{Callback, Event, ListenerProduct};
use kobold::host::Host;
use kobold::runtime::{Runtime, Then, Trigger};
use kobold::state::hook::{Bound, Hook, Mutator, Signal};
use kobold::state::{stateful, Component};

struct Increment;

impl Callback<u64> for Increment {
    fn call(&self, state: &mut u64, _e: &Event) -> Then {
        *state += 1;
        Then::Render
    }
}

struct CounterApp;

impl Component for CounterApp {
    type State = u64;
    type Out = Bound<u64, Increment>;

    fn render(&self, state: &Hook<u64>) -> Self::Out {
        state.bind(Increment)
    }
}

struct AddTen;

impl Mutator<u64> for AddTen {
    fn apply(&self, state: &mut u64) -> Then {
        *state += 10;
        Then::Stop
    }
}

struct TextApp;

impl Component for TextApp {
    type State = u64;
    type Out = String;

    fn render(&self, state: &Hook<u64>) -> Self::Out {
        format!("count: {}", state.get())
    }
}

#[test]
fn hook_reads() {
    let hook = Hook::new(7u64);
    assert_eq!(hook.get(), 7);
    assert_eq!(*hook.as_ref(), 7);
}

#[test]
fn dispatch_routes_by_id() {
    let mut host = Host::new();
    let mut app = stateful(0u64, CounterApp).build(&mut host);
    let eid = app.product().js_value();

    // an unknown id is claimed by nobody
    let other = host.next_event_id();
    assert!(app.trigger(&Event { detail: 0 }, other).is_none());
    assert_eq!(*app.state(), 0);

    // the matching id reaches the bound callback with exclusive state access
    let verdict = app.trigger(&Event { detail: 0 }, eid);
    assert_eq!(verdict, Some(Then::Render));
    assert_eq!(*app.state(), 1);
}

#[test]
fn reentrancy_guard() {
    let mut host = Host::new();
    let app = stateful(0u64, CounterApp).build(&mut host);
    let eid = app.product().js_value();

    let mut rt = Runtime::new();
    rt.start(app);
    assert!(rt.is_idle());

    // an update takes the application out; the empty slot is the lock
    let in_flight = rt.take();
    assert!(in_flight.is_some());
    assert!(!rt.is_idle());

    // a reentrant update finds the slot empty and is rejected outright
    let rejected = rt.lock_update(&CounterApp, &Event { detail: 0 }, eid, &mut host);
    assert!(rejected.is_none());

    // the outer update completes and the runtime is consistent again
    rt.restore(in_flight.unwrap());
    assert!(rt.is_idle());

    // a subsequent normal event is processed as usual
    let verdict = rt.lock_update(&CounterApp, &Event { detail: 0 }, eid, &mut host);
    assert_eq!(verdict, Some(Then::Render));
    let app = rt.take().unwrap();
    assert_eq!(*app.state(), 1);
}

#[test]
fn start_is_idempotent() {
    let mut host = Host::new();
    let first = stateful(7u64, CounterApp).build(&mut host);
    let second = stateful(9u64, CounterApp).build(&mut host);

    let mut rt = Runtime::new();
    rt.start(first);
    // a second start is a no-op: the first application keeps running
    rt.start(second);
    let app = rt.take().unwrap();
    assert_eq!(*app.state(), 7);
}

#[test]
fn signal_liveness() {
    let mut state = 5u64;
    let hook = Hook::new(0u64);
    let mut signal: Signal<u64> = Signal::new(&hook);

    signal.set(&mut state, 42);
    assert_eq!(state, 42);

    let verdict = signal.update(&mut state, &AddTen);
    assert_eq!(verdict, Some(Then::Stop));
    assert_eq!(state, 52);

    signal.update_silent(&mut state, &AddTen);
    assert_eq!(state, 62);

    // once the owning product is torn down, every mutation is a safe no-op
    signal.revoke();
    signal.set(&mut state, 0);
    assert_eq!(state, 62);
    assert!(signal.update(&mut state, &AddTen).is_none());
    signal.update_silent(&mut state, &AddTen);
    assert_eq!(state, 62);
}

#[test]
fn stateful_renders_from_state() {
    let mut host = Host::new();
    let mut app = stateful(3u64, TextApp).build(&mut host);
    let id = kobold::Mountable::js(app.product());
    assert_eq!(host.read_text(id), "count: 3");

    // re-rendering against unchanged state changes nothing
    let nodes = host.len();
    app.rerender(&TextApp, &mut host);
    assert_eq!(host.len(), nodes);
    assert_eq!(host.read_text(id), "count: 3");
}

struct KeepSignal<'a>(&'a std::cell::Cell<u32>);

impl<'a> kobold::state::SignalHandler<u64> for KeepSignal<'a> {
    type Keep = Signal<u64>;

    fn on_start(self, signal: Signal<u64>) -> Signal<u64> {
        self.0.set(self.0.get() + 1);
        signal
    }
}

#[test]
fn once_runs_handler_at_build() {
    let mut host = Host::new();
    let runs = std::cell::Cell::new(0u32);
    let view = stateful(1u64, TextApp).once(KeepSignal(&runs));
    let mut p = view.build(&mut host);
    // the handler ran exactly once, at build
    assert_eq!(runs.get(), 1);

    // the signal it was handed is live and reaches the state
    let mut state = 1u64;
    p.kept().set(&mut state, 9);
    assert_eq!(state, 9);

    // updates reconcile the inner product; the handler never runs again
    stateful(1u64, TextApp).once(KeepSignal(&runs)).update(&mut p, &mut host);
    assert_eq!(runs.get(), 1);
    let id = kobold::Mountable::js(p.inner().product());
    assert_eq!(host.read_text(id), "count: 1");
}

struct Ping;

impl Callback<()> for Ping {
    fn call(&self, _state: &mut (), _e: &Event) -> Then {
        Then::Render
    }
}

#[test]
fn stateless_listener_always_stops() {
    let mut host = Host::new();
    let listener = ListenerProduct::new(Ping, &mut host);
    let eid = listener.js_value();
    let other = host.next_event_id();

    // a state-free listener runs its callback but always answers Stop
    let mut state = 0u64;
    let verdict = listener.trigger(&mut state, &Event { detail: 1 }, eid);
    assert_eq!(verdict, Some(Then::Stop));
    let verdict = listener.trigger(&mut state, &Event { detail: 1 }, other);
    assert!(verdict.is_none());
}
