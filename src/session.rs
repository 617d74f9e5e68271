//! The session state machine: it owns the command receiver and, while
//! connected, the one live transport handle, and decides for each command
//! what to do with them and which event to emit.
//!
//! The machine is generic over the receiver `R`, the session handle `C` and
//! the command sender `S`, which it only moves: whoever runs it performs the
//! transport work that a `Step` asks for and hands back the outcome.

use vstd::prelude::*;
use crate::connection::ConnectionParams;
use crate::modbus::{Request, Response};

verus! {

/// The state threaded through the session loop.
pub enum WorkerState<R, C> {
    /// Before the command channel exists.
    Disconnected,
    /// Holding the command receiver, with no transport.
    Ready(R),
    /// Holding the command receiver and the live session handle.
    Connected(R, C),
    /// Terminal: entered on a connect while connected.
    Error,
}

/// A message from the controlling actor to the session loop.
#[derive(Debug, Clone)]
pub enum Commands {
    Nothing,
    Disconnect,
    Connect(ConnectionParams),
    DeviceCommand(Request),
    RequestCommand(Request),
}

/// A message from the session loop to the controlling actor.
#[derive(Debug, Clone)]
pub enum WorkerEvent<S> {
    WorkerHandle(S),
    DeviceResponse(Request, Response),
    RequestResponse(Request, Response),
    Connected,
    Disconnected,
    Idle,
    Error(String),
}

/// Whose request a round-trip serves: the register table or an ad-hoc probe.
#[derive(Debug, Clone, Copy, PartialEq, Eq, Structural)]
pub enum Target {
    Device,
    Probe,
}

/// What the loop must do next.
pub enum Step<S, R, C> {
    /// Create the command channel and hand both ends to `begin`.
    OpenChannel,
    /// Emit the event, if any, and continue in the state.
    Emit(Option<WorkerEvent<S>>, WorkerState<R, C>),
    /// Open a transport with the parameters and hand the outcome to
    /// `connect_outcome` with the receiver.
    Open(R, ConnectionParams),
    /// Execute the request over the handle and hand the outcome to
    /// `call_outcome` with the receiver, the handle, the target and the request.
    Execute(R, C, Target, Request),
}

/// The state of the machine without the values it holds.
#[derive(Debug, Clone, Copy, PartialEq, Eq, Structural)]
pub enum Mode {
    Disconnected,
    Ready,
    Connected,
    Halted,
}

/// An event without the sender it may carry, its message as characters.
pub enum Signal {
    Handle,
    DeviceResponse(Request, Response),
    RequestResponse(Request, Response),
    Connected,
    Disconnected,
    Idle,
    Error(Seq<char>),
}

impl<R, C> WorkerState<R, C> {
    pub open spec fn mode(self) -> Mode {
        match self {
            WorkerState::Disconnected => Mode::Disconnected,
            WorkerState::Ready(_) => Mode::Ready,
            WorkerState::Connected(_, _) => Mode::Connected,
            WorkerState::Error => Mode::Halted,
        }
    }
}

impl<S> WorkerEvent<S> {
    pub open spec fn signal(self) -> Signal {
        match self {
            WorkerEvent::WorkerHandle(_) => Signal::Handle,
            WorkerEvent::DeviceResponse(q, p) => Signal::DeviceResponse(q, p),
            WorkerEvent::RequestResponse(q, p) => Signal::RequestResponse(q, p),
            WorkerEvent::Connected => Signal::Connected,
            WorkerEvent::Disconnected => Signal::Disconnected,
            WorkerEvent::Idle => Signal::Idle,
            WorkerEvent::Error(m) => Signal::Error(m@),
        }
    }
}

pub open spec fn signal_of<S>(ev: Option<WorkerEvent<S>>) -> Option<Signal> {
    match ev {
        Some(e) => Some(e.signal()),
        None => None,
    }
}

/// What the machine decides on a received command, before any transport work.
pub enum Decision {
    /// Move to the mode and emit the signal, if any.
    Settle(Mode, Option<Signal>),
    /// Open a transport with these parameters.
    Open(ConnectionParams),
    /// Execute the request for the target.
    Call(Target, Request),
}

/// The decision in `mode` on `received` (`None`: the channel is closed).
pub open spec fn decide(mode: Mode, received: Option<Commands>) -> Decision {
    match mode {
        Mode::Disconnected => Decision::Settle(Mode::Ready, Some(Signal::Handle)),
        Mode::Ready => match received {
            Some(Commands::Connect(p)) => Decision::Open(p),
            _ => Decision::Settle(Mode::Ready, Some(Signal::Idle)),
        },
        Mode::Connected => match received {
            None => Decision::Settle(Mode::Connected, Some(Signal::Idle)),
            Some(Commands::Nothing) => Decision::Settle(Mode::Connected, None),
            Some(Commands::Disconnect) => Decision::Settle(Mode::Ready, Some(Signal::Disconnected)),
            Some(Commands::DeviceCommand(req)) => Decision::Call(Target::Device, req),
            Some(Commands::RequestCommand(req)) => Decision::Call(Target::Probe, req),
            Some(Commands::Connect(_)) => Decision::Settle(
                Mode::Halted,
                Some(Signal::Error("Invalid Command"@)),
            ),
        },
        Mode::Halted => Decision::Settle(Mode::Halted, Some(Signal::Error("error"@))),
    }
}

/// Mode and signal after opening a transport succeeded (`Ok`) or failed with
/// a message.
pub open spec fn after_open(opened: Result<(), Seq<char>>) -> (Mode, Option<Signal>) {
    match opened {
        Ok(_) => (Mode::Connected, Some(Signal::Connected)),
        Err(m) => (Mode::Ready, Some(Signal::Error(m))),
    }
}

/// Mode and signal after a round-trip for `target` on `req` answered or
/// failed with a message.
pub open spec fn after_call(target: Target, req: Request, replied: Result<Response, Seq<char>>) -> (
    Mode,
    Option<Signal>,
) {
    match replied {
        Ok(resp) => (
            Mode::Connected,
            Some(
                match target {
                    Target::Device => Signal::DeviceResponse(req, resp),
                    Target::Probe => Signal::RequestResponse(req, resp),
                },
            ),
        ),
        Err(m) => (Mode::Connected, Some(Signal::Error(m))),
    }
}

/// `next` holds no handle that `state` did not: a receiver is the one held
/// before, and a live session is the one held before.
pub open spec fn keeps_handles<R, C>(state: WorkerState<R, C>, next: WorkerState<R, C>) -> bool {
    match next {
        WorkerState::Ready(rx) => state == WorkerState::<R, C>::Ready(rx) || exists|c: C|
            state == WorkerState::Connected(rx, c),
        WorkerState::Connected(rx, c) => state == WorkerState::Connected(rx, c),
        _ => true,
    }
}

/// The first step of the loop: `tx` and `rx` are the two ends of a fresh
/// command channel; the sender goes out to the actor.
pub fn begin<S, R, C>(tx: S, rx: R) -> (r: (Option<WorkerEvent<S>>, WorkerState<R, C>))
    ensures
        r.0 == Some(WorkerEvent::WorkerHandle(tx)),
        r.1 == WorkerState::<R, C>::Ready(rx),
        decide(Mode::Disconnected, None) == Decision::Settle(r.1.mode(), signal_of(r.0)),
{
    (Some(WorkerEvent::WorkerHandle(tx)), WorkerState::Ready(rx))
}

/// The step for `state` on `received`, the result of waiting on the channel
/// in `Ready` or `Connected` (`None`: the channel is closed).
pub fn advance<S, R, C>(state: WorkerState<R, C>, received: Option<Commands>) -> (r: Step<S, R, C>)
    ensures
        state is Disconnected <==> r is OpenChannel,
        match r {
            Step::OpenChannel => true,
            Step::Emit(ev, next) => {
                &&& decide(state.mode(), received) == Decision::Settle(next.mode(), signal_of(ev))
                &&& keeps_handles(state, next)
            },
            Step::Open(rx, p) => {
                &&& state == WorkerState::<R, C>::Ready(rx)
                &&& decide(state.mode(), received) == Decision::Open(p)
            },
            Step::Execute(rx, c, target, req) => {
                &&& state == WorkerState::Connected(rx, c)
                &&& decide(state.mode(), received) == Decision::Call(target, req)
            },
        },
{
    match state {
        WorkerState::Disconnected => Step::OpenChannel,
        WorkerState::Ready(rx) => match received {
            Some(Commands::Connect(p)) => Step::Open(rx, p),
            _ => Step::Emit(Some(WorkerEvent::Idle), WorkerState::Ready(rx)),
        },
        WorkerState::Connected(rx, ctx) => match received {
            None => Step::Emit(Some(WorkerEvent::Idle), WorkerState::Connected(rx, ctx)),
            Some(command) => match command {
                Commands::Nothing => Step::Emit(None, WorkerState::Connected(rx, ctx)),
                Commands::Disconnect => Step::Emit(
                    Some(WorkerEvent::Disconnected),
                    WorkerState::Ready(rx),
                ),
                Commands::DeviceCommand(req) => Step::Execute(rx, ctx, Target::Device, req),
                Commands::RequestCommand(req) => Step::Execute(rx, ctx, Target::Probe, req),
                Commands::Connect(_) => Step::Emit(
                    Some(WorkerEvent::Error(String::from_str("Invalid Command"))),
                    WorkerState::Error,
                ),
            },
        },
        WorkerState::Error => Step::Emit(
            Some(WorkerEvent::Error(String::from_str("error"))),
            WorkerState::Error,
        ),
    }
}

/// The step after opening a transport: the session handle, or the reason it
/// could not be opened. The receiver is kept either way.
pub fn connect_outcome<S, R, C>(rx: R, opened: Result<C, String>) -> (r: (
    Option<WorkerEvent<S>>,
    WorkerState<R, C>,
))
    ensures
        match opened {
            Ok(c) => r.0 == Some(WorkerEvent::<S>::Connected) && r.1 == WorkerState::Connected(
                rx,
                c,
            ),
            Err(m) => r.0 == Some(WorkerEvent::<S>::Error(m)) && r.1 == WorkerState::<R, C>::Ready(
                rx,
            ),
        },
        (r.1.mode(), signal_of(r.0)) == after_open(
            match opened {
                Ok(_) => Ok(()),
                Err(m) => Err(m@),
            },
        ),
{
    match opened {
        Ok(ctx) => (Some(WorkerEvent::Connected), WorkerState::Connected(rx, ctx)),
        Err(e) => (Some(WorkerEvent::Error(e)), WorkerState::Ready(rx)),
    }
}

/// The step after a round-trip for `target` on `req`: the response, or the
/// reason the exchange failed. The connection stays up either way.
pub fn call_outcome<S, R, C>(
    rx: R,
    ctx: C,
    target: Target,
    req: Request,
    replied: Result<Response, String>,
) -> (r: (Option<WorkerEvent<S>>, WorkerState<R, C>))
    ensures
        r.1 == WorkerState::Connected(rx, ctx),
        r.0 == match replied {
            Ok(resp) => Some(
                match target {
                    Target::Device => WorkerEvent::<S>::DeviceResponse(req, resp),
                    Target::Probe => WorkerEvent::<S>::RequestResponse(req, resp),
                },
            ),
            Err(m) => Some(WorkerEvent::<S>::Error(m)),
        },
        (r.1.mode(), signal_of(r.0)) == after_call(
            target,
            req,
            match replied {
                Ok(resp) => Ok(resp),
                Err(m) => Err(m@),
            },
        ),
{
    match replied {
        Ok(resp) => match target {
            Target::Device => (
                Some(WorkerEvent::DeviceResponse(req, resp)),
                WorkerState::Connected(rx, ctx),
            ),
            Target::Probe => (
                Some(WorkerEvent::RequestResponse(req, resp)),
                WorkerState::Connected(rx, ctx),
            ),
        },
        Err(e) => (Some(WorkerEvent::Error(e)), WorkerState::Connected(rx, ctx)),
    }
}

/// One pass of the loop as seen from outside: what was received, and how the
/// transport work would turn out if the decision asks for it.
pub struct Tick {
    pub received: Option<Commands>,
    pub opened: Result<(), Seq<char>>,
    pub replied: Result<Response, Seq<char>>,
}

/// Mode and signal after one pass of the loop in `mode`.
pub open spec fn react(mode: Mode, tick: Tick) -> (Mode, Option<Signal>) {
    match decide(mode, tick.received) {
        Decision::Settle(m, sig) => (m, sig),
        Decision::Open(_) => after_open(tick.opened),
        Decision::Call(target, req) => after_call(target, req, tick.replied),
    }
}

pub open spec fn emitted(sig: Option<Signal>) -> Seq<Signal> {
    match sig {
        Some(x) => seq![x],
        None => Seq::empty(),
    }
}

/// The mode after the passes `ticks`, started in `mode`, and the signals
/// emitted on the way, in order.
pub open spec fn run(mode: Mode, ticks: Seq<Tick>) -> (Mode, Seq<Signal>)
    decreases ticks.len(),
{
    if ticks.len() == 0 {
        (mode, Seq::empty())
    } else {
        let before = run(mode, ticks.drop_last());
        let after = react(before.0, ticks.last());
        (after.0, before.1 + emitted(after.1))
    }
}

/// Every pass emits exactly one event, except a `Nothing` command while
/// connected, which emits none.
pub proof fn lemma_one_event_per_command(mode: Mode, tick: Tick)
    ensures
        react(mode, tick).1 is None <==> (mode == Mode::Connected && tick.received == Some(
            Commands::Nothing,
        )),
{
}

/// Events come out in the order the commands went in: the events of a longer
/// run are those of the shorter run followed by the event of the last pass.
pub proof fn lemma_events_in_order(mode: Mode, ticks: Seq<Tick>, tick: Tick)
    ensures
        run(mode, ticks.push(tick)).1 == run(mode, ticks).1 + emitted(
            react(run(mode, ticks).0, tick).1,
        ),
        run(mode, ticks.push(tick)).0 == react(run(mode, ticks).0, tick).0,
{
    assert(ticks.push(tick).drop_last() =~= ticks);
}

/// A run emits one event per pass, no more; exactly one where no `Nothing`
/// command is received.
pub proof fn lemma_event_count(mode: Mode, ticks: Seq<Tick>)
    ensures
        run(mode, ticks).1.len() <= ticks.len(),
        (forall|i: int| 0 <= i < ticks.len() ==> #[trigger] ticks[i].received != Some(Commands::Nothing))
            ==> run(mode, ticks).1.len() == ticks.len(),
    decreases ticks.len(),
{
    if ticks.len() > 0 {
        let init = ticks.drop_last();
        lemma_event_count(mode, init);
        lemma_one_event_per_command(run(mode, init).0, ticks.last());
        if forall|i: int| 0 <= i < ticks.len() ==> #[trigger] ticks[i].received != Some(Commands::Nothing) {
            assert forall|i: int| 0 <= i < init.len() implies #[trigger] init[i].received != Some(Commands::Nothing) by {
                assert(init[i] == ticks[i]);
            }
            assert(ticks.last().received != Some(Commands::Nothing)) by {
                assert(ticks[ticks.len() - 1].received != Some(Commands::Nothing));
            }
        }
    }
}

/// The halted machine stays halted and answers every pass with `Error("error")`.
pub proof fn lemma_halted_stays_halted(ticks: Seq<Tick>)
    ensures
        run(Mode::Halted, ticks).0 == Mode::Halted,
        run(Mode::Halted, ticks).1 == Seq::new(ticks.len(), |i: int| Signal::Error("error"@)),
    decreases ticks.len(),
{
    if ticks.len() > 0 {
        lemma_halted_stays_halted(ticks.drop_last());
        assert(run(Mode::Halted, ticks).1 =~= Seq::new(ticks.len(), |i: int| Signal::Error("error"@)));
    }
}

/// A connect while connected emits `Error("Invalid Command")` and halts the
/// machine for good: every later pass emits `Error("error")`.
pub proof fn lemma_connect_while_connected(tick: Tick, later: Seq<Tick>)
    requires
        tick.received matches Some(Commands::Connect(_)),
    ensures
        react(Mode::Connected, tick) == (Mode::Halted, Some(Signal::Error("Invalid Command"@))),
        run(Mode::Connected, seq![tick] + later).0 == Mode::Halted,
        run(Mode::Connected, seq![tick] + later).1 == seq![Signal::Error("Invalid Command"@)] + Seq::new(
            later.len(),
            |i: int| Signal::Error("error"@),
        ),
    decreases later.len(),
{
    let all = seq![tick] + later;
    let halted = seq![Signal::Error("Invalid Command"@)] + Seq::new(
        later.len(),
        |i: int| Signal::Error("error"@),
    );
    if later.len() == 0 {
        assert(all.drop_last() =~= Seq::<Tick>::empty());
        assert(all.last() == tick);
        assert(run(Mode::Connected, all.drop_last()) == (Mode::Connected, Seq::<Signal>::empty()));
        assert(run(Mode::Connected, all).1 =~= halted);
    } else {
        let init = later.drop_last();
        lemma_connect_while_connected(tick, init);
        assert(all.drop_last() =~= seq![tick] + init);
        assert(all.last() == later.last());
        assert(run(Mode::Connected, all).1 =~= halted);
    }
}

/// A failed connect leaves the machine ready, reporting the failure, and a
/// later connect that succeeds brings it to connected.
pub proof fn lemma_failed_connect_recovers(failed: Tick, retry: Tick)
    requires
        failed.received matches Some(Commands::Connect(_)),
        failed.opened is Err,
        retry.received matches Some(Commands::Connect(_)),
        retry.opened is Ok,
    ensures
        react(Mode::Ready, failed) == (Mode::Ready, Some(Signal::Error(failed.opened->Err_0))),
        run(Mode::Ready, seq![failed, retry]) == (
            Mode::Connected,
            seq![Signal::Error(failed.opened->Err_0), Signal::Connected],
        ),
{
    let two = seq![failed, retry];
    let one = seq![failed];
    assert(one.drop_last() =~= Seq::<Tick>::empty());
    assert(run(Mode::Ready, one.drop_last()) == (Mode::Ready, Seq::<Signal>::empty()));
    assert(run(Mode::Ready, one).1 =~= seq![Signal::Error(failed.opened->Err_0)]);
    assert(two.drop_last() =~= one);
    assert(run(Mode::Ready, two).1 =~= seq![Signal::Error(failed.opened->Err_0), Signal::Connected]);
}

/// The sender is handed out exactly once, by the first pass, and no pass
/// leads back to `Disconnected`.
pub proof fn lemma_handle_ready_once(ticks: Seq<Tick>)
    ensures
        ticks.len() > 0 ==> run(Mode::Disconnected, ticks).0 != Mode::Disconnected,
        ticks.len() > 0 ==> run(Mode::Disconnected, ticks).1.len() > 0 && run(
            Mode::Disconnected,
            ticks,
        ).1[0] == Signal::Handle,
        forall|i: int|
            0 < i < run(Mode::Disconnected, ticks).1.len() ==> !(#[trigger] run(
                Mode::Disconnected,
                ticks,
            ).1[i] is Handle),
    decreases ticks.len(),
{
    if ticks.len() == 1 {
        assert(ticks.drop_last() =~= Seq::<Tick>::empty());
        assert(run(Mode::Disconnected, ticks.drop_last()) == (
            Mode::Disconnected,
            Seq::<Signal>::empty(),
        ));
        assert(run(Mode::Disconnected, ticks).1 =~= seq![Signal::Handle]);
    } else if ticks.len() > 1 {
        let init = ticks.drop_last();
        lemma_handle_ready_once(init);
        let before = run(Mode::Disconnected, init);
        let after = react(before.0, ticks.last());
        assert(after.0 != Mode::Disconnected);
        assert(after.1 matches Some(x) ==> !(x is Handle));
        let all = run(Mode::Disconnected, ticks).1;
        assert(all == before.1 + emitted(after.1));
        assert forall|i: int| 0 < i < all.len() implies !(#[trigger] all[i] is Handle) by {
            if i < before.1.len() {
                assert(all[i] == before.1[i]);
            }
        }
    }
}

} // verus!
