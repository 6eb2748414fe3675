//! The presence-update actor.
//!
//! A `DiscordRpc` handle enqueues commands onto an unbounded FIFO queue; a
//! single `Worker` dequeues them in submission order and applies them to its
//! connection state machine, which says which calls the presence client
//! adapter must make, in order. The adapter itself (the process that talks
//! to the presence service) runs outside this crate and executes the
//! returned `AdapterCall`s one by one, reporting a failed call back through
//! `WorkerState::on_call_failed`.

use vstd::prelude::*;

verus! {

/// A command a producer may send to the presence actor.
#[derive(Debug, Clone, PartialEq, Eq)]
pub enum RpcUpdates {
    /// Establish the connection; a no-op while already connected
    Connect,
    /// Terminate the connection; a no-op while already disconnected
    Disconnect,
    /// Overwrite the activity snapshot; pushed at once while connected,
    /// kept for the next `Connect` otherwise
    UpdateActivity { title: String, subtitle: String, icon: String },
    /// Clear the displayed activity; a no-op while disconnected
    ClearActivity,
}

/// The activity snapshot the worker owns: what the presence service should
/// display, and the application identifier the connection is made under.
/// `app_id` never changes after construction; the other fields are
/// overwritten by each `UpdateActivity` command.
#[derive(Debug, Clone, PartialEq, Eq)]
pub struct RpcConfig {
    pub app_id: u64,
    pub title: String,
    pub subtitle: String,
    pub icon: String,
}

/// One call the worker asks the presence client adapter to make.
#[derive(Debug, Clone, PartialEq, Eq)]
pub enum AdapterCall {
    /// `connect()`
    Connect,
    /// `set_activity(..)` with the snapshot fields as of this step
    SetActivity { title: String, subtitle: String, icon: String },
    /// `clear_activity()`
    ClearActivity,
    /// `close()`
    Close,
}

/// The worker's connection state machine: a two-state flag and the
/// mutable activity snapshot, owned exclusively by the worker.
pub struct WorkerState {
    /// Whether the adapter currently holds an open connection
    pub connected: bool,
    /// The current activity snapshot
    pub config: RpcConfig,
}

impl WorkerState {
    /// What one command does: the state after it, and the adapter calls it
    /// requires, in order. Duplicate `Connect`/`Disconnect` are no-ops; an
    /// activity update always lands in the snapshot but reaches the adapter
    /// only while connected; `Connect` pushes the current snapshot right
    /// after connecting.
    pub open spec fn spec_step(pre: WorkerState, cmd: RpcUpdates) -> (WorkerState, Seq<AdapterCall>) {
        match cmd {
            RpcUpdates::Connect => {
                if pre.connected {
                    (pre, Seq::<AdapterCall>::empty())
                } else {
                    (
                        WorkerState { connected: true, config: pre.config },
                        seq![
                            AdapterCall::Connect,
                            AdapterCall::SetActivity {
                                title: pre.config.title,
                                subtitle: pre.config.subtitle,
                                icon: pre.config.icon,
                            },
                        ],
                    )
                }
            },
            RpcUpdates::Disconnect => {
                if pre.connected {
                    (
                        WorkerState { connected: false, config: pre.config },
                        seq![AdapterCall::Close],
                    )
                } else {
                    (pre, Seq::<AdapterCall>::empty())
                }
            },
            RpcUpdates::UpdateActivity { title, subtitle, icon } => {
                let post = WorkerState {
                    connected: pre.connected,
                    config: RpcConfig { app_id: pre.config.app_id, title, subtitle, icon },
                };
                if pre.connected {
                    (post, seq![AdapterCall::SetActivity { title, subtitle, icon }])
                } else {
                    (post, Seq::<AdapterCall>::empty())
                }
            },
            RpcUpdates::ClearActivity => {
                if pre.connected {
                    (pre, seq![AdapterCall::ClearActivity])
                } else {
                    (pre, Seq::<AdapterCall>::empty())
                }
            },
        }
    }

    /// A fresh state: disconnected, holding the caller's initial snapshot.
    pub fn new(config: RpcConfig) -> (r: WorkerState)
        ensures
            !r.connected,
            r.config == config,
    {
        WorkerState { connected: false, config }
    }

    /// Apply one command: advance the state machine and return the adapter
    /// calls the command requires, in order.
    pub fn step(&mut self, cmd: RpcUpdates) -> (calls: Vec<AdapterCall>)
        ensures
            *final(self) == Self::spec_step(*old(self), cmd).0,
            calls@ == Self::spec_step(*old(self), cmd).1,
    {
        let mut calls: Vec<AdapterCall> = Vec::new();
        match cmd {
            RpcUpdates::Connect => {
                if !self.connected {
                    self.connected = true;
                    calls.push(AdapterCall::Connect);
                    calls.push(AdapterCall::SetActivity {
                        title: self.config.title.clone(),
                        subtitle: self.config.subtitle.clone(),
                        icon: self.config.icon.clone(),
                    });
                }
            },
            RpcUpdates::Disconnect => {
                if self.connected {
                    self.connected = false;
                    calls.push(AdapterCall::Close);
                }
            },
            RpcUpdates::UpdateActivity { title, subtitle, icon } => {
                if self.connected {
                    calls.push(AdapterCall::SetActivity {
                        title: title.clone(),
                        subtitle: subtitle.clone(),
                        icon: icon.clone(),
                    });
                }
                self.config.title = title;
                self.config.subtitle = subtitle;
                self.config.icon = icon;
            },
            RpcUpdates::ClearActivity => {
                if self.connected {
                    calls.push(AdapterCall::ClearActivity);
                }
            },
        }
        proof {
            assert(calls@ =~= Self::spec_step(*old(self), cmd).1);
        }
        calls
    }

    /// Restore consistency after the adapter reported a failed call, per
    /// the error policy: a failed `connect` leaves the state disconnected,
    /// a failed `close` abandons the connection (disconnected either way),
    /// a failed activity push or clear changes nothing. The snapshot is
    /// kept, and the worker goes on with the next command.
    pub fn on_call_failed(&mut self, call: &AdapterCall)
        ensures
            final(self).config == old(self).config,
            final(self).connected == (old(self).connected && !(*call is Connect) && !(*call
                is Close)),
    {
        match call {
            AdapterCall::Connect => {
                self.connected = false;
            },
            AdapterCall::Close => {
                self.connected = false;
            },
            _ => {},
        }
    }
}

/// Error returned by `DiscordRpc::update` when the worker has terminated
/// and the command queue is closed; carries the undelivered command back.
#[derive(Debug, Clone, PartialEq, Eq)]
pub struct SendFailed(pub RpcUpdates);

#[verifier::external_type_specification]
#[verifier::external_body]
#[verifier::reject_recursive_types(T)]
pub struct ExSender<T>(std::sync::mpsc::Sender<T>);

#[verifier::external_type_specification]
#[verifier::external_body]
#[verifier::reject_recursive_types(T)]
pub struct ExReceiver<T>(std::sync::mpsc::Receiver<T>);

/// Relies on std::sync::mpsc::channel: the returned sender and receiver are
/// the two ends of one unbounded FIFO queue; what is sent through the
/// sender comes out of the receiver in submission order.
#[verifier::external_body]
fn command_channel() -> (r: (
    std::sync::mpsc::Sender<RpcUpdates>,
    std::sync::mpsc::Receiver<RpcUpdates>,
))
{
    std::sync::mpsc::channel()
}

/// Relies on Sender::send: never blocks and never panics; enqueues the
/// command unless the receiving end has been dropped, in which case it
/// hands the command back.
#[verifier::external_body]
fn send_command(
    sender: &std::sync::mpsc::Sender<RpcUpdates>,
    cmd: RpcUpdates,
) -> (r: Result<(), RpcUpdates>)
    ensures
        (r matches Err(c) ==> c == cmd),
    opens_invariants none
    no_unwind
{
    match sender.send(cmd) {
        Ok(()) => Ok(()),
        Err(std::sync::mpsc::SendError(c)) => Err(c),
    }
}

/// Relies on Receiver::recv: blocks until a command arrives (`Some`), or
/// until every sender has been dropped and the queue is drained (`None`).
/// Which of the two happens depends on the other threads, so nothing more
/// can be promised of the result.
#[verifier::external_body]
fn recv_command(receiver: &std::sync::mpsc::Receiver<RpcUpdates>) -> (r: Option<RpcUpdates>) {
    match receiver.recv() {
        Ok(cmd) => Some(cmd),
        Err(std::sync::mpsc::RecvError) => None,
    }
}

/// The caller-facing handle of the actor: owns the send end of the command
/// queue. Dropping the handle enqueues a best-effort `Disconnect`, then
/// lets the worker drain the queue and exit.
pub struct DiscordRpc {
    sender: std::sync::mpsc::Sender<RpcUpdates>,
}

/// The consumer side of the actor: the receive end of the command queue
/// and the connection state machine. The surrounding application runs the
/// loop on a dedicated thread: wait with `recv`, advance with
/// `state.step`, execute the returned adapter calls in order, and on the
/// first failed call report it with `state.on_call_failed` and drop the
/// rest of that command's calls.
pub struct Worker {
    receiver: std::sync::mpsc::Receiver<RpcUpdates>,
    /// The connection state machine and activity snapshot
    pub state: WorkerState,
}

impl DiscordRpc {
    /// Create the actor: the handle, and the worker that will consume its
    /// commands. The worker starts disconnected, holding the given
    /// snapshot.
    pub fn new(config: RpcConfig) -> (r: (DiscordRpc, Worker))
        ensures
            !r.1.spec_state().connected,
            r.1.spec_state().config == config,
    {
        let (sender, receiver) = command_channel();
        (DiscordRpc { sender }, Worker { receiver, state: WorkerState::new(config) })
    }

    /// Enqueue a command for the worker. Never blocks; fails exactly when
    /// the worker has terminated, handing the command back.
    pub fn update(&self, update: RpcUpdates) -> (r: Result<(), SendFailed>)
        ensures
            (r matches Err(e) ==> e.0 == update),
    {
        match send_command(&self.sender, update) {
            Ok(()) => Ok(()),
            Err(cmd) => Err(SendFailed(cmd)),
        }
    }
}

impl Drop for DiscordRpc {
    /// Teardown: enqueue a best-effort `Disconnect` so the worker closes a
    /// connection left open before it exits; ignored when the worker is
    /// already gone.
    fn drop(&mut self)
        opens_invariants none
        no_unwind
    {
        let _ = send_command(&self.sender, RpcUpdates::Disconnect);
    }
}

impl Worker {
    /// The current value of the worker's state machine (the `state` field;
    /// spelled as a function because the queue end beside it is opaque).
    pub closed spec fn spec_state(&self) -> WorkerState {
        self.state
    }

    /// Wait for the next command: `Some` when one arrives, `None` once
    /// every handle is dropped and the queue is drained — the worker then
    /// exits.
    pub fn recv(&self) -> Option<RpcUpdates> {
        recv_command(&self.receiver)
    }
}

// What follows states the actor's laws: what whole command sequences do,
// assuming every adapter call succeeds.

/// The state and adapter calls a whole command sequence produces, first
/// command first.
pub open spec fn spec_run(pre: WorkerState, cmds: Seq<RpcUpdates>) -> (WorkerState, Seq<
    AdapterCall,
>)
    decreases cmds.len(),
{
    if cmds.len() == 0 {
        (pre, Seq::<AdapterCall>::empty())
    } else {
        let first = WorkerState::spec_step(pre, cmds[0]);
        let rest = spec_run(first.0, cmds.drop_first());
        (rest.0, first.1 + rest.1)
    }
}

/// How many `connect` calls a call sequence holds.
pub open spec fn count_connects(calls: Seq<AdapterCall>) -> nat
    decreases calls.len(),
{
    if calls.len() == 0 {
        0
    } else {
        (if calls[0] is Connect {
            1nat
        } else {
            0nat
        }) + count_connects(calls.drop_first())
    }
}

/// How many `close` calls a call sequence holds.
pub open spec fn count_closes(calls: Seq<AdapterCall>) -> nat
    decreases calls.len(),
{
    if calls.len() == 0 {
        0
    } else {
        (if calls[0] is Close {
            1nat
        } else {
            0nat
        }) + count_closes(calls.drop_first())
    }
}

/// 1 while a state holds an open connection, else 0.
pub open spec fn open_connections(s: WorkerState) -> nat {
    if s.connected {
        1
    } else {
        0
    }
}

proof fn lemma_count_one(c: AdapterCall)
    ensures
        count_connects(seq![c]) == (if c is Connect {
            1nat
        } else {
            0nat
        }),
        count_closes(seq![c]) == (if c is Close {
            1nat
        } else {
            0nat
        }),
{
    assert(seq![c].drop_first() =~= Seq::<AdapterCall>::empty());
    assert(count_connects(Seq::<AdapterCall>::empty()) == 0);
    assert(count_closes(Seq::<AdapterCall>::empty()) == 0);
}

proof fn lemma_count_two(c1: AdapterCall, c2: AdapterCall)
    ensures
        count_connects(seq![c1, c2]) == count_connects(seq![c1]) + count_connects(seq![c2]),
        count_closes(seq![c1, c2]) == count_closes(seq![c1]) + count_closes(seq![c2]),
{
    assert(seq![c1, c2].drop_first() =~= seq![c2]);
    lemma_count_one(c1);
    lemma_count_one(c2);
}

proof fn lemma_counts_concat(a: Seq<AdapterCall>, b: Seq<AdapterCall>)
    ensures
        count_connects(a + b) == count_connects(a) + count_connects(b),
        count_closes(a + b) == count_closes(a) + count_closes(b),
    decreases a.len(),
{
    if a.len() == 0 {
        assert(a + b =~= b);
    } else {
        assert((a + b).drop_first() =~= a.drop_first() + b);
        lemma_counts_concat(a.drop_first(), b);
    }
}

/// One step keeps the balance: the `connect` calls it issues, minus the
/// `close` calls, equal the change in open connections.
proof fn lemma_step_balance(pre: WorkerState, cmd: RpcUpdates)
    ensures
        count_connects(WorkerState::spec_step(pre, cmd).1) + open_connections(pre)
            == count_closes(WorkerState::spec_step(pre, cmd).1) + open_connections(
            WorkerState::spec_step(pre, cmd).0,
        ),
{
    let calls = WorkerState::spec_step(pre, cmd).1;
    match cmd {
        RpcUpdates::Connect => {
            if !pre.connected {
                lemma_count_two(calls[0], calls[1]);
                lemma_count_one(calls[0]);
                lemma_count_one(calls[1]);
                assert(calls =~= seq![calls[0], calls[1]]);
            } else {
                assert(calls =~= Seq::<AdapterCall>::empty());
            }
        },
        RpcUpdates::Disconnect => {
            if pre.connected {
                lemma_count_one(calls[0]);
                assert(calls =~= seq![calls[0]]);
            } else {
                assert(calls =~= Seq::<AdapterCall>::empty());
            }
        },
        RpcUpdates::UpdateActivity { title, subtitle, icon } => {
            if pre.connected {
                lemma_count_one(calls[0]);
                assert(calls =~= seq![calls[0]]);
            } else {
                assert(calls =~= Seq::<AdapterCall>::empty());
            }
        },
        RpcUpdates::ClearActivity => {
            if pre.connected {
                lemma_count_one(calls[0]);
                assert(calls =~= seq![calls[0]]);
            } else {
                assert(calls =~= Seq::<AdapterCall>::empty());
            }
        },
    }
}

/// Connects and closes balance over any run: the `connect` calls issued,
/// minus the `close` calls, equal the change in open connections. In
/// particular the adapter's `connect` runs at most once per transition
/// into the connected state, and `close` at most once out of it.
pub proof fn lemma_connect_close_balance(pre: WorkerState, cmds: Seq<RpcUpdates>)
    ensures
        count_connects(spec_run(pre, cmds).1) + open_connections(pre) == count_closes(
            spec_run(pre, cmds).1,
        ) + open_connections(spec_run(pre, cmds).0),
    decreases cmds.len(),
{
    if cmds.len() == 0 {
    } else {
        let first = WorkerState::spec_step(pre, cmds[0]);
        lemma_step_balance(pre, cmds[0]);
        lemma_counts_concat(first.1, spec_run(first.0, cmds.drop_first()).1);
        lemma_connect_close_balance(first.0, cmds.drop_first());
    }
}

/// A run of a concatenation is the two runs chained: the second starts in
/// the state the first ends in, and the calls are those of the first
/// followed by those of the second.
pub proof fn lemma_run_concat(pre: WorkerState, a: Seq<RpcUpdates>, b: Seq<RpcUpdates>)
    ensures
        spec_run(pre, a + b).0 == spec_run(spec_run(pre, a).0, b).0,
        spec_run(pre, a + b).1 == spec_run(pre, a).1 + spec_run(spec_run(pre, a).0, b).1,
    decreases a.len(),
{
    if a.len() == 0 {
        assert(a + b =~= b);
        assert(Seq::<AdapterCall>::empty() + spec_run(pre, b).1 =~= spec_run(pre, b).1);
    } else {
        let first = WorkerState::spec_step(pre, a[0]);
        assert((a + b).drop_first() =~= a.drop_first() + b);
        lemma_run_concat(first.0, a.drop_first(), b);
        assert(first.1 + (spec_run(first.0, a.drop_first()).1 + spec_run(
            spec_run(pre, a).0,
            b,
        ).1) =~= (first.1 + spec_run(first.0, a.drop_first()).1) + spec_run(
            spec_run(pre, a).0,
            b,
        ).1);
    }
}

/// Idempotence of `Connect`: the second of two adjacent `Connect` commands
/// is a no-op — it changes nothing and issues no adapter call — so from a
/// disconnected state the pair issues exactly one `connect`.
pub proof fn lemma_connect_idempotent(pre: WorkerState)
    ensures
        ({
            let once = WorkerState::spec_step(pre, RpcUpdates::Connect);
            let twice = WorkerState::spec_step(once.0, RpcUpdates::Connect);
            &&& twice.0 == once.0
            &&& twice.1 == Seq::<AdapterCall>::empty()
            &&& !pre.connected ==> count_connects(once.1 + twice.1) == 1
        }),
{
    let once = WorkerState::spec_step(pre, RpcUpdates::Connect);
    if !pre.connected {
        lemma_count_two(once.1[0], once.1[1]);
        lemma_count_one(once.1[0]);
        lemma_count_one(once.1[1]);
        assert(once.1 =~= seq![once.1[0], once.1[1]]);
        assert(once.1 + Seq::<AdapterCall>::empty() =~= once.1);
    }
}

/// Idempotence of `Disconnect`: the second of two adjacent `Disconnect`
/// commands is a no-op, so from a connected state the pair issues exactly
/// one `close`.
pub proof fn lemma_disconnect_idempotent(pre: WorkerState)
    ensures
        ({
            let once = WorkerState::spec_step(pre, RpcUpdates::Disconnect);
            let twice = WorkerState::spec_step(once.0, RpcUpdates::Disconnect);
            &&& twice.0 == once.0
            &&& twice.1 == Seq::<AdapterCall>::empty()
            &&& pre.connected ==> count_closes(once.1 + twice.1) == 1
        }),
{
    let once = WorkerState::spec_step(pre, RpcUpdates::Disconnect);
    if pre.connected {
        lemma_count_one(once.1[0]);
        assert(once.1 =~= seq![once.1[0]]);
        assert(once.1 + Seq::<AdapterCall>::empty() =~= once.1);
    }
}

/// Deferred update: an activity update while disconnected issues no
/// adapter call but lands in the snapshot; a `Connect` right after pushes
/// exactly that latest snapshot, once.
pub proof fn lemma_deferred_update(
    pre: WorkerState,
    title: String,
    subtitle: String,
    icon: String,
)
    requires
        !pre.connected,
    ensures
        ({
            let upd = RpcUpdates::UpdateActivity { title, subtitle, icon };
            let after = WorkerState::spec_step(pre, upd);
            let run = spec_run(pre, seq![upd, RpcUpdates::Connect]);
            &&& after.1 == Seq::<AdapterCall>::empty()
            &&& after.0.config == (RpcConfig { app_id: pre.config.app_id, title, subtitle, icon })
            &&& run.1 == seq![
                AdapterCall::Connect,
                AdapterCall::SetActivity { title, subtitle, icon },
            ]
            &&& run.0.connected
        }),
{
    let upd = RpcUpdates::UpdateActivity { title, subtitle, icon };
    let cmds = seq![upd, RpcUpdates::Connect];
    let tail = seq![RpcUpdates::Connect];
    let after = WorkerState::spec_step(pre, upd);
    let second = WorkerState::spec_step(after.0, RpcUpdates::Connect);
    assert(cmds.drop_first() =~= tail);
    assert(tail.drop_first() =~= Seq::<RpcUpdates>::empty());
    assert(spec_run(second.0, Seq::<RpcUpdates>::empty()).1 == Seq::<AdapterCall>::empty());
    assert(spec_run(after.0, tail).1 =~= second.1);
    assert(spec_run(pre, cmds).1 =~= after.1 + spec_run(after.0, tail).1);
    assert(spec_run(pre, cmds).1 =~= seq![
        AdapterCall::Connect,
        AdapterCall::SetActivity { title, subtitle, icon },
    ]);
}

/// Whether every command in a sequence is an activity update.
pub open spec fn all_updates(cmds: Seq<RpcUpdates>) -> bool {
    forall|i: int| 0 <= i < cmds.len() ==> cmds[i] is UpdateActivity
}

/// The activity push an update command maps to.
pub open spec fn push_of(cmd: RpcUpdates) -> AdapterCall {
    match cmd {
        RpcUpdates::UpdateActivity { title, subtitle, icon } => AdapterCall::SetActivity {
            title,
            subtitle,
            icon,
        },
        _ => arbitrary(),
    }
}

/// Order preservation: while connected, a sequence of activity updates
/// reaches the adapter as the same pushes in the same order, and the
/// snapshot afterwards shows exactly the last update sent.
pub proof fn lemma_update_order(pre: WorkerState, cmds: Seq<RpcUpdates>)
    requires
        pre.connected,
        all_updates(cmds),
    ensures
        spec_run(pre, cmds).1 == cmds.map_values(|c: RpcUpdates| push_of(c)),
        spec_run(pre, cmds).0.connected,
        cmds.len() == 0 ==> spec_run(pre, cmds).0 == pre,
        cmds.len() > 0 ==> (cmds.last() matches RpcUpdates::UpdateActivity {
            title,
            subtitle,
            icon,
        } && spec_run(pre, cmds).0.config == (RpcConfig {
            app_id: pre.config.app_id,
            title,
            subtitle,
            icon,
        })),
    decreases cmds.len(),
{
    let f = |c: RpcUpdates| push_of(c);
    if cmds.len() == 0 {
        assert(spec_run(pre, cmds).1 =~= cmds.map_values(f));
    } else {
        let first = WorkerState::spec_step(pre, cmds[0]);
        let tail = cmds.drop_first();
        assert(cmds[0] is UpdateActivity);
        assert(all_updates(tail)) by {
            assert(forall|i: int| 0 <= i < tail.len() ==> tail[i] == cmds[i + 1]);
        }
        lemma_update_order(first.0, tail);
        assert(spec_run(pre, cmds).1 =~= cmds.map_values(f)) by {
            assert(first.1 =~= seq![push_of(cmds[0])]);
            assert(spec_run(first.0, tail).1 == tail.map_values(f));
            assert(forall|i: int|
                0 <= i < cmds.len() ==> #[trigger] cmds.map_values(f)[i] == f(cmds[i]));
            assert(forall|i: int| 0 <= i < tail.len() ==> #[trigger] tail[i] == cmds[i + 1]);
        }
        if cmds.len() > 1 {
            assert(cmds.last() == tail.last());
        }
    }
}

/// Teardown: starting disconnected, any command history followed by a
/// final `Disconnect` — the command a dropped handle enqueues — ends
/// disconnected, with exactly as many `close` as `connect` calls: no
/// connection is left open.
pub proof fn lemma_teardown(config: RpcConfig, cmds: Seq<RpcUpdates>)
    ensures
        ({
            let fresh = WorkerState { connected: false, config };
            let run = spec_run(fresh, cmds.push(RpcUpdates::Disconnect));
            &&& !run.0.connected
            &&& count_closes(run.1) == count_connects(run.1)
        }),
{
    let fresh = WorkerState { connected: false, config };
    let all = cmds.push(RpcUpdates::Disconnect);
    assert(all =~= cmds + seq![RpcUpdates::Disconnect]);
    lemma_run_concat(fresh, cmds, seq![RpcUpdates::Disconnect]);
    let mid = spec_run(fresh, cmds).0;
    let dseq = seq![RpcUpdates::Disconnect];
    let stepd = WorkerState::spec_step(mid, RpcUpdates::Disconnect);
    assert(dseq.drop_first() =~= Seq::<RpcUpdates>::empty());
    assert(spec_run(stepd.0, Seq::<RpcUpdates>::empty()).0 == stepd.0);
    assert(spec_run(mid, dseq).0 == stepd.0);
    assert(!stepd.0.connected);
    assert(!spec_run(fresh, all).0.connected);
    lemma_connect_close_balance(fresh, all);
}

/// Teardown, concretely: from a fresh state, a `Connect` followed by the
/// final `Disconnect` makes exactly three adapter calls — connect, the
/// snapshot push, and one close.
pub proof fn lemma_teardown_once(config: RpcConfig)
    ensures
        ({
            let fresh = WorkerState { connected: false, config };
            let run = spec_run(fresh, seq![RpcUpdates::Connect, RpcUpdates::Disconnect]);
            &&& run.1 == seq![
                AdapterCall::Connect,
                AdapterCall::SetActivity {
                    title: config.title,
                    subtitle: config.subtitle,
                    icon: config.icon,
                },
                AdapterCall::Close,
            ]
            &&& count_closes(run.1) == 1
            &&& !run.0.connected
        }),
{
    let fresh = WorkerState { connected: false, config };
    let cmds = seq![RpcUpdates::Connect, RpcUpdates::Disconnect];
    let dseq = seq![RpcUpdates::Disconnect];
    let s1 = WorkerState::spec_step(fresh, RpcUpdates::Connect);
    let s2 = WorkerState::spec_step(s1.0, RpcUpdates::Disconnect);
    assert(cmds.drop_first() =~= dseq);
    assert(dseq.drop_first() =~= Seq::<RpcUpdates>::empty());
    assert(spec_run(s2.0, Seq::<RpcUpdates>::empty()).1 == Seq::<AdapterCall>::empty());
    assert(spec_run(s1.0, dseq).1 =~= s2.1);
    assert(spec_run(fresh, cmds).1 =~= s1.1 + spec_run(s1.0, dseq).1);
    let run = spec_run(fresh, cmds);
    assert(run.1 =~= seq![
        AdapterCall::Connect,
        AdapterCall::SetActivity {
            title: config.title,
            subtitle: config.subtitle,
            icon: config.icon,
        },
        AdapterCall::Close,
    ]);
    lemma_count_one(run.1[2]);
    lemma_count_two(run.1[1], run.1[2]);
    assert(seq![run.1[1], run.1[2]] =~= run.1.drop_first());
    lemma_count_one(run.1[1]);
}

} // verus!
