//! Messages between the tray daemon and its dialog windows: the daemon's
//! published status, and the bounded queue of commands the dialogs send
//! it. The files that carry them are read and written by the caller.

use vstd::prelude::*;

verus! {

/// Cap on the command queue, so that a slow consumer cannot accumulate an
/// unbounded backlog.
pub const MAX_COMMAND_QUEUE: usize = 32;

/// What the daemon publishes for the dialogs.
#[derive(Debug, Clone)]
pub struct DaemonStatus {
    /// Human-readable VPN state: "Connected", "Disabled", "Enabling",
    /// "Dropped", "ServerUnreachable", or "SetupIncomplete".
    pub state: String,
    pub adapter: String,
    pub location: String,
    pub vpn_gateway: Option<String>,
    /// Unix timestamp of when the current connection was established.
    pub connected_since_unix: Option<u64>,
    pub message: Option<String>,
    pub updated_unix: u64,
}

/// A request from a dialog to the daemon.
#[derive(Debug, Clone, Copy, PartialEq, Eq, Structural)]
pub enum DaemonCommand {
    /// New settings were saved: reload the configuration.
    ReloadConfig,
    /// The location was switched while connected: reconnect.
    Reconnect,
    /// A setting that needs a full restart changed (e.g. language).
    Restart,
    /// Setup was closed without completing it: exit.
    Quit,
}

/// The queue after `cmd` is added: the newest commands, at most
/// `MAX_COMMAND_QUEUE` of them, oldest first.
pub open spec fn enqueued(q: Seq<DaemonCommand>, cmd: DaemonCommand) -> Seq<DaemonCommand> {
    let s = q.push(cmd);
    if s.len() > MAX_COMMAND_QUEUE {
        s.subrange(s.len() - MAX_COMMAND_QUEUE, s.len() as int)
    } else {
        s
    }
}

/// Add a command at the end of the queue, dropping the oldest ones beyond
/// the cap.
pub fn enqueue_command(queue: &mut Vec<DaemonCommand>, cmd: DaemonCommand)
    ensures
        final(queue)@ == enqueued(old(queue)@, cmd),
{
    let ghost s = old(queue)@.push(cmd);
    queue.push(cmd);
    if queue.len() > MAX_COMMAND_QUEUE {
        let overflow = queue.len() - MAX_COMMAND_QUEUE;
        let mut dropped: usize = 0;
        while dropped < overflow
            invariant
                s.len() == overflow + MAX_COMMAND_QUEUE,
                dropped <= overflow,
                queue@ == s.subrange(dropped as int, s.len() as int),
            decreases overflow - dropped,
        {
            queue.remove(0);
            dropped += 1;
        }
    }
}

/// Take the oldest command off the queue.
pub fn dequeue_command(queue: &mut Vec<DaemonCommand>) -> (cmd: Option<DaemonCommand>)
    ensures
        old(queue)@.len() == 0 ==> cmd is None && final(queue)@ == old(queue)@,
        old(queue)@.len() > 0 ==> cmd == Some(old(queue)@[0]) && final(queue)@
            == old(queue)@.drop_first(),
{
    if queue.len() == 0 {
        None
    } else {
        let c = queue.remove(0);
        Some(c)
    }
}

/// The queue that a command file holds: the list it parses to; else the
/// single command of the older one-command format; else nothing.
pub fn command_queue_from(
    as_list: Option<Vec<DaemonCommand>>,
    as_single: Option<DaemonCommand>,
) -> (q: Vec<DaemonCommand>)
    ensures
        match as_list {
            Some(l) => q@ == l@,
            None => match as_single {
                Some(c) => q@ == seq![c],
                None => q@.len() == 0,
            },
        },
{
    match as_list {
        Some(l) => l,
        None => match as_single {
            Some(c) => {
                let mut q = Vec::new();
                q.push(c);
                q
            },
            None => Vec::new(),
        },
    }
}

/// The queue never holds more than `MAX_COMMAND_QUEUE` commands once
/// anything has been added, keeps the newest ones in order, and gives them
/// back first in, first out: a command added to an empty queue is the one
/// taken next.
pub proof fn command_queue_is_bounded_fifo(q: Seq<DaemonCommand>, cmd: DaemonCommand)
    requires
        q.len() <= MAX_COMMAND_QUEUE,
    ensures
        enqueued(q, cmd).len() <= MAX_COMMAND_QUEUE,
        enqueued(q, cmd).last() == cmd,
        q.len() < MAX_COMMAND_QUEUE ==> enqueued(q, cmd) == q.push(cmd),
        q.len() == MAX_COMMAND_QUEUE ==> enqueued(q, cmd) == q.drop_first().push(cmd),
        enqueued(Seq::empty(), cmd)[0] == cmd,
{
    if q.len() == MAX_COMMAND_QUEUE {
        assert(q.push(cmd).subrange(1, (MAX_COMMAND_QUEUE + 1) as int) =~= q.drop_first().push(cmd));
    }
}

/// Whatever the queue held, once at least `MAX_COMMAND_QUEUE` commands have
/// been added one by one it holds exactly the newest `MAX_COMMAND_QUEUE` of
/// them, oldest first.
pub proof fn command_queue_keeps_newest(q: Seq<DaemonCommand>, cmds: Seq<DaemonCommand>)
    ensures
        cmds.len() >= MAX_COMMAND_QUEUE ==> add_all(q, cmds) == cmds.subrange(
            cmds.len() - MAX_COMMAND_QUEUE,
            cmds.len() as int,
        ),
    decreases cmds.len(),
{
    if cmds.len() > 0 {
        command_queue_keeps_newest(q, cmds.drop_last());
        let prev = add_all(q, cmds.drop_last());
        let c = cmds.last();
        if cmds.len() >= MAX_COMMAND_QUEUE {
            if cmds.len() > MAX_COMMAND_QUEUE {
                assert(prev == cmds.drop_last().subrange(
                    cmds.len() - 1 - MAX_COMMAND_QUEUE,
                    cmds.len() - 1,
                ));
                assert(enqueued(prev, c) =~= cmds.subrange(
                    cmds.len() - MAX_COMMAND_QUEUE,
                    cmds.len() as int,
                ));
            } else {
                // exactly the cap: `prev` holds at most cap - 1 of the older ones
                // plus all earlier new ones; the newest cap are exactly `cmds`
                lemma_add_all_suffix(q, cmds.drop_last());
                assert(prev.len() >= cmds.len() - 1);
                let s = prev.push(c);
                assert(s.subrange(s.len() - MAX_COMMAND_QUEUE, s.len() as int) =~= cmds) by {
                    assert forall|k: int| 0 <= k < MAX_COMMAND_QUEUE implies #[trigger] s.subrange(
                        s.len() - MAX_COMMAND_QUEUE,
                        s.len() as int,
                    )[k] == cmds[k] by {
                        if k < MAX_COMMAND_QUEUE - 1 {
                            assert(prev[prev.len() - (cmds.len() - 1) + k] == cmds.drop_last()[k]);
                        }
                    }
                }
            }
        }
    }
}

/// The queue after adding `cmds` one by one.
pub open spec fn add_all(q: Seq<DaemonCommand>, cmds: Seq<DaemonCommand>) -> Seq<DaemonCommand>
    decreases cmds.len(),
{
    if cmds.len() == 0 {
        q
    } else {
        enqueued(add_all(q, cmds.drop_last()), cmds.last())
    }
}

/// While fewer than the cap have been added, the added commands are the
/// newest ones of the queue, in order.
proof fn lemma_add_all_suffix(q: Seq<DaemonCommand>, cmds: Seq<DaemonCommand>)
    requires
        cmds.len() < MAX_COMMAND_QUEUE,
    ensures
        add_all(q, cmds).len() >= cmds.len(),
        forall|k: int|
            0 <= k < cmds.len() ==> add_all(q, cmds)[add_all(q, cmds).len() - cmds.len() + k]
                == #[trigger] cmds[k],
    decreases cmds.len(),
{
    if cmds.len() > 0 {
        lemma_add_all_suffix(q, cmds.drop_last());
        let prev = add_all(q, cmds.drop_last());
        let s = prev.push(cmds.last());
        let r = add_all(q, cmds);
        assert forall|k: int| 0 <= k < cmds.len() implies r[r.len() - cmds.len() + k]
            == #[trigger] cmds[k] by {
            if k < cmds.len() - 1 {
                assert(cmds.drop_last()[k] == cmds[k]);
                if s.len() > MAX_COMMAND_QUEUE {
                    assert(r[r.len() - cmds.len() + k] == s[s.len() - MAX_COMMAND_QUEUE + r.len()
                        - cmds.len() + k]);
                }
            }
        }
    }
}

} // verus!
