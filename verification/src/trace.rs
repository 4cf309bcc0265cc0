//! Whole-run properties of the protocol machine, stated over traces:
//! the sequence of events a driver feeds in and the sequence of
//! commands the machine answers with. Two laws are proved here: the
//! steady-state loop answers every received frame with exactly one
//! outbound frame, and the bootstrap order is invariant.

use vstd::prelude::*;
use crate::protocol::{CommandView, EventView, Phase, fits, spec_command, spec_next};

verus! {

/// Whether a machine in phase `p` accepts the whole event sequence,
/// each event fitting the phase the one before led to.
pub open spec fn valid_trace(p: Phase, evs: Seq<EventView>) -> bool
    decreases evs.len(),
{
    evs.len() == 0 || (fits(p, evs[0]) && valid_trace(spec_next(p, evs[0]), evs.drop_first()))
}

/// The phase after the whole event sequence.
pub open spec fn end_phase(p: Phase, evs: Seq<EventView>) -> Phase
    decreases evs.len(),
{
    if evs.len() == 0 {
        p
    } else {
        end_phase(spec_next(p, evs[0]), evs.drop_first())
    }
}

/// The commands the machine issues along the event sequence, one per
/// event.
pub open spec fn trace_commands(p: Phase, port: u16, evs: Seq<EventView>) -> Seq<CommandView>
    decreases evs.len(),
{
    if evs.len() == 0 {
        Seq::empty()
    } else {
        seq![spec_command(p, port, evs[0])] + trace_commands(spec_next(p, evs[0]), port, evs.drop_first())
    }
}

/// How many inbound frames the events report.
pub open spec fn frames_read(evs: Seq<EventView>) -> nat
    decreases evs.len(),
{
    if evs.len() == 0 {
        0
    } else {
        (if evs[0] is FrameRead {
            1nat
        } else {
            0nat
        }) + frames_read(evs.drop_first())
    }
}

/// How many outbound frames the commands send.
pub open spec fn frames_sent(cmds: Seq<CommandView>) -> nat
    decreases cmds.len(),
{
    if cmds.len() == 0 {
        0
    } else {
        (if cmds[0] is SendFrame {
            1nat
        } else {
            0nat
        }) + frames_sent(cmds.drop_first())
    }
}

/// The frames received but not yet answered in a given phase: one in
/// `Deciding`, none anywhere else.
pub open spec fn pending(p: Phase) -> nat {
    if p is Deciding {
        1
    } else {
        0
    }
}

/// The balance of the steady-state loop, phase by phase: along any
/// accepted trace that has not failed, the frames sent out, plus the
/// one still being decided on, equal the frames read in, plus
/// whatever was pending at the start. No frame is answered twice and
/// none is buffered.
pub proof fn lemma_turn_balance(p: Phase, port: u16, evs: Seq<EventView>)
    requires
        valid_trace(p, evs),
        !(end_phase(p, evs) is Fatal),
    ensures
        frames_sent(trace_commands(p, port, evs)) + pending(end_phase(p, evs)) == frames_read(evs)
            + pending(p),
    decreases evs.len(),
{
    if evs.len() != 0 {
        let e = evs[0];
        let p1 = spec_next(p, e);
        let rest = evs.drop_first();
        assert(valid_trace(p1, rest));
        assert(end_phase(p, evs) == end_phase(p1, rest));
        if rest.len() == 0 {
            assert(end_phase(p1, rest) == p1);
        } else {
            assert(fits(p1, rest[0]));
            assert(!(p1 is Fatal));
        }
        lemma_turn_balance(p1, port, rest);
        assert(trace_commands(p, port, evs).drop_first() =~= trace_commands(p1, port, rest));
    }
}

/// No frame is ever answered more than once, failed runs included:
/// along any accepted trace the frames sent out never exceed the
/// frames read in, plus the one that may have been pending at the
/// start.
pub proof fn lemma_no_unprompted_send(p: Phase, port: u16, evs: Seq<EventView>)
    requires
        valid_trace(p, evs),
    ensures
        frames_sent(trace_commands(p, port, evs)) <= frames_read(evs) + pending(p),
    decreases evs.len(),
{
    if evs.len() != 0 {
        let e = evs[0];
        let p1 = spec_next(p, e);
        let rest = evs.drop_first();
        lemma_no_unprompted_send(p1, port, rest);
        assert(trace_commands(p, port, evs).drop_first() =~= trace_commands(p1, port, rest));
    }
}

/// The 1:1 turn cardinality of the steady state: over any accepted
/// trace that starts and ends blocked on the next frame, exactly one
/// outbound frame is sent per received inbound frame.
pub proof fn lemma_one_send_per_frame(port: u16, evs: Seq<EventView>)
    requires
        valid_trace(Phase::AwaitingFrame, evs),
        end_phase(Phase::AwaitingFrame, evs) == Phase::AwaitingFrame,
    ensures
        frames_sent(trace_commands(Phase::AwaitingFrame, port, evs)) == frames_read(evs),
{
    lemma_turn_balance(Phase::AwaitingFrame, port, evs);
}

/// Membership in a sequence extended at the front.
proof fn lemma_contains_cons<A>(x: A, s: Seq<A>, y: A)
    ensures
        (seq![x] + s).contains(y) <==> (x == y || s.contains(y)),
{
    let t = seq![x] + s;
    if t.contains(y) {
        let i = choose|i: int| 0 <= i < t.len() && t[i] == y;
        if i > 0 {
            assert(s[i - 1] == y);
        }
    }
    if x == y {
        assert(t[0] == y);
    }
    if s.contains(y) {
        let i = choose|i: int| 0 <= i < s.len() && s[i] == y;
        assert(t[i + 1] == y);
    }
}

/// Whether the game channel is already up when the machine stands in
/// phase `p`.
pub open spec fn game_up(p: Phase) -> bool {
    match p {
        Phase::ConnectingGame => false,
        Phase::Fatal(_) => false,
        _ => true,
    }
}

/// Whether the startup delay has already elapsed in phase `p`.
pub open spec fn delay_over(p: Phase) -> bool {
    match p {
        Phase::ConnectingGame => false,
        Phase::Delaying => false,
        Phase::Fatal(_) => false,
        _ => true,
    }
}

/// Whether the log channel is already up in phase `p`.
pub open spec fn log_up(p: Phase) -> bool {
    match p {
        Phase::Initializing => true,
        Phase::AwaitingFrame => true,
        Phase::Deciding => true,
        Phase::SendingAction => true,
        _ => false,
    }
}

/// The bootstrap order, phase by phase: along any accepted trace, the
/// machine asks for the startup delay only once the game channel is
/// up, asks for the bot's initialization only once the log channel is
/// up, and asks for a read only once the delay has elapsed.
pub proof fn lemma_bootstrap_order_inv(p: Phase, port: u16, evs: Seq<EventView>)
    requires
        valid_trace(p, evs),
    ensures
        trace_commands(p, port, evs).contains(CommandView::Delay) ==> (evs.contains(
            EventView::GameConnected,
        ) || game_up(p)),
        trace_commands(p, port, evs).contains(CommandView::InitBot) ==> (evs.contains(
            EventView::LogConnected,
        ) || log_up(p)),
        trace_commands(p, port, evs).contains(CommandView::ReadFrame) ==> (evs.contains(
            EventView::DelayDone,
        ) || delay_over(p)),
    decreases evs.len(),
{
    if evs.len() != 0 {
        let e = evs[0];
        let c = spec_command(p, port, e);
        let p1 = spec_next(p, e);
        let rest = evs.drop_first();
        let rest_cmds = trace_commands(p1, port, rest);
        lemma_bootstrap_order_inv(p1, port, rest);
        assert(trace_commands(p, port, evs) =~= seq![c] + rest_cmds);
        lemma_contains_cons(c, rest_cmds, CommandView::Delay);
        lemma_contains_cons(c, rest_cmds, CommandView::InitBot);
        lemma_contains_cons(c, rest_cmds, CommandView::ReadFrame);
        lemma_contains_cons(e, rest, EventView::GameConnected);
        lemma_contains_cons(e, rest, EventView::LogConnected);
        lemma_contains_cons(e, rest, EventView::DelayDone);
        assert(evs =~= seq![e] + rest);
    }
}

/// The bootstrap order of a whole run, from process start: the game
/// channel is established before the startup delay, the log channel
/// before the bot's initialization hook, and the delay elapses before
/// the first read.
pub proof fn lemma_bootstrap_order(port: u16, evs: Seq<EventView>)
    requires
        valid_trace(Phase::ConnectingGame, evs),
    ensures
        trace_commands(Phase::ConnectingGame, port, evs).contains(CommandView::Delay)
            ==> evs.contains(EventView::GameConnected),
        trace_commands(Phase::ConnectingGame, port, evs).contains(CommandView::InitBot)
            ==> evs.contains(EventView::LogConnected),
        trace_commands(Phase::ConnectingGame, port, evs).contains(CommandView::ReadFrame)
            ==> evs.contains(EventView::DelayDone),
{
    lemma_bootstrap_order_inv(Phase::ConnectingGame, port, evs);
}

} // verus!
