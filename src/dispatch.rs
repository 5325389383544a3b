use vstd::prelude::*;

use crate::actor::ActorId;
use crate::error::BridgeError;
use crate::message::CallResult;

verus! {

/// The two calls an actor offers for one request.
#[derive(Clone, Copy, Debug, PartialEq, Eq, Structural)]
pub enum CallKind {
    /// The read-only, non-state-mutating probe.
    Read,
    /// The state-mutating call, completed asynchronously and polled for.
    Authoritative,
}

/// The pause between two polls for the completion of an authoritative call.
pub const POLL_THROTTLE_MS: u64 = 500;

/// How long after its submission an authoritative call may take to complete
/// before the request fails with `Timeout`.
pub const POLL_DEADLINE_MS: u64 = 45000;

/// The timing of the bounded wait for an authoritative call.
#[derive(Clone, Copy, Debug, PartialEq, Eq, Structural)]
pub struct PollPolicy {
    pub throttle_ms: u64,
    pub deadline_ms: u64,
}

impl PollPolicy {
    /// The policy used for every authoritative call: a poll every 500 ms, for
    /// at most 45 s.
    pub fn standard() -> (p: PollPolicy)
        ensures
            p.throttle_ms == 500,
            p.deadline_ms == 45000,
    {
        PollPolicy { throttle_ms: POLL_THROTTLE_MS, deadline_ms: POLL_DEADLINE_MS }
    }
}

/// Where a dispatch stands.
#[derive(Clone, Copy, Debug, PartialEq, Eq, Structural)]
pub enum Phase {
    Start,
    AwaitingRead,
    AwaitingAuthoritative,
    Done,
}

/// What the dispatcher asks its driver to do next.
pub enum Step {
    /// Issue a call of this kind to the dispatch's actor with its payload.
    Call(CallKind),
    /// The request is answered with this result.
    Finish(CallResult),
    /// The request fails with this error.
    Fail(BridgeError),
}

/// The actor's entry point for a call kind.
pub open spec fn entry_point_spec(kind: CallKind) -> Seq<char> {
    match kind {
        CallKind::Read => "http_query"@,
        CallKind::Authoritative => "http_update"@,
    }
}

/// The name of the actor's entry point for a call kind.
pub fn entry_point(kind: CallKind) -> (r: &'static str)
    ensures
        r@ == entry_point_spec(kind),
{
    match kind {
        CallKind::Read => "http_query",
        CallKind::Authoritative => "http_update",
    }
}

/// The step taken when a call's outcome arrives in `phase`: an error ends the
/// dispatch; a probe result that asks for an upgrade escalates; any other
/// result, and every authoritative result whatever its upgrade flag, is final.
pub open spec fn reply_step(phase: Phase, reply: Result<CallResult, BridgeError>) -> Step {
    match reply {
        Err(e) => Step::Fail(e),
        Ok(r) => if phase == Phase::AwaitingRead && r.upgrade {
            Step::Call(CallKind::Authoritative)
        } else {
            Step::Finish(r)
        },
    }
}

/// The phase that follows a step.
pub open spec fn phase_after(s: Step) -> Phase {
    match s {
        Step::Call(CallKind::Read) => Phase::AwaitingRead,
        Step::Call(CallKind::Authoritative) => Phase::AwaitingAuthoritative,
        _ => Phase::Done,
    }
}

/// The call log after a step: a call step appends its kind.
pub open spec fn log_after(calls: Seq<CallKind>, s: Step) -> Seq<CallKind> {
    match s {
        Step::Call(k) => calls.push(k),
        _ => calls,
    }
}

/// The call logs that go with each phase: no call before the start, the probe
/// while it is awaited, the probe then the authoritative call while that is
/// awaited, and one of the two once done.
pub open spec fn log_fits(phase: Phase, calls: Seq<CallKind>) -> bool {
    match phase {
        Phase::Start => calls == Seq::<CallKind>::empty(),
        Phase::AwaitingRead => calls == seq![CallKind::Read],
        Phase::AwaitingAuthoritative => calls == seq![CallKind::Read, CallKind::Authoritative],
        Phase::Done => calls == seq![CallKind::Read] || calls == seq![
            CallKind::Read,
            CallKind::Authoritative,
        ],
    }
}

/// When the read probe's result does not ask for an upgrade, that result
/// answers the request and the probe is the only call made.
pub proof fn lemma_probe_suffices(r: CallResult)
    requires
        !r.upgrade,
    ensures
        ({
            let s0 = Step::Call(CallKind::Read);
            let log0 = log_after(Seq::<CallKind>::empty(), s0);
            let s1 = reply_step(phase_after(s0), Ok(r));
            &&& s1 == Step::Finish(r)
            &&& phase_after(s1) == Phase::Done
            &&& log_after(log0, s1) == seq![CallKind::Read]
        }),
{
    assert(Seq::<CallKind>::empty().push(CallKind::Read) =~= seq![CallKind::Read]);
}

/// When the read probe's result asks for an upgrade, exactly one
/// authoritative call follows the probe, and its outcome ends the dispatch:
/// its result is final whatever its own upgrade flag, and a timeout while
/// waiting for it fails the request with `Timeout`.
pub proof fn lemma_escalation(r: CallResult, reply: Result<CallResult, BridgeError>)
    requires
        r.upgrade,
    ensures
        ({
            let s0 = Step::Call(CallKind::Read);
            let log0 = log_after(Seq::<CallKind>::empty(), s0);
            let s1 = reply_step(phase_after(s0), Ok(r));
            let log1 = log_after(log0, s1);
            let s2 = reply_step(phase_after(s1), reply);
            &&& s1 == Step::Call(CallKind::Authoritative)
            &&& log1 == seq![CallKind::Read, CallKind::Authoritative]
            &&& phase_after(s2) == Phase::Done
            &&& log_after(log1, s2) == log1
            &&& (reply matches Ok(r2) ==> s2 == Step::Finish(r2))
            &&& (reply matches Err(e) ==> s2 == Step::Fail(e))
            &&& (reply matches Err(BridgeError::Timeout) ==> s2 == Step::Fail(BridgeError::Timeout))
        }),
{
    assert(Seq::<CallKind>::empty().push(CallKind::Read).push(CallKind::Authoritative) =~= seq![
        CallKind::Read,
        CallKind::Authoritative,
    ]);
}

/// Every dispatch's call log is the probe alone or the probe followed by the
/// authoritative call: never more than two calls, never the authoritative
/// call first.
pub proof fn lemma_log_shape(phase: Phase, calls: Seq<CallKind>)
    requires
        log_fits(phase, calls),
    ensures
        calls.len() <= 2,
        calls.len() >= 1 ==> calls[0] == CallKind::Read,
        calls.len() == 2 ==> calls[1] == CallKind::Authoritative,
{
}

/// The two-phase call sequence for one request to one actor.
pub struct Dispatch {
    pub actor: ActorId,
    /// The encoded call request, the same for both calls.
    pub payload: Vec<u8>,
    pub phase: Phase,
    /// The calls asked for so far, in order.
    pub calls: Vec<CallKind>,
}

impl Dispatch {
    pub open spec fn wf(&self) -> bool {
        log_fits(self.phase, self.calls@)
    }

    /// A dispatch that has made no call yet.
    pub fn new(actor: ActorId, payload: Vec<u8>) -> (d: Dispatch)
        ensures
            d.actor == actor,
            d.payload@ == payload@,
            d.phase == Phase::Start,
            d.calls@ == Seq::<CallKind>::empty(),
            d.wf(),
    {
        Dispatch { actor, payload, phase: Phase::Start, calls: Vec::new() }
    }

    /// Starts the dispatch: the first call is always the read probe.
    pub fn start(&mut self) -> (s: Step)
        requires
            old(self).phase == Phase::Start,
            old(self).wf(),
        ensures
            s == Step::Call(CallKind::Read),
            final(self).phase == Phase::AwaitingRead,
            final(self).calls@ == old(self).calls@.push(CallKind::Read),
            final(self).actor == old(self).actor,
            final(self).payload@ == old(self).payload@,
            final(self).wf(),
    {
        assert(old(self).calls@.push(CallKind::Read) =~= seq![CallKind::Read]);
        self.calls.push(CallKind::Read);
        self.phase = Phase::AwaitingRead;
        Step::Call(CallKind::Read)
    }

    /// Takes the outcome of the call last asked for and decides the next step.
    pub fn on_reply(&mut self, reply: Result<CallResult, BridgeError>) -> (s: Step)
        requires
            old(self).phase == Phase::AwaitingRead || old(self).phase
                == Phase::AwaitingAuthoritative,
            old(self).wf(),
        ensures
            s == reply_step(old(self).phase, reply),
            final(self).phase == phase_after(s),
            final(self).calls@ == log_after(old(self).calls@, s),
            final(self).actor == old(self).actor,
            final(self).payload@ == old(self).payload@,
            final(self).wf(),
    {
        match reply {
            Err(e) => {
                self.phase = Phase::Done;
                Step::Fail(e)
            },
            Ok(r) => {
                let escalate = match self.phase {
                    Phase::AwaitingRead => r.upgrade,
                    _ => false,
                };
                if escalate {
                    assert(old(self).calls@.push(CallKind::Authoritative) =~= seq![
                        CallKind::Read,
                        CallKind::Authoritative,
                    ]);
                    self.calls.push(CallKind::Authoritative);
                    self.phase = Phase::AwaitingAuthoritative;
                    Step::Call(CallKind::Authoritative)
                } else {
                    self.phase = Phase::Done;
                    Step::Finish(r)
                }
            },
        }
    }
}

} // verus!
