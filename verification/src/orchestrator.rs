use vstd::prelude::*;

use crate::command::AgentRequest;
use crate::error::AppError;
use crate::events::OutwardEvent;
use crate::events::RunnerEvent;
use crate::registry::ProcessRegistry;
use crate::session::SessionMetadata;

verus! {

/// The payload of a fresh-spawn request.
#[derive(Debug)]
pub struct SpawnPayload {
    pub agent_type: String,
    pub prompt: String,
    pub flags: Vec<String>,
    pub tools_allowed: Vec<String>,
    pub system_append: Option<String>,
    pub resume_id: Option<String>,
    pub create_session: bool,
}

/// The payload of a message against an existing session.
#[derive(Debug)]
pub struct MessagePayload {
    pub prompt: String,
    pub flags: Vec<String>,
    pub tools_allowed: Vec<String>,
    pub system_append: Option<String>,
}

/// Assembles the agent request for a fresh spawn. When the caller supplied
/// no resume identifier but a session was created, the new session's
/// identifier becomes the resume identifier, so the fresh session can
/// itself be resumed by a later message against the same id.
pub fn build_agent_request(payload: SpawnPayload, session_id: Option<String>) -> (r: AgentRequest)
    ensures
        r.agent_type == payload.agent_type,
        r.prompt == payload.prompt,
        r.flags == payload.flags,
        r.tools_allowed == payload.tools_allowed,
        r.system_append == payload.system_append,
        r.resume_id == (match payload.resume_id {
            Some(x) => Some(x),
            None => session_id,
        }),
{
    let resume_id = match payload.resume_id {
        Some(x) => Some(x),
        None => session_id,
    };
    AgentRequest {
        agent_type: payload.agent_type,
        prompt: payload.prompt,
        flags: payload.flags,
        tools_allowed: payload.tools_allowed,
        system_append: payload.system_append,
        resume_id,
    }
}

/// Decides the resumption path before any process is spawned: an unknown
/// session identifier fails with `SessionNotFound` and nothing else
/// happens; a known one has its record touched to `now` and yields the
/// agent request with the mandatory resume identifier.
pub fn prepare_resume(
    found: Option<SessionMetadata>,
    session_id: &String,
    now: u64,
    payload: MessagePayload,
) -> (r: Result<(SessionMetadata, AgentRequest), AppError>)
    ensures
        r is Ok <==> found is Some,
        match r {
            Ok(pair) => match found {
                Some(m) => {
                    &&& pair.0.session_id == m.session_id
                    &&& pair.0.agent_type == m.agent_type
                    &&& pair.0.created_at == m.created_at
                    &&& pair.0.last_used == now
                    &&& pair.1.agent_type@ == "resumed"@
                    &&& pair.1.prompt == payload.prompt
                    &&& pair.1.flags == payload.flags
                    &&& pair.1.tools_allowed == payload.tools_allowed
                    &&& pair.1.system_append == payload.system_append
                    &&& pair.1.resume_id == Some(*session_id)
                },
                None => false,
            },
            Err(e) => e matches AppError::SessionNotFound(s) && s@ == session_id@,
        },
{
    match found {
        Some(m) => {
            let meta = m.touched(now);
            let req = AgentRequest {
                agent_type: String::from_str("resumed"),
                prompt: payload.prompt,
                flags: payload.flags,
                tools_allowed: payload.tools_allowed,
                system_append: payload.system_append,
                resume_id: Some(session_id.clone()),
            };
            Ok((meta, req))
        },
        None => Err(AppError::SessionNotFound(session_id.clone())),
    }
}

/// Where one request's stream stands: still forwarding runner events,
/// stopped by an error event, or finished with the terminal event emitted.
#[derive(Debug, Clone, Copy, PartialEq, Eq, Structural)]
pub enum StreamPhase {
    Streaming,
    Stopped,
    Finished,
}

/// The events a stream opens with: the session-created event exactly when a
/// session was created, and nothing otherwise.
pub open spec fn start_events(session_id: Option<String>) -> Seq<OutwardEvent> {
    match session_id {
        Some(sid) => seq![OutwardEvent::SessionCreated(sid)],
        None => Seq::empty(),
    }
}

/// What one runner event adds to the outward sequence: while streaming, a
/// line is forwarded as an output event and a failure as the error event;
/// after the stream stopped or finished, nothing.
pub open spec fn step_events(phase: StreamPhase, ev: RunnerEvent) -> Seq<OutwardEvent> {
    if phase == StreamPhase::Streaming {
        match ev {
            RunnerEvent::Line(l) => seq![OutwardEvent::Output(l)],
            RunnerEvent::Failure(e) => seq![OutwardEvent::Error(e)],
        }
    } else {
        Seq::empty()
    }
}

/// The phase after one runner event: an error stops the forwarding; nothing
/// else changes the phase.
pub open spec fn step_phase(phase: StreamPhase, ev: RunnerEvent) -> StreamPhase {
    if phase == StreamPhase::Streaming {
        match ev {
            RunnerEvent::Line(_) => StreamPhase::Streaming,
            RunnerEvent::Failure(_) => StreamPhase::Stopped,
        }
    } else {
        phase
    }
}

/// The outward events for a whole run of runner events: every line up to
/// the first failure is forwarded in order; a failure is forwarded as the
/// error event and ends the forwarding.
pub open spec fn forwarded(evs: Seq<RunnerEvent>) -> Seq<OutwardEvent>
    decreases evs.len(),
{
    if evs.len() == 0 {
        Seq::empty()
    } else {
        match evs[0] {
            RunnerEvent::Line(l) => seq![OutwardEvent::Output(l)] + forwarded(evs.drop_first()),
            RunnerEvent::Failure(e) => seq![OutwardEvent::Error(e)],
        }
    }
}

/// The whole outward protocol sequence of one request: the optional
/// session-created event first, then the forwarded events, then the
/// terminal completion event, always last.
pub open spec fn outward_spec(session_id: Option<String>, evs: Seq<RunnerEvent>) -> Seq<
    OutwardEvent,
> {
    start_events(session_id) + forwarded(evs) + seq![OutwardEvent::Completed]
}

proof fn lemma_forwarded_shape(evs: Seq<RunnerEvent>)
    ensures
        forall|i: int|
            0 <= i < forwarded(evs).len() ==> (#[trigger] forwarded(evs)[i] is Output
                || forwarded(evs)[i] is Error),
        forall|i: int|
            0 <= i < forwarded(evs).len() && #[trigger] forwarded(evs)[i] is Error ==> i
                == forwarded(evs).len() - 1,
    decreases evs.len(),
{
    if evs.len() > 0 {
        match evs[0] {
            RunnerEvent::Line(l) => {
                let rest = forwarded(evs.drop_first());
                lemma_forwarded_shape(evs.drop_first());
                assert forall|i: int|
                    0 <= i < forwarded(evs).len() implies (#[trigger] forwarded(evs)[i] is Output
                    || forwarded(evs)[i] is Error) by {
                    if i > 0 {
                        assert(forwarded(evs)[i] == rest[i - 1]);
                    }
                }
                assert forall|i: int|
                    0 <= i < forwarded(evs).len() && #[trigger] forwarded(
                        evs,
                    )[i] is Error implies i == forwarded(evs).len() - 1 by {
                    if i > 0 {
                        assert(forwarded(evs)[i] == rest[i - 1]);
                    }
                }
            },
            RunnerEvent::Failure(e) => {},
        }
    }
}

/// The stream termination law: for any run of runner events, the outward
/// sequence contains exactly one completion event and it is the last
/// event; an error event, if any, stands immediately before it, so no
/// output event follows an error; and the session-created event appears
/// exactly when a session was created, and then first.
pub proof fn lemma_stream_termination(session_id: Option<String>, evs: Seq<RunnerEvent>)
    ensures
        ({
            let out = outward_spec(session_id, evs);
            &&& out.len() > 0
            &&& out.last() == OutwardEvent::Completed
            &&& forall|i: int| 0 <= i < out.len() - 1 ==> !(#[trigger] out[i] is Completed)
            &&& forall|i: int| 0 <= i < out.len() && #[trigger] out[i] is Error ==> i == out.len()
                - 2
            &&& forall|i: int, j: int|
                0 <= i < out.len() && 0 <= j < out.len() && out[i] is Error && out[j] is Output
                    ==> j < i
            &&& match session_id {
                Some(_) => out[0] is SessionCreated,
                None => forall|i: int| 0 <= i < out.len() ==> !(#[trigger] out[i] is SessionCreated),
            }
        }),
{
    let out = outward_spec(session_id, evs);
    let pre = start_events(session_id);
    let fwd = forwarded(evs);
    let k = pre.len();
    lemma_forwarded_shape(evs);
    assert(out.len() == k + fwd.len() + 1);
    assert(out.last() == OutwardEvent::Completed);
    assert forall|i: int| 0 <= i < out.len() - 1 implies !(#[trigger] out[i] is Completed) by {
        if i < k {
            assert(out[i] == pre[i]);
            assert(pre[i] is SessionCreated);
        } else {
            assert(out[i] == fwd[i - k]);
        }
    }
    assert forall|i: int|
        0 <= i < out.len() && #[trigger] out[i] is Error implies i == out.len() - 2 by {
        if i < k {
            assert(out[i] == pre[i]);
        } else if i < k + fwd.len() {
            assert(out[i] == fwd[i - k]);
            assert(i - k == fwd.len() - 1);
        }
    }
    assert forall|i: int, j: int|
        0 <= i < out.len() && 0 <= j < out.len() && out[i] is Error
            && out[j] is Output implies j < i by {
        assert(i == out.len() - 2);
        if j >= i {
            if j == out.len() - 1 {
                assert(out[j] is Completed);
            }
        }
    }
    match session_id {
        Some(_) => {
            assert(out[0] == pre[0]);
        },
        None => {
            assert forall|i: int|
                0 <= i < out.len() implies !(#[trigger] out[i] is SessionCreated) by {
                if i < out.len() - 1 {
                    assert(out[i] == fwd[i]);
                }
            }
        },
    }
}

/// Opens one request's stream: emits the session-created event when a
/// session was created, and enters the forwarding phase.
pub fn stream_start(session_id: &Option<String>) -> (r: (Vec<OutwardEvent>, StreamPhase))
    ensures
        r.0@ == start_events(*session_id),
        r.1 == StreamPhase::Streaming,
{
    let mut out: Vec<OutwardEvent> = Vec::new();
    match session_id {
        Some(sid) => {
            out.push(OutwardEvent::SessionCreated(sid.clone()));
        },
        None => {},
    }
    proof {
        assert(out@ =~= start_events(*session_id));
    }
    (out, StreamPhase::Streaming)
}

/// Forwards one runner event into the outward protocol.
pub fn stream_step(phase: StreamPhase, ev: &RunnerEvent) -> (r: (Vec<OutwardEvent>, StreamPhase))
    ensures
        r.0@ == step_events(phase, *ev),
        r.1 == step_phase(phase, *ev),
{
    match phase {
        StreamPhase::Streaming => {
            let mut out: Vec<OutwardEvent> = Vec::new();
            match ev {
                RunnerEvent::Line(l) => {
                    out.push(OutwardEvent::Output(l.clone()));
                    proof {
                        assert(out@ =~= step_events(phase, *ev));
                    }
                    (out, StreamPhase::Streaming)
                },
                RunnerEvent::Failure(e) => {
                    out.push(OutwardEvent::Error(e.clone()));
                    proof {
                        assert(out@ =~= step_events(phase, *ev));
                    }
                    (out, StreamPhase::Stopped)
                },
            }
        },
        _ => (Vec::new(), phase),
    }
}

/// Closes one request's stream: emits the terminal completion event,
/// exactly once, whatever came before.
pub fn stream_finish(phase: StreamPhase) -> (r: (Vec<OutwardEvent>, StreamPhase))
    ensures
        phase != StreamPhase::Finished ==> r.0@ == seq![OutwardEvent::Completed],
        phase == StreamPhase::Finished ==> r.0@ == Seq::<OutwardEvent>::empty(),
        r.1 == StreamPhase::Finished,
{
    match phase {
        StreamPhase::Finished => (Vec::new(), StreamPhase::Finished),
        _ => {
            let mut out: Vec<OutwardEvent> = Vec::new();
            out.push(OutwardEvent::Completed);
            proof {
                assert(out@ =~= seq![OutwardEvent::Completed]);
            }
            (out, StreamPhase::Finished)
        },
    }
}

/// Drives a whole run of runner events into the outward protocol sequence:
/// the composition of `stream_start`, `stream_step` on each event and
/// `stream_finish`, as the surrounding runtime runs them one event at a
/// time.
pub fn outward_sequence(session_id: &Option<String>, events: &Vec<RunnerEvent>) -> (out: Vec<
    OutwardEvent,
>)
    ensures
        out@ == outward_spec(*session_id, events@),
{
    let (mut out, mut phase) = stream_start(session_id);
    let ghost goal = outward_spec(*session_id, events@);
    proof {
        assert(events@.skip(0) =~= events@);
        assert(out@ + forwarded(events@.skip(0)) + seq![OutwardEvent::Completed] =~= goal);
    }
    let mut i: usize = 0;
    while i < events.len()
        invariant
            i <= events@.len(),
            goal == outward_spec(*session_id, events@),
            phase == StreamPhase::Streaming || phase == StreamPhase::Stopped,
            phase == StreamPhase::Streaming ==> out@ + forwarded(events@.skip(i as int)) + seq![
                OutwardEvent::Completed,
            ] == goal,
            phase == StreamPhase::Stopped ==> out@ + seq![OutwardEvent::Completed] == goal,
        decreases events@.len() - i,
    {
        let ghost pre_out = out@;
        let ghost pre_phase = phase;
        let (mut step, ph) = stream_step(phase, &events[i]);
        out.append(&mut step);
        phase = ph;
        proof {
            let rest = events@.skip(i as int);
            assert(rest[0] == events@[i as int]);
            assert(rest.drop_first() =~= events@.skip(i + 1));
            if pre_phase == StreamPhase::Streaming {
                match events@[i as int] {
                    RunnerEvent::Line(l) => {
                        assert(forwarded(rest) == seq![OutwardEvent::Output(l)] + forwarded(
                            events@.skip(i + 1),
                        ));
                        assert(out@ + forwarded(events@.skip(i + 1)) + seq![
                            OutwardEvent::Completed,
                        ] =~= pre_out + forwarded(rest) + seq![OutwardEvent::Completed]);
                    },
                    RunnerEvent::Failure(e) => {
                        assert(forwarded(rest) == seq![OutwardEvent::Error(e)]);
                        assert(out@ + seq![OutwardEvent::Completed] =~= pre_out + forwarded(rest)
                            + seq![OutwardEvent::Completed]);
                    },
                }
            } else {
                assert(out@ =~= pre_out);
            }
        }
        i += 1;
    }
    proof {
        if phase == StreamPhase::Streaming {
            assert(events@.skip(events@.len() as int) =~= Seq::<RunnerEvent>::empty());
            assert(forwarded(Seq::<RunnerEvent>::empty()) == Seq::<OutwardEvent>::empty());
            assert(out@ + Seq::<OutwardEvent>::empty() + seq![OutwardEvent::Completed] =~= out@
                + seq![OutwardEvent::Completed]);
        }
    }
    let (mut fin, _done) = stream_finish(phase);
    out.append(&mut fin);
    proof {
        assert(out@ =~= goal);
    }
    out
}

/// Removes the registry entry of a session-bound request, whatever path
/// the request ended on; a request without a session changes nothing.
/// After it runs, the registry no longer contains the session's key.
pub fn cleanup_session<H>(registry: &mut ProcessRegistry<H>, session_id: &Option<String>) -> (r:
    Option<H>)
    requires
        old(registry).wf(),
    ensures
        final(registry).wf(),
        final(registry).one_per_key(),
        match *session_id {
            Some(sid) => final(registry)@ == old(registry)@.remove(sid@)
                && !final(registry)@.contains_key(sid@) && r == (if old(
                registry,
            )@.contains_key(sid@) {
                Some(old(registry)@[sid@])
            } else {
                Option::<H>::None
            }),
            None => final(registry)@ == old(registry)@ && r is None,
        },
{
    match session_id {
        Some(sid) => {
            let removed = registry.remove(sid);
            proof {
                if !old(registry)@.contains_key(sid@) {
                    assert(old(registry)@.remove(sid@) =~= old(registry)@);
                }
            }
            removed
        },
        None => {
            proof {
                registry.lemma_one_per_key();
            }
            None
        },
    }
}

/// One session-bound request, end to end, against the registry: the handle
/// is registered under the session's key, the runner's events are driven
/// into the outward protocol sequence, and the entry is removed again. The
/// cleanup law: once the outward sequence has reached its completion
/// event, the registry no longer contains the session's key, however the
/// run of events ended.
pub fn run_session_stream<H>(
    registry: &mut ProcessRegistry<H>,
    session_id: &String,
    handle: H,
    events: &Vec<RunnerEvent>,
) -> (out: Vec<OutwardEvent>)
    requires
        old(registry).wf(),
    ensures
        final(registry).wf(),
        out@ == outward_spec(Some(*session_id), events@),
        !final(registry)@.contains_key(session_id@),
        final(registry)@ == old(registry)@.remove(session_id@),
{
    let _displaced = registry.insert(session_id.clone(), handle);
    let session_opt = Some(session_id.clone());
    let out = outward_sequence(&session_opt, events);
    let _removed = registry.remove(session_id);
    proof {
        assert(final(registry)@ =~= old(registry)@.remove(session_id@));
    }
    out
}

} // verus!
