//! The controller's laws: what holds of every session, stated over the
//! step functions and proved once and for all.

use crate::messages::MsgV;
use crate::messages::Role;
use crate::score::count_of;
use crate::score::lemma_credit_count;
use crate::score::lemma_credit_other;
use crate::score::lemma_credit_unique;
use crate::session::api_error_msg;
use crate::session::correct_prefix;
use crate::session::event_legal;
use crate::session::event_step;
use crate::session::reply_fits;
use crate::session::reply_step;
use crate::session::round_start_log;
use crate::session::session_wf;
use crate::session::timing_msg;
use crate::session::ActionV;
use crate::session::DirectiveV;
use crate::session::EventV;
use crate::session::PendingV;
use crate::session::SessionV;
use crate::session::State;
use crate::text::starts_with;
use vstd::prelude::*;

verus! {

/// Law: the legality table is total. Every (state, event) pair is either
/// legal, or rejected with the ephemeral timing message and no change to
/// the session.
pub proof fn lemma_legality_total(s: SessionV, e: EventV)
    ensures
        event_legal(s.state, e) || event_step(s, e) == (
            s,
            ActionV::Respond(DirectiveV::Ephemeral(timing_msg())),
        ),
{
}

/// Law: a handler's first half preserves well-formedness.
pub proof fn lemma_event_step_preserves_wf(s: SessionV, e: EventV)
    requires
        session_wf(s),
        s.pending is None,
    ensures
        session_wf(event_step(s, e).0),
{
    let s2 = event_step(s, e).0;
    if event_legal(s.state, e) {
        match e {
            EventV::Question { text } => {
                assert(forall|i: int|
                    0 < i < s2.log.len() ==> (#[trigger] s2.log[i].role) != Role::System);
            },
            EventV::Answer { .. } => {
                assert(forall|i: int|
                    0 < i < s2.log.len() ==> (#[trigger] s2.log[i].role) != Role::System);
            },
            EventV::Giveup => {
                assert(forall|i: int|
                    0 < i < s2.log.len() ==> (#[trigger] s2.log[i].role) != Role::System);
            },
            _ => {},
        }
    }
}

/// Law: a handler's second half preserves well-formedness and always clears
/// the pending token.
pub proof fn lemma_reply_step_preserves_wf(s: SessionV, r: Option<Seq<char>>)
    requires
        session_wf(s),
        s.pending is Some,
        reply_fits(s, r),
    ensures
        session_wf(reply_step(s, r).0),
        reply_step(s, r).0.pending is None,
{
    let s2 = reply_step(s, r).0;
    if let Some(res) = r {
        assert(forall|i: int|
            0 < i < s2.log.len() ==> (#[trigger] s2.log[i].role) != Role::System);
        if let Some(PendingV::Answer { display_name, .. }) = s.pending {
            if starts_with(res, correct_prefix()) {
                lemma_credit_unique(s.scores, display_name);
            }
        }
    }
}

/// Law: every conversation snapshot sent to the language model carries the
/// system preamble at index 0 and only user and assistant messages after it.
pub proof fn lemma_snapshot_shape(s: SessionV, e: EventV)
    requires
        session_wf(s),
        s.pending is None,
    ensures
        event_step(s, e).1 matches ActionV::CallLlm(m) ==> {
            &&& m.len() >= 1
            &&& m[0] == (MsgV { role: Role::System, content: s.preamble })
            &&& forall|i: int|
                0 < i < m.len() ==> (#[trigger] m[i].role) == Role::User || m[i].role
                    == Role::Assistant
        },
{
    lemma_event_step_preserves_wf(s, e);
    match event_step(s, e).1 {
        ActionV::CallLlm(m) => {
            assert(m == event_step(s, e).0.log);
            assert forall|i: int| 0 < i < m.len() implies (#[trigger] m[i].role) == Role::User
                || m[i].role == Role::Assistant by {
                assert(m[i].role != Role::System);
            }
        },
        _ => {},
    }
}

/// Law: a legal `play` or `next_button` sends exactly the preamble and the
/// fresh-puzzle request — the log of a round's start.
pub proof fn lemma_round_start_snapshot(s: SessionV, e: EventV)
    requires
        session_wf(s),
        s.pending is None,
        e is Play || e is NextButton,
        event_legal(s.state, e),
    ensures
        event_step(s, e).1 == ActionV::CallLlm(round_start_log(s.preamble)),
{
}

/// Law: a correct adjudication raises exactly the answerer's count by one,
/// leaves every other count alone, and moves the session to waiting.
pub proof fn lemma_correct_answer_scores(
    s: SessionV,
    display_name: Seq<char>,
    mention: Seq<char>,
    res: Seq<char>,
)
    requires
        session_wf(s),
        s.pending == Some(PendingV::Answer { display_name, mention }),
        starts_with(res, correct_prefix()),
        count_of(s.scores, display_name) < u32::MAX,
    ensures
        count_of(reply_step(s, Some(res)).0.scores, display_name) == count_of(
            s.scores,
            display_name,
        ) + 1,
        forall|other: Seq<char>|
            other != display_name ==> count_of(reply_step(s, Some(res)).0.scores, other)
                == count_of(s.scores, other),
        reply_step(s, Some(res)).0.state == State::Waiting,
{
    lemma_credit_count(s.scores, display_name);
    assert forall|other: Seq<char>| other != display_name implies count_of(
        reply_step(s, Some(res)).0.scores,
        other,
    ) == count_of(s.scores, other) by {
        lemma_credit_other(s.scores, display_name, other);
    }
}

/// Law: a legal `cancel_button` leaves the preamble alone in the log, an
/// empty score book, an empty roster, and the idle state.
pub proof fn lemma_cancel_resets(s: SessionV)
    requires
        session_wf(s),
        s.pending is None,
        s.state == State::Waiting,
    ensures
        event_step(s, EventV::CancelButton).0.log =~= seq![
            MsgV { role: Role::System, content: s.preamble },
        ],
        event_step(s, EventV::CancelButton).0.scores.len() == 0,
        event_step(s, EventV::CancelButton).0.roster.len() == 0,
        event_step(s, EventV::CancelButton).0.state == State::Idle,
        event_step(s, EventV::CancelButton).1 == ActionV::Respond(
            DirectiveV::Plain(crate::session::finish_msg()),
        ),
{
}

/// A whole handler, first and second half: when the first half calls the
/// language model, `r` is the outcome it came back with.
pub open spec fn complete_event(s: SessionV, e: EventV, r: Option<Seq<char>>) -> SessionV {
    let (s2, a) = event_step(s, e);
    if a is CallLlm {
        reply_step(s2, r).0
    } else {
        s2
    }
}

/// Law: handlers serialize. When two events are both legal in one state and
/// one handler runs to completion first, the second is decided against the
/// state the first left behind: exactly one of the two saw the state they
/// were issued in, and the other is either rejected there or transitions
/// from there.
pub proof fn lemma_serialized_handlers(
    s: SessionV,
    e1: EventV,
    e2: EventV,
    r1: Option<Seq<char>>,
)
    requires
        session_wf(s),
        s.pending is None,
        event_legal(s.state, e1),
        event_legal(s.state, e2),
    ensures
        event_legal(complete_event(s, e1, r1).state, e2) || event_step(
            complete_event(s, e1, r1),
            e2,
        ) == (
            complete_event(s, e1, r1),
            ActionV::Respond(DirectiveV::Ephemeral(timing_msg())),
        ),
{
    lemma_legality_total(complete_event(s, e1, r1), e2);
}

/// Law: of two `play` events issued in idle, exactly one starts the round.
/// The first to run resets the log and calls the language model once; after
/// its reply arrives the second is rejected as mistimed.
pub proof fn lemma_second_play_rejected(s: SessionV, r: Seq<char>)
    requires
        session_wf(s),
        s.pending is None,
        s.state == State::Idle,
    ensures
        event_step(s, EventV::Play).1 == ActionV::CallLlm(round_start_log(s.preamble)),
        !event_legal(complete_event(s, EventV::Play, Some(r)).state, EventV::Play),
        event_step(complete_event(s, EventV::Play, Some(r)), EventV::Play) == (
            complete_event(s, EventV::Play, Some(r)),
            ActionV::Respond(DirectiveV::Ephemeral(timing_msg())),
        ),
{
}

/// Law: `play` followed by `giveup` ends in waiting whatever the two
/// replies say.
pub proof fn lemma_play_then_giveup(s: SessionV, r1: Seq<char>, r2: Seq<char>)
    requires
        session_wf(s),
        s.pending is None,
        s.state == State::Idle,
    ensures
        complete_event(complete_event(s, EventV::Play, Some(r1)), EventV::Giveup, Some(r2)).state
            == State::Waiting,
{
}

/// Law: a second `cancel_button` is rejected purely by legality — the first
/// one moved the session to idle, where buttons are mistimed — and changes
/// nothing.
pub proof fn lemma_cancel_idempotent_via_legality(s: SessionV)
    requires
        session_wf(s),
        s.pending is None,
        s.state == State::Waiting,
    ensures
        event_step(event_step(s, EventV::CancelButton).0, EventV::CancelButton) == (
            event_step(s, EventV::CancelButton).0,
            ActionV::Respond(DirectiveV::Ephemeral(timing_msg())),
        ),
{
}

/// Law: a failed language-model call changes nothing but the pending token;
/// the state stands and the caller is told of the error.
pub proof fn lemma_llm_failure_keeps_state(s: SessionV)
    requires
        session_wf(s),
        s.pending is Some,
    ensures
        reply_step(s, None).0 == (SessionV { pending: None, ..s }),
        reply_step(s, None).1 == DirectiveV::Plain(api_error_msg()),
{
}

} // verus!
