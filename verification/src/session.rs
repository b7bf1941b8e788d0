//! The session controller: a per-guild state machine that serializes player
//! commands against the single conversation log, enforces which commands are
//! legal in which state, interprets the puzzle master's replies, keeps the
//! score, and chooses what the chat surface renders.
//!
//! A handler runs in two halves. `handle_event` performs the legality check
//! and every mutation up to the point where the conversation must go out to
//! the language model; when it returns [`Action::CallLlm`] the caller performs
//! that one call and hands the outcome to `handle_reply`, which finishes the
//! handler. The caller must run one event to completion before starting the
//! next; the `pending` token enforces that order.

use crate::messages::log_wf;
use crate::messages::ChatCompletionMessage;
use crate::messages::MessageLog;
use crate::messages::MsgV;
use crate::messages::Role;
use crate::render::build_result_card;
use crate::render::fields_of;
use crate::render::result_body;
use crate::render::result_color;
use crate::render::CardV;
use crate::render::ResultCard;
use crate::score::count_of;
use crate::score::credit_spec;
use crate::score::sort_desc;
use crate::score::unique_names;
use crate::score::EntryV;
use crate::score::ScoreBook;
use crate::score::ScoreEntry;
use crate::text::spec_udec;
use crate::text::starts_with;
use crate::text::str_starts_with;
use crate::text::u64_to_dec_string;
use vstd::prelude::*;

verus! {

/// The ephemeral reply to a command or button used at the wrong time.
pub open spec fn timing_msg() -> Seq<char> {
    "実行するタイミングが正しくありません"@
}

/// The plain reply when the language-model call fails.
pub open spec fn api_error_msg() -> Seq<char> {
    "APIの返却値取得においてエラーが発生しました"@
}

/// The user message that asks the puzzle master for a fresh puzzle.
pub open spec fn new_question_prompt() -> Seq<char> {
    "新しい問題を出題してください。"@
}

/// The marker put in front of a participant's yes/no question.
pub open spec fn question_prefix() -> Seq<char> {
    "質問です。"@
}

/// The marker put in front of a submitted solution.
pub open spec fn answer_prefix() -> Seq<char> {
    "回答です。"@
}

/// The user message that declares a give-up.
pub open spec fn giveup_decl() -> Seq<char> {
    "ギブアップです。"@
}

/// The line a fresh puzzle is announced under.
pub open spec fn puzzle_prefix() -> Seq<char> {
    "問題です\n"@
}

/// An assistant reply that starts with this marker adjudicates a solution
/// as correct.
pub open spec fn correct_prefix() -> Seq<char> {
    "正解です。"@
}

/// The plain reply when the game is ended from the result card.
pub open spec fn finish_msg() -> Seq<char> {
    "ゲームを終了します"@
}

/// The session's place in the game cycle.
#[derive(Clone, Copy, Debug, PartialEq, Eq, Structural)]
pub enum State {
    Idle,
    Playing,
    Waiting,
}

/// The one language-model call a handler may have in flight, with what the
/// second half of the handler needs to finish.
pub enum Pending {
    Play,
    Question,
    Answer { display_name: String, mention: String },
    Giveup,
    NextButton,
}

/// The mathematical value of a pending half-done handler.
#[verifier::ext_equal]
pub ghost enum PendingV {
    Play,
    Question,
    Answer { display_name: Seq<char>, mention: Seq<char> },
    Giveup,
    NextButton,
}

impl View for Pending {
    type V = PendingV;

    open spec fn view(&self) -> PendingV {
        match self {
            Pending::Play => PendingV::Play,
            Pending::Question => PendingV::Question,
            Pending::Answer { display_name, mention } => PendingV::Answer {
                display_name: display_name@,
                mention: mention@,
            },
            Pending::Giveup => PendingV::Giveup,
            Pending::NextButton => PendingV::NextButton,
        }
    }
}

/// The view of the optional pending token.
pub open spec fn pending_view(p: Option<Pending>) -> Option<PendingV> {
    match p {
        Some(x) => Some(x@),
        None => None,
    }
}

/// One event from the chat surface, already reduced to plain values.
pub enum Event {
    Join { user_id: u64, user_name: String },
    Play,
    Question { text: String },
    Answer { text: String, user_id: u64, user_name: String, global_name: Option<String> },
    Giveup,
    NextButton,
    CancelButton,
}

/// The mathematical value of an event.
#[verifier::ext_equal]
pub ghost enum EventV {
    Join { user_id: u64, user_name: Seq<char> },
    Play,
    Question { text: Seq<char> },
    Answer { text: Seq<char>, user_id: u64, user_name: Seq<char>, global_name: Option<Seq<char>> },
    Giveup,
    NextButton,
    CancelButton,
}

impl View for Event {
    type V = EventV;

    open spec fn view(&self) -> EventV {
        match self {
            Event::Join { user_id, user_name } => EventV::Join {
                user_id: *user_id,
                user_name: user_name@,
            },
            Event::Play => EventV::Play,
            Event::Question { text } => EventV::Question { text: text@ },
            Event::Answer { text, user_id, user_name, global_name } => EventV::Answer {
                text: text@,
                user_id: *user_id,
                user_name: user_name@,
                global_name: match global_name {
                    Some(g) => Some(g@),
                    None => None,
                },
            },
            Event::Giveup => EventV::Giveup,
            Event::NextButton => EventV::NextButton,
            Event::CancelButton => EventV::CancelButton,
        }
    }
}

/// What the chat surface is asked to render: a plain message, an ephemeral
/// message only the actor sees, or the result embed with its button row.
pub enum Directive {
    Plain(String),
    Ephemeral(String),
    Embed(ResultCard),
}

/// The mathematical value of a rendering directive.
#[verifier::ext_equal]
pub ghost enum DirectiveV {
    Plain(Seq<char>),
    Ephemeral(Seq<char>),
    Embed(CardV),
}

impl View for Directive {
    type V = DirectiveV;

    open spec fn view(&self) -> DirectiveV {
        match self {
            Directive::Plain(s) => DirectiveV::Plain(s@),
            Directive::Ephemeral(s) => DirectiveV::Ephemeral(s@),
            Directive::Embed(c) => DirectiveV::Embed(c@),
        }
    }
}

/// What a handler asks its caller to do next: render a directive, or send
/// the given conversation snapshot to the language model and come back with
/// the outcome through `handle_reply`.
pub enum Action {
    Respond(Directive),
    CallLlm(Vec<ChatCompletionMessage>),
}

/// The mathematical value of an action.
#[verifier::ext_equal]
pub ghost enum ActionV {
    Respond(DirectiveV),
    CallLlm(Seq<MsgV>),
}

impl View for Action {
    type V = ActionV;

    open spec fn view(&self) -> ActionV {
        match self {
            Action::Respond(d) => ActionV::Respond(d@),
            Action::CallLlm(v) => ActionV::CallLlm(v.deep_view()),
        }
    }
}

/// The failure of one language-model call, as the caller saw it.
pub struct LlmError {
    pub message: String,
}

/// The mathematical value of a whole session.
#[verifier::ext_equal]
pub ghost struct SessionV {
    pub preamble: Seq<char>,
    pub log: Seq<MsgV>,
    pub scores: Seq<EntryV>,
    pub roster: Seq<u64>,
    pub state: State,
    pub pending: Option<PendingV>,
}

/// A session is well formed when its log carries the preamble at index 0
/// and nothing else from the system, score names are unique, and a pending
/// half-done handler matches the state it started in.
pub open spec fn session_wf(s: SessionV) -> bool {
    &&& log_wf(s.log, s.preamble)
    &&& unique_names(s.scores)
    &&& match s.pending {
        None => true,
        Some(PendingV::Play) => s.state == State::Idle,
        Some(PendingV::Question) => s.state == State::Playing,
        Some(PendingV::Answer { .. }) => s.state == State::Playing,
        Some(PendingV::Giveup) => s.state == State::Playing,
        Some(PendingV::NextButton) => s.state == State::Waiting,
    }
}

/// The session a controller starts from: preamble alone in the log, no
/// scores, no roster, idle, nothing in flight.
pub open spec fn initial_session(preamble: Seq<char>) -> SessionV {
    SessionV {
        preamble,
        log: seq![MsgV { role: Role::System, content: preamble }],
        scores: Seq::empty(),
        roster: Seq::empty(),
        state: State::Idle,
        pending: None,
    }
}

/// The legality table: which events each state accepts. Every other
/// (state, event) pair is rejected with the ephemeral timing message.
pub open spec fn event_legal(state: State, e: EventV) -> bool {
    match state {
        State::Idle => e is Join || e is Play,
        State::Playing => e is Question || e is Answer || e is Giveup,
        State::Waiting => e is NextButton || e is CancelButton,
    }
}

/// The display name a score is kept under: the global name when the chat
/// account has one, else the account name.
pub open spec fn display_name_v(global_name: Option<Seq<char>>, user_name: Seq<char>) -> Seq<char> {
    match global_name {
        Some(g) => g,
        None => user_name,
    }
}

/// The inline mention of a participant.
pub open spec fn mention_v(user_id: u64) -> Seq<char> {
    "<@"@ + spec_udec(user_id as nat) + ">"@
}

/// The plain reply to a join, naming the participant and the roster size.
pub open spec fn join_message_v(user_name: Seq<char>, user_id: u64, count: nat) -> Seq<char> {
    user_name + " さん(ID: "@ + spec_udec(user_id as nat) + ")が参加しました。\n現在の参加者数は"@
        + spec_udec(count) + "人です。\nゲームを開始するには\\startを入力してください"@
}

/// The log a round starts from: the preamble and the request for a puzzle.
pub open spec fn round_start_log(preamble: Seq<char>) -> Seq<MsgV> {
    seq![
        MsgV { role: Role::System, content: preamble },
        MsgV { role: Role::User, content: new_question_prompt() },
    ]
}

/// The first half of every handler: the legality check and all mutation up
/// to the language-model call, as one atomic step.
pub open spec fn event_step(s: SessionV, e: EventV) -> (SessionV, ActionV) {
    if !event_legal(s.state, e) {
        (s, ActionV::Respond(DirectiveV::Ephemeral(timing_msg())))
    } else {
        match e {
            EventV::Join { user_id, user_name } => {
                let s2 = SessionV { roster: s.roster.push(user_id), ..s };
                (
                    s2,
                    ActionV::Respond(
                        DirectiveV::Plain(join_message_v(user_name, user_id, s2.roster.len())),
                    ),
                )
            },
            EventV::Play => {
                let s2 = SessionV {
                    log: round_start_log(s.preamble),
                    pending: Some(PendingV::Play),
                    ..s
                };
                (s2, ActionV::CallLlm(s2.log))
            },
            EventV::Question { text } => {
                let s2 = SessionV {
                    log: s.log.push(MsgV { role: Role::User, content: question_prefix() + text }),
                    pending: Some(PendingV::Question),
                    ..s
                };
                (s2, ActionV::CallLlm(s2.log))
            },
            EventV::Answer { text, user_id, user_name, global_name } => {
                let s2 = SessionV {
                    log: s.log.push(MsgV { role: Role::User, content: answer_prefix() + text }),
                    pending: Some(
                        PendingV::Answer {
                            display_name: display_name_v(global_name, user_name),
                            mention: mention_v(user_id),
                        },
                    ),
                    ..s
                };
                (s2, ActionV::CallLlm(s2.log))
            },
            EventV::Giveup => {
                let s2 = SessionV {
                    log: s.log.push(MsgV { role: Role::User, content: giveup_decl() }),
                    pending: Some(PendingV::Giveup),
                    ..s
                };
                (s2, ActionV::CallLlm(s2.log))
            },
            EventV::NextButton => {
                let s2 = SessionV {
                    log: round_start_log(s.preamble),
                    pending: Some(PendingV::NextButton),
                    ..s
                };
                (s2, ActionV::CallLlm(s2.log))
            },
            EventV::CancelButton => {
                let s2 = SessionV {
                    log: seq![MsgV { role: Role::System, content: s.preamble }],
                    scores: Seq::empty(),
                    roster: Seq::empty(),
                    state: State::Idle,
                    pending: None,
                    ..s
                };
                (s2, ActionV::Respond(DirectiveV::Plain(finish_msg())))
            },
        }
    }
}

/// What the language model's outcome looks like to the specification: the
/// reply text, or nothing on failure.
pub open spec fn reply_view(r: Result<String, LlmError>) -> Option<Seq<char>> {
    match r {
        Ok(res) => Some(res@),
        Err(_) => None,
    }
}

/// The machine limit on scoring: a correct answer must not push the
/// winner's counter past `u32::MAX`.
pub open spec fn reply_fits(s: SessionV, r: Option<Seq<char>>) -> bool {
    match (s.pending, r) {
        (Some(PendingV::Answer { display_name, .. }), Some(res)) => starts_with(
            res,
            correct_prefix(),
        ) ==> count_of(s.scores, display_name) < u32::MAX,
        _ => true,
    }
}

/// The second half of a handler: how the session absorbs the language
/// model's outcome and what the chat surface renders. On failure nothing
/// changes but the pending token; the user message appended before the call
/// stays in the log.
pub open spec fn reply_step(s: SessionV, r: Option<Seq<char>>) -> (SessionV, DirectiveV) {
    match r {
        None => (SessionV { pending: None, ..s }, DirectiveV::Plain(api_error_msg())),
        Some(res) => {
            let log2 = s.log.push(MsgV { role: Role::Assistant, content: res });
            match s.pending {
                None => (s, DirectiveV::Plain(api_error_msg())),
                Some(PendingV::Play) => (
                    SessionV { log: log2, state: State::Playing, pending: None, ..s },
                    DirectiveV::Plain(puzzle_prefix() + res),
                ),
                Some(PendingV::NextButton) => (
                    SessionV { log: log2, state: State::Playing, pending: None, ..s },
                    DirectiveV::Plain(puzzle_prefix() + res),
                ),
                Some(PendingV::Question) => (
                    SessionV { log: log2, pending: None, ..s },
                    DirectiveV::Plain(res),
                ),
                Some(PendingV::Answer { display_name, mention }) => {
                    if starts_with(res, correct_prefix()) {
                        let scores2 = credit_spec(s.scores, display_name);
                        (
                            SessionV {
                                log: log2,
                                scores: scores2,
                                state: State::Waiting,
                                pending: None,
                                ..s
                            },
                            DirectiveV::Embed(
                                CardV {
                                    body: result_body(mention, res, false),
                                    fields: fields_of(sort_desc(scores2)),
                                    color: result_color(),
                                },
                            ),
                        )
                    } else {
                        (SessionV { log: log2, pending: None, ..s }, DirectiveV::Plain(res))
                    }
                },
                Some(PendingV::Giveup) => (
                    SessionV { log: log2, state: State::Waiting, pending: None, ..s },
                    DirectiveV::Embed(
                        CardV {
                            body: result_body(Seq::empty(), res, true),
                            fields: fields_of(sort_desc(s.scores)),
                            color: result_color(),
                        },
                    ),
                ),
            }
        },
    }
}

fn timing_ephemeral() -> (d: Directive)
    ensures
        d@ == DirectiveV::Ephemeral(timing_msg()),
{
    Directive::Ephemeral(String::from_str("実行するタイミングが正しくありません"))
}

/// The controller: the four game structures and the pending token, mutated
/// only through the handlers below.
pub struct Session {
    log: MessageLog,
    scores: ScoreBook,
    roster: Vec<u64>,
    state: State,
    pending: Option<Pending>,
}

impl View for Session {
    type V = SessionV;

    closed spec fn view(&self) -> SessionV {
        SessionV {
            preamble: self.log.preamble_view(),
            log: self.log@,
            scores: self.scores@,
            roster: self.roster@,
            state: self.state,
            pending: pending_view(self.pending),
        }
    }
}

impl Session {
    pub open spec fn wf(&self) -> bool {
        session_wf(self@)
    }

    /// A fresh controller seeded with the puzzle master's preamble.
    pub fn new(preamble: String) -> (session: Self)
        ensures
            session.wf(),
            session@ == initial_session(preamble@),
    {
        let session = Session {
            log: MessageLog::new(preamble),
            scores: ScoreBook::new(),
            roster: Vec::new(),
            state: State::Idle,
            pending: None,
        };
        proof {
            assert(session@ =~~= initial_session(session.log.preamble_view()));
        }
        session
    }

    /// Adds a participant to the roster and names the new roster size.
    pub fn join(&mut self, user_id: u64, user_name: String) -> (d: Directive)
        requires
            old(self).wf(),
            old(self)@.pending is None,
        ensures
            final(self).wf(),
            final(self)@ == event_step(
                old(self)@,
                EventV::Join { user_id, user_name: user_name@ },
            ).0,
            ActionV::Respond(d@) == event_step(
                old(self)@,
                EventV::Join { user_id, user_name: user_name@ },
            ).1,
    {
        let ghost ev = EventV::Join { user_id, user_name: user_name@ };
        if !(matches!(self.state, State::Idle)) {
            return timing_ephemeral();
        }
        self.roster.push(user_id);
        let count = self.roster.len();
        let mut m = user_name;
        m.append(" さん(ID: ");
        let id_dec = u64_to_dec_string(user_id);
        m.append(id_dec.as_str());
        m.append(")が参加しました。\n現在の参加者数は");
        let count_dec = u64_to_dec_string(count as u64);
        m.append(count_dec.as_str());
        m.append("人です。\nゲームを開始するには\\startを入力してください");
        proof {
            assert(self@ =~~= event_step(old(self)@, ev).0);
        }
        Directive::Plain(m)
    }

    /// Starts a round from idle: resets the log, asks for a puzzle, and
    /// hands the caller the conversation to send.
    pub fn play(&mut self) -> (a: Action)
        requires
            old(self).wf(),
            old(self)@.pending is None,
        ensures
            final(self).wf(),
            final(self)@ == event_step(old(self)@, EventV::Play).0,
            a@ == event_step(old(self)@, EventV::Play).1,
    {
        if !(matches!(self.state, State::Idle)) {
            return Action::Respond(timing_ephemeral());
        }
        self.begin_round();
        self.pending = Some(Pending::Play);
        let snap = self.log.snapshot();
        proof {
            assert(self@ =~~= event_step(old(self)@, EventV::Play).0);
        }
        Action::CallLlm(snap)
    }

    /// Forwards a yes/no question to the puzzle master.
    pub fn question(&mut self, text: String) -> (a: Action)
        requires
            old(self).wf(),
            old(self)@.pending is None,
        ensures
            final(self).wf(),
            final(self)@ == event_step(old(self)@, EventV::Question { text: text@ }).0,
            a@ == event_step(old(self)@, EventV::Question { text: text@ }).1,
    {
        let ghost ev = EventV::Question { text: text@ };
        if !(matches!(self.state, State::Playing)) {
            return Action::Respond(timing_ephemeral());
        }
        let mut q = String::from_str("質問です。");
        q.append(text.as_str());
        self.log.append(Role::User, q);
        self.pending = Some(Pending::Question);
        let snap = self.log.snapshot();
        proof {
            assert(self@ =~~= event_step(old(self)@, ev).0);
        }
        Action::CallLlm(snap)
    }

    /// Forwards a submitted solution, remembering who answered so a correct
    /// adjudication can be scored and announced.
    pub fn answer(
        &mut self,
        text: String,
        user_id: u64,
        user_name: String,
        global_name: Option<String>,
    ) -> (a: Action)
        requires
            old(self).wf(),
            old(self)@.pending is None,
        ensures
            final(self).wf(),
            final(self)@ == event_step(
                old(self)@,
                EventV::Answer {
                    text: text@,
                    user_id,
                    user_name: user_name@,
                    global_name: match global_name {
                        Some(g) => Some(g@),
                        None => None,
                    },
                },
            ).0,
            a@ == event_step(
                old(self)@,
                EventV::Answer {
                    text: text@,
                    user_id,
                    user_name: user_name@,
                    global_name: match global_name {
                        Some(g) => Some(g@),
                        None => None,
                    },
                },
            ).1,
    {
        let ghost ev = EventV::Answer {
            text: text@,
            user_id,
            user_name: user_name@,
            global_name: match global_name {
                Some(ref g) => Some(g@),
                None => None,
            },
        };
        if !(matches!(self.state, State::Playing)) {
            return Action::Respond(timing_ephemeral());
        }
        let mut ans = String::from_str("回答です。");
        ans.append(text.as_str());
        self.log.append(Role::User, ans);
        let display_name = match global_name {
            Some(g) => g,
            None => user_name,
        };
        let mut mention = String::from_str("<@");
        let id_dec = u64_to_dec_string(user_id);
        mention.append(id_dec.as_str());
        mention.append(">");
        self.pending = Some(Pending::Answer { display_name, mention });
        let snap = self.log.snapshot();
        proof {
            assert(self@ =~~= event_step(old(self)@, ev).0);
        }
        Action::CallLlm(snap)
    }

    /// Gives the round up; the puzzle master will reveal the story.
    pub fn giveup(&mut self) -> (a: Action)
        requires
            old(self).wf(),
            old(self)@.pending is None,
        ensures
            final(self).wf(),
            final(self)@ == event_step(old(self)@, EventV::Giveup).0,
            a@ == event_step(old(self)@, EventV::Giveup).1,
    {
        if !(matches!(self.state, State::Playing)) {
            return Action::Respond(timing_ephemeral());
        }
        self.log.append(Role::User, String::from_str("ギブアップです。"));
        self.pending = Some(Pending::Giveup);
        let snap = self.log.snapshot();
        proof {
            assert(self@ =~~= event_step(old(self)@, EventV::Giveup).0);
        }
        Action::CallLlm(snap)
    }

    /// Starts the next round from the result card.
    pub fn next_button(&mut self) -> (a: Action)
        requires
            old(self).wf(),
            old(self)@.pending is None,
        ensures
            final(self).wf(),
            final(self)@ == event_step(old(self)@, EventV::NextButton).0,
            a@ == event_step(old(self)@, EventV::NextButton).1,
    {
        if !(matches!(self.state, State::Waiting)) {
            return Action::Respond(timing_ephemeral());
        }
        self.begin_round();
        self.pending = Some(Pending::NextButton);
        let snap = self.log.snapshot();
        proof {
            assert(self@ =~~= event_step(old(self)@, EventV::NextButton).0);
        }
        Action::CallLlm(snap)
    }

    /// Ends the game from the result card: full reset back to idle.
    pub fn cancel_button(&mut self) -> (d: Directive)
        requires
            old(self).wf(),
            old(self)@.pending is None,
        ensures
            final(self).wf(),
            final(self)@ == event_step(old(self)@, EventV::CancelButton).0,
            ActionV::Respond(d@) == event_step(old(self)@, EventV::CancelButton).1,
    {
        if !(matches!(self.state, State::Waiting)) {
            return timing_ephemeral();
        }
        self.log.reset();
        self.scores.clear();
        self.roster.clear();
        self.state = State::Idle;
        proof {
            assert(self@ =~~= event_step(old(self)@, EventV::CancelButton).0);
        }
        Directive::Plain(String::from_str("ゲームを終了します"))
    }

    /// One handler's first half, for any event.
    pub fn handle_event(&mut self, e: Event) -> (a: Action)
        requires
            old(self).wf(),
            old(self)@.pending is None,
        ensures
            final(self).wf(),
            final(self)@ == event_step(old(self)@, e@).0,
            a@ == event_step(old(self)@, e@).1,
    {
        match e {
            Event::Join { user_id, user_name } => Action::Respond(self.join(user_id, user_name)),
            Event::Play => self.play(),
            Event::Question { text } => self.question(text),
            Event::Answer { text, user_id, user_name, global_name } => self.answer(
                text,
                user_id,
                user_name,
                global_name,
            ),
            Event::Giveup => self.giveup(),
            Event::NextButton => self.next_button(),
            Event::CancelButton => Action::Respond(self.cancel_button()),
        }
    }

    /// One handler's second half: absorbs the language model's outcome.
    pub fn handle_reply(&mut self, reply: Result<String, LlmError>) -> (d: Directive)
        requires
            old(self).wf(),
            old(self)@.pending is Some,
            reply_fits(old(self)@, reply_view(reply)),
        ensures
            final(self).wf(),
            final(self)@ == reply_step(old(self)@, reply_view(reply)).0,
            d@ == reply_step(old(self)@, reply_view(reply)).1,
    {
        let p = self.pending.take();
        let res = match reply {
            Ok(res) => res,
            Err(_) => {
                proof {
                    assert(self@ =~~= reply_step(old(self)@, reply_view(reply)).0);
                }
                return Directive::Plain(
                    String::from_str("APIの返却値取得においてエラーが発生しました"),
                );
            },
        };
        match p {
            None => {
                // Ruled out by the precondition: a reply arrives only while
                // a handler is half done.
                proof {
                    assert(false);
                }
                Directive::Plain(String::new())
            },
            Some(Pending::Play) => {
                self.log.append(Role::Assistant, res.clone());
                self.state = State::Playing;
                let mut m = String::from_str("問題です\n");
                m.append(res.as_str());
                proof {
                    assert(self@ =~~= reply_step(old(self)@, reply_view(reply)).0);
                }
                Directive::Plain(m)
            },
            Some(Pending::NextButton) => {
                self.log.append(Role::Assistant, res.clone());
                self.state = State::Playing;
                let mut m = String::from_str("問題です\n");
                m.append(res.as_str());
                proof {
                    assert(self@ =~~= reply_step(old(self)@, reply_view(reply)).0);
                }
                Directive::Plain(m)
            },
            Some(Pending::Question) => {
                self.log.append(Role::Assistant, res.clone());
                proof {
                    assert(self@ =~~= reply_step(old(self)@, reply_view(reply)).0);
                }
                Directive::Plain(res)
            },
            Some(Pending::Answer { display_name, mention }) => {
                self.log.append(Role::Assistant, res.clone());
                let correct = str_starts_with(res.as_str(), "正解です。");
                if correct {
                    self.scores.credit(&display_name);
                    self.state = State::Waiting;
                    let ranked = self.scores.ranked();
                    let card = build_result_card(&mention, &res, ranked, false);
                    proof {
                        assert(self@ =~~= reply_step(old(self)@, reply_view(reply)).0);
                        assert(card@ =~~= reply_step(old(self)@, reply_view(reply)).1->Embed_0);
                    }
                    Directive::Embed(card)
                } else {
                    proof {
                        assert(self@ =~~= reply_step(old(self)@, reply_view(reply)).0);
                    }
                    Directive::Plain(res)
                }
            },
            Some(Pending::Giveup) => {
                self.log.append(Role::Assistant, res.clone());
                self.state = State::Waiting;
                let ranked = self.scores.ranked();
                let empty_mention = String::new();
                let card = build_result_card(&empty_mention, &res, ranked, true);
                proof {
                    assert(self@ =~~= reply_step(old(self)@, reply_view(reply)).0);
                    assert(card@ =~~= reply_step(old(self)@, reply_view(reply)).1->Embed_0);
                }
                Directive::Embed(card)
            },
        }
    }

    /// Resets the log and asks the puzzle master for a fresh puzzle; shared
    /// by `play` and `next_button`.
    fn begin_round(&mut self)
        requires
            old(self).wf(),
        ensures
            final(self)@ =~~= (SessionV { log: round_start_log(old(self)@.preamble), ..old(self)@ }),
            final(self).wf(),
    {
        self.log.reset();
        self.log.append(Role::User, String::from_str("新しい問題を出題してください。"));
    }

    /// The session's place in the game cycle.
    pub fn state(&self) -> (s: State)
        ensures
            s == self@.state,
    {
        self.state
    }

    /// Whether a handler is half done, waiting on the language model.
    pub fn has_pending(&self) -> (b: bool)
        ensures
            b == (self@.pending is Some),
    {
        self.pending.is_some()
    }

    /// How many joins the current game has seen.
    pub fn roster_len(&self) -> (n: usize)
        ensures
            n == self@.roster.len(),
    {
        self.roster.len()
    }

    /// How many messages the conversation log holds.
    pub fn log_len(&self) -> (n: usize)
        ensures
            n == self@.log.len(),
    {
        self.log.len()
    }

    /// The recorded count for one display name; zero when absent.
    pub fn score_of(&self, name: &String) -> (c: u32)
        ensures
            c as nat == count_of(self@.scores, name@),
    {
        self.scores.get(name)
    }

    /// How many display names hold a score.
    pub fn scores_len(&self) -> (n: usize)
        ensures
            n == self@.scores.len(),
    {
        self.scores.len()
    }

    /// The current ranking, ordered by descending count.
    pub fn ranked_scores(&self) -> (r: Vec<ScoreEntry>)
        ensures
            r.deep_view() =~= sort_desc(self@.scores),
    {
        self.scores.ranked()
    }

    /// A copy of the conversation log.
    pub fn log_snapshot(&self) -> (copy: Vec<ChatCompletionMessage>)
        ensures
            copy.deep_view() =~= self@.log,
    {
        self.log.snapshot()
    }
}

} // verus!
