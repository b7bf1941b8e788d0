//! End-to-end scenarios driven through the session controller, with the
//! language model's replies supplied by hand.

use soup_quiz::Action;
use soup_quiz::Role;
use soup_quiz::Directive;
use soup_quiz::Event;
use soup_quiz::LlmError;
use soup_quiz::Session;
use soup_quiz::State;

fn new_session() -> Session {
    Session::new(soup_quiz::messages::default_preamble())
}

fn ok(text: &str) -> Result<String, LlmError> {
    Ok(text.to_string())
}

fn err() -> Result<String, LlmError> {
    Err(LlmError {
        message: "connection reset".to_string(),
    })
}

fn join_event(id: u64, name: &str) -> Event {
    Event::Join {
        user_id: id,
        user_name: name.to_string(),
    }
}

fn answer_event(text: &str, id: u64, user_name: &str, global_name: Option<&str>) -> Event {
    Event::Answer {
        text: text.to_string(),
        user_id: id,
        user_name: user_name.to_string(),
        global_name: global_name.map(|g| g.to_string()),
    }
}

/// Runs one event to completion, feeding `reply` if the controller asks for
/// the language model; returns what the chat surface would render.
fn run(session: &mut Session, event: Event, reply: Option<Result<String, LlmError>>) -> Directive {
    match session.handle_event(event) {
        Action::Respond(d) => d,
        Action::CallLlm(_snapshot) => {
            let outcome = reply.expect("the controller asked for an LLM call the test did not plan");
            session.handle_reply(outcome)
        }
    }
}

#[test]
fn happy_path() {
    let mut s = new_session();

    let d = run(&mut s, join_event(7, "alice"), None);
    match d {
        Directive::Plain(m) => assert!(m.contains("alice")),
        _ => panic!("join should reply with a plain message"),
    }
    assert_eq!(s.roster_len(), 1);

    let d = run(&mut s, Event::Play, Some(ok("ある男がバーで水を頼んだ。")));
    match d {
        Directive::Plain(m) => assert!(m.starts_with("問題です\n")),
        _ => panic!("play should reply with a plain message"),
    }
    assert_eq!(s.state(), State::Playing);

    let d = run(
        &mut s,
        Event::Question {
            text: "was it outdoors?".to_string(),
        },
        Some(ok("いいえ")),
    );
    match d {
        Directive::Plain(m) => assert_eq!(m, "いいえ"),
        _ => panic!("question should reply with the assistant's text"),
    }
    assert_eq!(s.state(), State::Playing);

    let d = run(
        &mut s,
        answer_event("he had hiccups", 7, "alice#0", Some("alice")),
        Some(ok("正解です。彼はしゃっくりをしていた...")),
    );
    match d {
        Directive::Embed(card) => {
            assert!(card.body.starts_with("おめでとうございます🎉"));
            assert_eq!(
                card.body,
                "おめでとうございます🎉\n<@7>さん正解です！\n\n問題のストーリー\n正解です。彼はしゃっくりをしていた..."
            );
            assert_eq!(card.fields.len(), 1);
            assert_eq!(card.fields[0].label, "alice");
            assert_eq!(card.fields[0].value, "1問正解");
            assert!(!card.fields[0].inline);
        }
        _ => panic!("a correct answer should render the result embed"),
    }
    assert_eq!(s.roster_len(), 1);
    assert_eq!(s.score_of(&"alice".to_string()), 1);
    assert_eq!(s.state(), State::Waiting);
}

#[test]
fn giveup_path() {
    let mut s = new_session();
    run(&mut s, Event::Play, Some(ok("ある男の話。")));
    assert_eq!(s.state(), State::Playing);

    let d = run(&mut s, Event::Giveup, Some(ok("男はしゃっくりを止めたかった...")));
    match d {
        Directive::Embed(card) => {
            assert!(card.body.starts_with("残念、ギブアップです😢"));
            assert_eq!(
                card.body,
                "残念、ギブアップです😢\n問題のストーリー\n男はしゃっくりを止めたかった..."
            );
            assert!(card.fields.is_empty());
        }
        _ => panic!("giveup should render the result embed"),
    }
    assert_eq!(s.scores_len(), 0);
    assert_eq!(s.state(), State::Waiting);
}

#[test]
fn illegal_timing_in_idle() {
    let mut s = new_session();
    let before = s.log_len();
    let d = run(
        &mut s,
        Event::Question {
            text: "x".to_string(),
        },
        None,
    );
    match d {
        Directive::Ephemeral(m) => assert_eq!(m, "実行するタイミングが正しくありません"),
        _ => panic!("a mistimed command should get the ephemeral reply"),
    }
    assert_eq!(s.log_len(), before);
    assert_eq!(s.log_len(), 1);
    assert_eq!(s.state(), State::Idle);
}

#[test]
fn llm_failure_mid_question() {
    let mut s = new_session();
    run(&mut s, Event::Play, Some(ok("問題文")));
    assert_eq!(s.state(), State::Playing);

    let d = run(
        &mut s,
        Event::Question {
            text: "x".to_string(),
        },
        Some(err()),
    );
    match d {
        Directive::Plain(m) => assert_eq!(m, "APIの返却値取得においてエラーが発生しました"),
        _ => panic!("an LLM failure should get the plain error reply"),
    }
    assert_eq!(s.state(), State::Playing);
}

#[test]
fn full_cycle_states_and_scores() {
    let mut s = new_session();
    assert_eq!(s.state(), State::Idle);

    run(&mut s, Event::Play, Some(ok("第一問")));
    assert_eq!(s.state(), State::Playing);

    run(
        &mut s,
        answer_event("answer", 3, "bob", None),
        Some(ok("正解です。そのとおり。")),
    );
    assert_eq!(s.state(), State::Waiting);
    assert_eq!(s.score_of(&"bob".to_string()), 1);

    run(&mut s, Event::NextButton, Some(ok("第二問")));
    assert_eq!(s.state(), State::Playing);
    assert_eq!(s.score_of(&"bob".to_string()), 1);

    run(&mut s, Event::Giveup, Some(ok("ストーリーはこうです。")));
    assert_eq!(s.state(), State::Waiting);
    assert_eq!(s.score_of(&"bob".to_string()), 1);
}

#[test]
fn concurrent_play_serialized() {
    let mut s = new_session();

    // Two `play` events arrive together; the controller runs them one at a
    // time. The first one wins the round.
    let first = s.handle_event(Event::Play);
    let snapshot = match first {
        Action::CallLlm(snapshot) => snapshot,
        _ => panic!("the first play in idle should call the language model"),
    };
    assert_eq!(snapshot.len(), 2);
    assert_eq!(snapshot[1].content, "新しい問題を出題してください。");
    let d = s.handle_reply(ok("問題文"));
    match d {
        Directive::Plain(m) => assert_eq!(m, "問題です\n問題文"),
        _ => panic!("a successful play should reply with the puzzle"),
    }
    assert_eq!(s.state(), State::Playing);

    // The second play sees the state the first one left behind.
    let second = s.handle_event(Event::Play);
    match second {
        Action::Respond(Directive::Ephemeral(m)) => {
            assert_eq!(m, "実行するタイミングが正しくありません")
        }
        _ => panic!("the second play should be rejected as mistimed"),
    }
    assert_eq!(s.state(), State::Playing);
}

#[test]
fn cancel_button_resets_everything() {
    let mut s = new_session();
    run(&mut s, join_event(1, "alice"), None);
    run(&mut s, join_event(2, "carol"), None);
    run(&mut s, Event::Play, Some(ok("問題")));
    run(
        &mut s,
        answer_event("a", 1, "alice", None),
        Some(ok("正解です。")),
    );
    assert_eq!(s.state(), State::Waiting);
    assert_eq!(s.scores_len(), 1);
    assert_eq!(s.roster_len(), 2);
    assert!(s.log_len() > 1);

    let d = run(&mut s, Event::CancelButton, None);
    match d {
        Directive::Plain(m) => assert_eq!(m, "ゲームを終了します"),
        _ => panic!("cancel should reply with the finish message"),
    }
    assert_eq!(s.log_len(), 1);
    assert_eq!(s.scores_len(), 0);
    assert_eq!(s.roster_len(), 0);
    assert_eq!(s.state(), State::Idle);

    // A second cancel is rejected purely by legality.
    let d = run(&mut s, Event::CancelButton, None);
    match d {
        Directive::Ephemeral(m) => assert_eq!(m, "実行するタイミングが正しくありません"),
        _ => panic!("a second cancel should be rejected as mistimed"),
    }
    assert_eq!(s.state(), State::Idle);
}

#[test]
fn play_then_giveup_reaches_waiting_for_any_reply() {
    for (r1, r2) in [("", "x"), ("問題", ""), ("a", "b")] {
        let mut s = new_session();
        run(&mut s, Event::Play, Some(ok(r1)));
        run(&mut s, Event::Giveup, Some(ok(r2)));
        assert_eq!(s.state(), State::Waiting);
    }
}

#[test]
fn snapshot_shape_holds_on_every_call() {
    let mut s = new_session();
    run(&mut s, Event::Play, Some(ok("問題")));
    let a = s.handle_event(Event::Question {
        text: "q".to_string(),
    });
    let snapshot = match a {
        Action::CallLlm(snapshot) => snapshot,
        _ => panic!("question in playing should call the language model"),
    };
    // The whole conversation so far, in order, preamble first.
    assert_eq!(snapshot.len(), 4);
    assert!(matches!(snapshot[0].role, Role::System));
    assert!(matches!(snapshot[1].role, Role::User));
    assert_eq!(snapshot[1].content, "新しい問題を出題してください。");
    assert!(matches!(snapshot[2].role, Role::Assistant));
    assert_eq!(snapshot[2].content, "問題");
    assert!(matches!(snapshot[3].role, Role::User));
    assert_eq!(snapshot[3].content, "質問です。q");
    for m in &snapshot[1..] {
        assert!(!matches!(m.role, Role::System));
    }
    let _ = s.handle_reply(ok("はい"));
}

#[test]
fn duplicate_join_appends_again() {
    let mut s = new_session();
    run(&mut s, join_event(9, "alice"), None);
    let d = run(&mut s, join_event(9, "alice"), None);
    assert_eq!(s.roster_len(), 2);
    match d {
        Directive::Plain(m) => assert!(m.contains("現在の参加者数は2人です。")),
        _ => panic!("join should reply with a plain message"),
    }
}

#[test]
fn llm_failure_on_play_stays_idle() {
    let mut s = new_session();
    let d = run(&mut s, Event::Play, Some(err()));
    match d {
        Directive::Plain(m) => assert_eq!(m, "APIの返却値取得においてエラーが発生しました"),
        _ => panic!("a failed play should get the plain error reply"),
    }
    assert_eq!(s.state(), State::Idle);
    // The round's user message stays in the log after the failure.
    assert_eq!(s.log_len(), 2);
    // The state still being idle, a retry is legal and sends a fresh log.
    let a = s.handle_event(Event::Play);
    match a {
        Action::CallLlm(snapshot) => assert_eq!(snapshot.len(), 2),
        _ => panic!("the retried play should call the language model"),
    }
    let _ = s.handle_reply(ok("問題"));
    assert_eq!(s.state(), State::Playing);
}

#[test]
fn wrong_answer_stays_playing() {
    let mut s = new_session();
    run(&mut s, Event::Play, Some(ok("問題")));
    let d = run(
        &mut s,
        answer_event("wrong", 5, "dave", None),
        Some(ok("いいえ、違います。")),
    );
    match d {
        Directive::Plain(m) => assert_eq!(m, "いいえ、違います。"),
        _ => panic!("a wrong answer should echo the assistant's reply"),
    }
    assert_eq!(s.state(), State::Playing);
    assert_eq!(s.scores_len(), 0);
}
