//! Unit tests for the library's pieces: the log, the score book, the text
//! helpers, the configuration, the command catalog, and the renderer.

use soup_quiz::commands::classify_command;
use soup_quiz::commands::classify_component;
use soup_quiz::commands::command_catalog;
use soup_quiz::commands::unknown_component_message;
use soup_quiz::commands::CommandKind;
use soup_quiz::commands::ComponentKind;
use soup_quiz::config::Config;
use soup_quiz::config::ConfigError;
use soup_quiz::render::build_result_card;
use soup_quiz::render::result_buttons;
use soup_quiz::render::ButtonStyle;
use soup_quiz::text::parse_u64_dec;
use soup_quiz::text::str_eq;
use soup_quiz::text::str_starts_with;
use soup_quiz::text::u64_to_dec_string;
use soup_quiz::wire::request_for;
use soup_quiz::wire::Content;
use soup_quiz::wire::MessageRole;
use soup_quiz::wire::OpenAIClient;
use soup_quiz::wire::WireMessage;
use soup_quiz::Action;
use soup_quiz::ChatCompletionMessage;
use soup_quiz::Directive;
use soup_quiz::Event;
use soup_quiz::Session;
use soup_quiz::MessageLog;
use soup_quiz::Role;
use soup_quiz::ScoreBook;

#[test]
fn message_log_append_snapshot_reset() {
    let mut log = MessageLog::new("preamble".to_string());
    assert_eq!(log.len(), 1);
    log.append(Role::User, "first".to_string());
    log.append(Role::Assistant, "second".to_string());
    assert_eq!(log.len(), 3);

    let snapshot = log.snapshot();
    assert_eq!(snapshot.len(), 3);
    assert!(matches!(snapshot[0].role, Role::System));
    assert_eq!(snapshot[0].content, "preamble");
    assert!(matches!(snapshot[1].role, Role::User));
    assert_eq!(snapshot[1].content, "first");
    assert!(matches!(snapshot[2].role, Role::Assistant));
    assert_eq!(snapshot[2].content, "second");

    log.reset();
    assert_eq!(log.len(), 1);
    let snapshot = log.snapshot();
    assert!(matches!(snapshot[0].role, Role::System));
    assert_eq!(snapshot[0].content, "preamble");
}

#[test]
fn score_book_credit_and_get() {
    let mut book = ScoreBook::new();
    assert_eq!(book.len(), 0);
    assert_eq!(book.get(&"alice".to_string()), 0);

    book.credit(&"alice".to_string());
    book.credit(&"bob".to_string());
    book.credit(&"alice".to_string());
    assert_eq!(book.len(), 2);
    assert_eq!(book.get(&"alice".to_string()), 2);
    assert_eq!(book.get(&"bob".to_string()), 1);
    assert_eq!(book.get(&"carol".to_string()), 0);

    book.clear();
    assert_eq!(book.len(), 0);
    assert_eq!(book.get(&"alice".to_string()), 0);
}

#[test]
fn score_book_ranking_descends_and_keeps_tie_order() {
    let mut book = ScoreBook::new();
    book.credit(&"alice".to_string());
    book.credit(&"bob".to_string());
    book.credit(&"bob".to_string());
    book.credit(&"carol".to_string());

    let ranked = book.ranked();
    assert_eq!(ranked.len(), 3);
    assert_eq!(ranked[0].name, "bob");
    assert_eq!(ranked[0].count, 2);
    // alice and carol tie at one; book order is kept.
    assert_eq!(ranked[1].name, "alice");
    assert_eq!(ranked[1].count, 1);
    assert_eq!(ranked[2].name, "carol");
    assert_eq!(ranked[2].count, 1);
}

#[test]
fn decimal_rendering_is_exact() {
    assert_eq!(u64_to_dec_string(0), "0");
    assert_eq!(u64_to_dec_string(7), "7");
    assert_eq!(u64_to_dec_string(10), "10");
    assert_eq!(u64_to_dec_string(105), "105");
    assert_eq!(u64_to_dec_string(u64::MAX), "18446744073709551615");
}

#[test]
fn decimal_parsing_accepts_exactly_u64_numerals() {
    assert_eq!(parse_u64_dec("0"), Some(0));
    assert_eq!(parse_u64_dec("42"), Some(42));
    assert_eq!(parse_u64_dec("007"), Some(7));
    assert_eq!(parse_u64_dec("18446744073709551615"), Some(u64::MAX));
    assert_eq!(parse_u64_dec(""), None);
    assert_eq!(parse_u64_dec("12a"), None);
    assert_eq!(parse_u64_dec("-1"), None);
    assert_eq!(parse_u64_dec(" 1"), None);
    assert_eq!(parse_u64_dec("18446744073709551616"), None);
    assert_eq!(parse_u64_dec("１２３"), None);
}

#[test]
fn prefix_and_equality_walk_characters() {
    assert!(str_starts_with("正解です。そのとおり", "正解です。"));
    assert!(!str_starts_with("ほぼ正解です。", "正解です。"));
    assert!(str_starts_with("abc", ""));
    assert!(!str_starts_with("ab", "abc"));
    assert!(str_eq("次の問題に進む", "次の問題に進む"));
    assert!(!str_eq("next", "next_button"));
}

#[test]
fn config_reports_the_first_missing_secret() {
    let token = || Some("SECRET-REDACTED".to_string());
    let guild = || Some("123456789".to_string());
    let key = || Some("SECRET-REDACTED".to_string());

    let c = Config::from_secrets(token(), guild(), key()).unwrap();
    assert_eq!(c.discord_token, "SECRET-REDACTED");
    assert_eq!(c.discord_guild_id, 123456789);
    assert_eq!(c.openai_api_key, "SECRET-REDACTED");

    assert!(matches!(
        Config::from_secrets(None, guild(), key()),
        Err(ConfigError::MissingDiscordToken)
    ));
    assert!(matches!(
        Config::from_secrets(token(), None, key()),
        Err(ConfigError::MissingGuildId)
    ));
    assert!(matches!(
        Config::from_secrets(token(), Some("not-a-number".to_string()), key()),
        Err(ConfigError::MalformedGuildId)
    ));
    assert!(matches!(
        Config::from_secrets(token(), Some("18446744073709551616".to_string()), key()),
        Err(ConfigError::MalformedGuildId)
    ));
    assert!(matches!(
        Config::from_secrets(token(), guild(), None),
        Err(ConfigError::MissingApiKey)
    ));
}

#[test]
fn command_names_classify_as_the_table_says() {
    assert_eq!(classify_command("join"), Some(CommandKind::Join));
    assert_eq!(classify_command("play"), Some(CommandKind::Play));
    assert_eq!(classify_command("question"), Some(CommandKind::Question));
    assert_eq!(classify_command("answer"), Some(CommandKind::Answer));
    assert_eq!(classify_command("giveup"), Some(CommandKind::Giveup));
    assert_eq!(classify_command("start"), None);
    assert_eq!(classify_command(""), None);

    assert_eq!(classify_component("next_button"), ComponentKind::NextButton);
    assert_eq!(
        classify_component("cancel_button"),
        ComponentKind::CancelButton
    );
    assert_eq!(classify_component("demo"), ComponentKind::Unknown);
    assert_eq!(
        unknown_component_message(),
        "未知のコンポーネントが呼ばれました"
    );
}

#[test]
fn command_catalog_matches_the_registration_table() {
    let cmds = command_catalog();
    assert_eq!(cmds.len(), 5);
    assert_eq!(cmds[0].name, "play");
    assert_eq!(cmds[0].description, "ゲームスタート");
    assert!(cmds[0].option.is_none());
    assert_eq!(cmds[1].name, "join");
    assert_eq!(cmds[2].name, "question");
    let q = cmds[2].option.as_ref().unwrap();
    assert_eq!(q.name, "q");
    assert_eq!(q.description, "質問の内容を入力してください");
    assert_eq!(q.max_length, 100);
    assert!(q.required);
    assert_eq!(cmds[3].name, "answer");
    let a = cmds[3].option.as_ref().unwrap();
    assert_eq!(a.name, "a");
    assert_eq!(a.max_length, 100);
    assert!(a.required);
    assert_eq!(cmds[4].name, "giveup");
    assert!(cmds[4].option.is_none());
}

#[test]
fn result_card_bodies_are_exact() {
    let mut book = ScoreBook::new();
    book.credit(&"alice".to_string());
    book.credit(&"alice".to_string());
    book.credit(&"bob".to_string());

    let card = build_result_card(
        &"<@7>".to_string(),
        &"彼はしゃっくりをしていた。".to_string(),
        book.ranked(),
        false,
    );
    assert_eq!(
        card.body,
        "おめでとうございます🎉\n<@7>さん正解です！\n\n問題のストーリー\n彼はしゃっくりをしていた。"
    );
    assert_eq!(card.color, 0x00ff00);
    assert_eq!(card.fields.len(), 2);
    assert_eq!(card.fields[0].label, "alice");
    assert_eq!(card.fields[0].value, "2問正解");
    assert_eq!(card.fields[1].label, "bob");
    assert_eq!(card.fields[1].value, "1問正解");
    assert!(!card.fields[0].inline);

    let card = build_result_card(
        &String::new(),
        &"真相はこうです。".to_string(),
        Vec::new(),
        true,
    );
    assert_eq!(card.body, "残念、ギブアップです😢\n問題のストーリー\n真相はこうです。");
    assert!(card.fields.is_empty());
}

#[test]
fn result_buttons_are_fixed() {
    let buttons = result_buttons();
    assert_eq!(buttons.len(), 2);
    assert_eq!(buttons[0].custom_id, "next_button");
    assert_eq!(buttons[0].label, "次の問題に進む");
    assert!(matches!(buttons[0].style, ButtonStyle::Primary));
    assert_eq!(buttons[1].custom_id, "cancel_button");
    assert_eq!(buttons[1].label, "終了する");
    assert!(matches!(buttons[1].style, ButtonStyle::Danger));
}

#[test]
fn join_reply_is_exact() {
    let mut s = Session::new("p".to_string());
    let a = s.handle_event(Event::Join {
        user_id: 42,
        user_name: "alice".to_string(),
    });
    match a {
        Action::Respond(Directive::Plain(m)) => assert_eq!(
            m,
            "alice さん(ID: 42)が参加しました。\n現在の参加者数は1人です。\nゲームを開始するには\\startを入力してください"
        ),
        _ => panic!("join should reply with a plain message"),
    }
}

#[test]
fn wire_shapes_hold_the_protocol_constants() {
    let client = OpenAIClient::new("SECRET-REDACTED".to_string());
    assert_eq!(client.api_base, "https://api.openai.com/v1");
    assert_eq!(client.api_key, "SECRET-REDACTED");

    let snapshot = vec![ChatCompletionMessage::new(Role::System, "p".to_string())];
    let request = request_for(snapshot);
    assert_eq!(request.model, "gpt-4o-mini");
    assert_eq!(request.messages.len(), 1);

    let wire = WireMessage::of_message(&ChatCompletionMessage::new(
        Role::Assistant,
        "text".to_string(),
    ));
    assert!(matches!(wire.role, MessageRole::assistant));
    let Content::Text(t) = &wire.content;
    assert_eq!(t, "text");
    assert!(!wire.content.encodes_as_null());
    let empty = WireMessage::of_message(&ChatCompletionMessage::new(Role::User, String::new()));
    assert!(empty.content.encodes_as_null());
}
