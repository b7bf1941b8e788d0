//! What the chat surface registers and dispatches on: the slash-command
//! catalog, and the classification of command names and button ids.

use crate::text::str_eq;
use vstd::prelude::*;

verus! {

/// The slash commands the bot understands.
#[derive(Clone, Copy, Debug, PartialEq, Eq, Structural)]
pub enum CommandKind {
    Join,
    Play,
    Question,
    Answer,
    Giveup,
}

/// Which command a name from the chat surface denotes, if any.
pub open spec fn classify_command_spec(name: Seq<char>) -> Option<CommandKind> {
    if name == "join"@ {
        Some(CommandKind::Join)
    } else if name == "play"@ {
        Some(CommandKind::Play)
    } else if name == "question"@ {
        Some(CommandKind::Question)
    } else if name == "answer"@ {
        Some(CommandKind::Answer)
    } else if name == "giveup"@ {
        Some(CommandKind::Giveup)
    } else {
        None
    }
}

pub fn classify_command(name: &str) -> (r: Option<CommandKind>)
    ensures
        r == classify_command_spec(name@),
{
    if str_eq(name, "join") {
        Some(CommandKind::Join)
    } else if str_eq(name, "play") {
        Some(CommandKind::Play)
    } else if str_eq(name, "question") {
        Some(CommandKind::Question)
    } else if str_eq(name, "answer") {
        Some(CommandKind::Answer)
    } else if str_eq(name, "giveup") {
        Some(CommandKind::Giveup)
    } else {
        None
    }
}

/// The buttons of the result card's follow-up row, or something unknown.
#[derive(Clone, Copy, Debug, PartialEq, Eq, Structural)]
pub enum ComponentKind {
    NextButton,
    CancelButton,
    Unknown,
}

/// Which button a component's custom id denotes.
pub open spec fn classify_component_spec(custom_id: Seq<char>) -> ComponentKind {
    if custom_id == "next_button"@ {
        ComponentKind::NextButton
    } else if custom_id == "cancel_button"@ {
        ComponentKind::CancelButton
    } else {
        ComponentKind::Unknown
    }
}

pub fn classify_component(custom_id: &str) -> (r: ComponentKind)
    ensures
        r == classify_component_spec(custom_id@),
{
    if str_eq(custom_id, "next_button") {
        ComponentKind::NextButton
    } else if str_eq(custom_id, "cancel_button") {
        ComponentKind::CancelButton
    } else {
        ComponentKind::Unknown
    }
}

/// The reply to a component interaction that is neither button.
pub fn unknown_component_message() -> (m: String)
    ensures
        m@ == "未知のコンポーネントが呼ばれました"@,
{
    String::from_str("未知のコンポーネントが呼ばれました")
}

/// One option of a slash command.
pub struct CommandOptionSpec {
    pub name: String,
    pub description: String,
    pub max_length: u16,
    pub required: bool,
}

/// The mathematical value of a command option.
#[verifier::ext_equal]
pub ghost struct CommandOptionV {
    pub name: Seq<char>,
    pub description: Seq<char>,
    pub max_length: u16,
    pub required: bool,
}

impl View for CommandOptionSpec {
    type V = CommandOptionV;

    open spec fn view(&self) -> CommandOptionV {
        CommandOptionV {
            name: self.name@,
            description: self.description@,
            max_length: self.max_length,
            required: self.required,
        }
    }
}

/// One slash command to register: its name, its description, and its one
/// string option, if it takes one.
pub struct CommandSpec {
    pub name: String,
    pub description: String,
    pub option: Option<CommandOptionSpec>,
}

/// The mathematical value of a command registration.
#[verifier::ext_equal]
pub ghost struct CommandV {
    pub name: Seq<char>,
    pub description: Seq<char>,
    pub option: Option<CommandOptionV>,
}

impl View for CommandSpec {
    type V = CommandV;

    open spec fn view(&self) -> CommandV {
        CommandV {
            name: self.name@,
            description: self.description@,
            option: match &self.option {
                Some(o) => Some(o@),
                None => None,
            },
        }
    }
}

impl DeepView for CommandSpec {
    type V = CommandV;

    open spec fn deep_view(&self) -> CommandV {
        self.view()
    }
}

/// The catalog of slash commands the bot registers at startup.
pub open spec fn command_catalog_spec() -> Seq<CommandV> {
    seq![
        CommandV { name: "play"@, description: "ゲームスタート"@, option: None },
        CommandV { name: "join"@, description: "参加"@, option: None },
        CommandV {
            name: "question"@,
            description: "質問を送信します"@,
            option: Some(
                CommandOptionV {
                    name: "q"@,
                    description: "質問の内容を入力してください"@,
                    max_length: 100,
                    required: true,
                },
            ),
        },
        CommandV {
            name: "answer"@,
            description: "回答を送信します"@,
            option: Some(
                CommandOptionV {
                    name: "a"@,
                    description: "回答の内容を入力してください"@,
                    max_length: 100,
                    required: true,
                },
            ),
        },
        CommandV { name: "giveup"@, description: "ゲームを終了します"@, option: None },
    ]
}

/// Builds the catalog for the chat surface to register.
pub fn command_catalog() -> (cmds: Vec<CommandSpec>)
    ensures
        cmds.deep_view() =~~= command_catalog_spec(),
{
    let mut cmds: Vec<CommandSpec> = Vec::new();
    cmds.push(
        CommandSpec {
            name: String::from_str("play"),
            description: String::from_str("ゲームスタート"),
            option: None,
        },
    );
    cmds.push(
        CommandSpec {
            name: String::from_str("join"),
            description: String::from_str("参加"),
            option: None,
        },
    );
    cmds.push(
        CommandSpec {
            name: String::from_str("question"),
            description: String::from_str("質問を送信します"),
            option: Some(
                CommandOptionSpec {
                    name: String::from_str("q"),
                    description: String::from_str("質問の内容を入力してください"),
                    max_length: 100,
                    required: true,
                },
            ),
        },
    );
    cmds.push(
        CommandSpec {
            name: String::from_str("answer"),
            description: String::from_str("回答を送信します"),
            option: Some(
                CommandOptionSpec {
                    name: String::from_str("a"),
                    description: String::from_str("回答の内容を入力してください"),
                    max_length: 100,
                    required: true,
                },
            ),
        },
    );
    cmds.push(
        CommandSpec {
            name: String::from_str("giveup"),
            description: String::from_str("ゲームを終了します"),
            option: None,
        },
    );
    cmds
}

} // verus!
