//! The conversation with the puzzle master: message roles, messages, and the
//! ordered message log with its pinned system preamble.

use vstd::prelude::*;

verus! {

/// Who authored a message in the conversation with the puzzle master.
#[derive(Clone, Copy, Debug, PartialEq, Eq, Structural)]
pub enum Role {
    User,
    Assistant,
    System,
}

/// One message of the conversation, as it is sent to the language model.
pub struct ChatCompletionMessage {
    pub role: Role,
    pub content: String,
}

/// The mathematical value of a message: its role and its text.
#[verifier::ext_equal]
pub ghost struct MsgV {
    pub role: Role,
    pub content: Seq<char>,
}

impl View for ChatCompletionMessage {
    type V = MsgV;

    open spec fn view(&self) -> MsgV {
        MsgV { role: self.role, content: self.content@ }
    }
}

impl DeepView for ChatCompletionMessage {
    type V = MsgV;

    open spec fn deep_view(&self) -> MsgV {
        self.view()
    }
}

impl ChatCompletionMessage {
    pub fn new(role: Role, content: String) -> (m: Self)
        ensures
            m@ == (MsgV { role, content: content@ }),
    {
        ChatCompletionMessage { role, content }
    }
}

impl Clone for ChatCompletionMessage {
    fn clone(&self) -> (m: Self)
        ensures
            m@ == self@,
    {
        ChatCompletionMessage { role: self.role, content: self.content.clone() }
    }
}

/// The system preamble the controller is seeded with: the puzzle-master
/// role, the question/answer/give-up protocol, and the output format the
/// adjudication relies on (a correct answer is announced with the exact
/// prefix the controller tests for).
pub fn default_preamble() -> (p: String)
    ensures
        p@
            == "あなたはウミガメのスープと呼ばれる水平思考クイズの出題者です。短い謎の問題文とその裏のストーリーをひとつ用意してください。参加者が「質問です。」で始まるメッセージを送ったら、その質問に「はい」「いいえ」「関係ありません」のいずれかだけで答えてください。「回答です。」で始まるメッセージがストーリーの核心を言い当てていたら、返答の先頭に必ず「正解です。」と付けてからストーリー全体を説明してください。「ギブアップです。」と言われたらストーリーを明かしてください。前置きや挨拶は書かず、出題のときは問題文だけを出力してください。"@,
{
    String::from_str(
        "あなたはウミガメのスープと呼ばれる水平思考クイズの出題者です。短い謎の問題文とその裏のストーリーをひとつ用意してください。参加者が「質問です。」で始まるメッセージを送ったら、その質問に「はい」「いいえ」「関係ありません」のいずれかだけで答えてください。「回答です。」で始まるメッセージがストーリーの核心を言い当てていたら、返答の先頭に必ず「正解です。」と付けてからストーリー全体を説明してください。「ギブアップです。」と言われたらストーリーを明かしてください。前置きや挨拶は書かず、出題のときは問題文だけを出力してください。",
    )
}

/// A log is well formed when the system preamble sits alone at index 0 and
/// every later entry belongs to the user or the assistant.
pub open spec fn log_wf(log: Seq<MsgV>, preamble: Seq<char>) -> bool {
    &&& log.len() >= 1
    &&& log[0] == (MsgV { role: Role::System, content: preamble })
    &&& forall|i: int| 0 < i < log.len() ==> (#[trigger] log[i].role) != Role::System
}

/// The ordered conversation log. Index 0 is always the system preamble;
/// `reset` truncates back to it and nothing ever removes it.
pub struct MessageLog {
    msgs: Vec<ChatCompletionMessage>,
    preamble: String,
}

impl View for MessageLog {
    type V = Seq<MsgV>;

    closed spec fn view(&self) -> Seq<MsgV> {
        self.msgs.deep_view()
    }
}

impl MessageLog {
    /// The preamble this log was constructed with.
    pub closed spec fn preamble_view(&self) -> Seq<char> {
        self.preamble@
    }

    pub open spec fn wf(&self) -> bool {
        log_wf(self@, self.preamble_view())
    }

    pub fn new(preamble: String) -> (log: Self)
        ensures
            log.wf(),
            log.preamble_view() == preamble@,
            log@ =~= seq![MsgV { role: Role::System, content: preamble@ }],
    {
        let first = ChatCompletionMessage::new(Role::System, preamble.clone());
        let mut msgs: Vec<ChatCompletionMessage> = Vec::new();
        msgs.push(first);
        MessageLog { msgs, preamble }
    }

    /// Appends a user or assistant message at the end.
    pub fn append(&mut self, role: Role, content: String)
        requires
            old(self).wf(),
            role != Role::System,
        ensures
            final(self).wf(),
            final(self).preamble_view() == old(self).preamble_view(),
            final(self)@ =~= old(self)@.push(MsgV { role, content: content@ }),
    {
        self.msgs.push(ChatCompletionMessage::new(role, content));
        proof {
            assert(self.msgs.deep_view() =~= old(self).msgs.deep_view().push(
                MsgV { role, content: content@ },
            ));
        }
    }

    /// Truncates back to the single system preamble.
    pub fn reset(&mut self)
        requires
            old(self).wf(),
        ensures
            final(self).wf(),
            final(self).preamble_view() == old(self).preamble_view(),
            final(self)@ =~= seq![
                MsgV { role: Role::System, content: old(self).preamble_view() },
            ],
    {
        self.msgs.truncate(1);
    }

    /// A read-only copy of the whole log, fit for transmission to the model.
    pub fn snapshot(&self) -> (copy: Vec<ChatCompletionMessage>)
        ensures
            copy.deep_view() =~= self@,
    {
        let mut copy: Vec<ChatCompletionMessage> = Vec::new();
        let mut i: usize = 0;
        while i < self.msgs.len()
            invariant
                i <= self.msgs.len(),
                copy.deep_view() =~= self.msgs.deep_view().take(i as int),
            decreases self.msgs.len() - i,
        {
            let ghost before = copy.deep_view();
            copy.push(self.msgs[i].clone());
            proof {
                assert(copy.deep_view() =~= before.push(self.msgs.deep_view()[i as int]));
                assert(copy.deep_view() =~= self.msgs.deep_view().take(i + 1));
            }
            i += 1;
        }
        copy
    }

    pub fn len(&self) -> (n: usize)
        ensures
            n == self@.len(),
    {
        self.msgs.len()
    }
}

} // verus!
