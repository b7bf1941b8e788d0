//! The end-of-round artifact: an embed body, one score field per ranked
//! entry, a fixed color, and the two follow-up buttons.

use crate::score::{EntryV, ScoreEntry};
use crate::text::spec_udec;
use crate::text::u64_to_dec_string;
use vstd::prelude::*;

verus! {

/// One line of the score table on the result card.
pub struct ScoreField {
    pub label: String,
    pub value: String,
    pub inline: bool,
}

/// The mathematical value of a score field.
#[verifier::ext_equal]
pub ghost struct FieldV {
    pub label: Seq<char>,
    pub value: Seq<char>,
    pub inline: bool,
}

impl View for ScoreField {
    type V = FieldV;

    open spec fn view(&self) -> FieldV {
        FieldV { label: self.label@, value: self.value@, inline: self.inline }
    }
}

impl DeepView for ScoreField {
    type V = FieldV;

    open spec fn deep_view(&self) -> FieldV {
        self.view()
    }
}

/// The field rendered for one ranking entry: the display name, then the
/// count followed by a "questions right" marker, never inline.
pub open spec fn field_of(e: EntryV) -> FieldV {
    FieldV { label: e.name, value: spec_udec(e.count as nat) + "問正解"@, inline: false }
}

/// The score table of a ranking, entry for entry and in its order.
pub open spec fn fields_of(ranked: Seq<EntryV>) -> Seq<FieldV> {
    ranked.map_values(|e: EntryV| field_of(e))
}

/// The body text of the result card.
pub open spec fn result_body(mention: Seq<char>, description: Seq<char>, is_giveup: bool) -> Seq<
    char,
> {
    if is_giveup {
        "残念、ギブアップです😢\n"@ + "問題のストーリー\n"@ + description
    } else {
        "おめでとうございます🎉\n"@ + mention + "さん正解です！\n\n"@ + "問題のストーリー\n"@
            + description
    }
}

/// The green the result embed is always drawn in.
pub open spec fn result_color() -> u32 {
    0x00ff00
}

/// The mathematical value of a result card.
#[verifier::ext_equal]
pub ghost struct CardV {
    pub body: Seq<char>,
    pub fields: Seq<FieldV>,
    pub color: u32,
}

/// The renderable end-of-round embed. `fields` may be empty, in which case
/// the chat surface omits the score section entirely.
pub struct ResultCard {
    pub body: String,
    pub fields: Vec<ScoreField>,
    pub color: u32,
}

impl View for ResultCard {
    type V = CardV;

    open spec fn view(&self) -> CardV {
        CardV { body: self.body@, fields: self.fields.deep_view(), color: self.color }
    }
}

/// Builds the result card for a round that ended in a correct answer
/// (`is_giveup` false, `mention` names the winner) or a give-up.
pub fn build_result_card(
    mention: &String,
    description: &String,
    ranked: Vec<ScoreEntry>,
    is_giveup: bool,
) -> (card: ResultCard)
    ensures
        card@.body == result_body(mention@, description@, is_giveup),
        card@.fields == fields_of(ranked.deep_view()),
        card@.color == result_color(),
{
    let mut body: String;
    if is_giveup {
        body = String::from_str("残念、ギブアップです😢\n");
    } else {
        body = String::from_str("おめでとうございます🎉\n");
        body.append(mention.as_str());
        body.append("さん正解です！\n\n");
    }
    body.append("問題のストーリー\n");
    body.append(description.as_str());

    let ghost all = ranked.deep_view();
    let mut fields: Vec<ScoreField> = Vec::new();
    let mut i: usize = 0;
    let n = ranked.len();
    while i < n
        invariant
            n == all.len(),
            i <= n,
            all == ranked.deep_view(),
            fields@.len() == i,
            fields.deep_view() =~~= fields_of(all.take(i as int)),
        decreases n - i,
    {
        let count = ranked[i].count;
        let label = ranked[i].name.clone();
        let mut value = u64_to_dec_string(count as u64);
        value.append("問正解");
        fields.push(ScoreField { label, value, inline: false });
        proof {
            assert(fields.deep_view().len() == i + 1);
            assert(fields_of(all.take(i as int + 1)).len() == i + 1);
            assert forall|k: int| 0 <= k < i + 1 implies fields.deep_view()[k] =~~= fields_of(
                all.take(i as int + 1),
            )[k] by {
                assert(all.take(i as int + 1)[k] == all[k]);
                if k < i {
                    assert(fields.deep_view()[k] =~~= fields_of(all.take(i as int))[k]);
                    assert(all.take(i as int)[k] == all[k]);
                } else {
                    assert(fields.deep_view()[k] =~~= field_of(all[k]));
                }
            }
            assert(fields.deep_view() =~~= fields_of(all.take(i as int + 1)));
        }
        i += 1;
    }
    proof {
        assert(all.take(n as int) =~= all);
    }
    ResultCard { body, fields, color: 0x00ff00 }
}

/// A button's visual style on the chat surface.
#[derive(Clone, Copy, Debug, PartialEq, Eq, Structural)]
pub enum ButtonStyle {
    Primary,
    Danger,
}

/// One button of the follow-up row under the result card.
pub struct ButtonSpec {
    pub custom_id: String,
    pub label: String,
    pub style: ButtonStyle,
}

/// The mathematical value of a button.
#[verifier::ext_equal]
pub ghost struct ButtonV {
    pub custom_id: Seq<char>,
    pub label: Seq<char>,
    pub style: ButtonStyle,
}

impl View for ButtonSpec {
    type V = ButtonV;

    open spec fn view(&self) -> ButtonV {
        ButtonV { custom_id: self.custom_id@, label: self.label@, style: self.style }
    }
}

impl DeepView for ButtonSpec {
    type V = ButtonV;

    open spec fn deep_view(&self) -> ButtonV {
        self.view()
    }
}

/// The two buttons that always follow a result card: advance to the next
/// puzzle, or end the game.
pub fn result_buttons() -> (buttons: Vec<ButtonSpec>)
    ensures
        buttons.deep_view() =~~= seq![
            ButtonV {
                custom_id: "next_button"@,
                label: "次の問題に進む"@,
                style: ButtonStyle::Primary,
            },
            ButtonV { custom_id: "cancel_button"@, label: "終了する"@, style: ButtonStyle::Danger },
        ],
{
    let mut buttons: Vec<ButtonSpec> = Vec::new();
    buttons.push(
        ButtonSpec {
            custom_id: String::from_str("next_button"),
            label: String::from_str("次の問題に進む"),
            style: ButtonStyle::Primary,
        },
    );
    buttons.push(
        ButtonSpec {
            custom_id: String::from_str("cancel_button"),
            label: String::from_str("終了する"),
            style: ButtonStyle::Danger,
        },
    );
    buttons
}

} // verus!
