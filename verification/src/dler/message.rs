//! The message that reports an account's state to the chat.

use crate::dler::json::JsonView;
use crate::dler::markdown::{
    escape, escaped, lemma_escaped_is_neutral, lemma_escaped_shows_text, lemma_neutral_concat,
    lemma_unreserved_is_plain, neutral, shown,
};
use crate::dler::wire::{data_fields, decoded_data, decoded_response, Data, DataView};
use vstd::prelude::*;
use vstd::std_specs::convert::FromSpecImpl;

verus! {

/// What the chat is told of an account: five of the fields of its state.
#[derive(Debug, PartialEq, Eq)]
pub struct Message {
    pub plan: String,
    pub plan_time: String,
    pub today_used: String,
    pub used: String,
    pub unused: String,
}

/// A [`Message`] as a mathematical value.
pub struct MessageView {
    pub plan: Seq<char>,
    pub plan_time: Seq<char>,
    pub today_used: Seq<char>,
    pub used: Seq<char>,
    pub unused: Seq<char>,
}

impl View for Message {
    type V = MessageView;

    open spec fn view(&self) -> MessageView {
        MessageView {
            plan: self.plan@,
            plan_time: self.plan_time@,
            today_used: self.today_used@,
            used: self.used@,
            unused: self.unused@,
        }
    }
}

/// The five fields of a state that go into its message, each as it is.
pub open spec fn projected(data: DataView) -> MessageView {
    MessageView {
        plan: data->plan,
        plan_time: data->plan_time,
        today_used: data->today_used,
        used: data->used,
        unused: data->unused,
    }
}

/// The heading of a message, set in bold by the two stars around it. They
/// are the only markup in a message.
pub open spec fn heading() -> Seq<char> {
    "*Dler Cloud*"@
}

/// What follows the heading: one line for each field, in this order, each
/// made of the field's label and of the field's value as [`escaped`] writes it.
pub open spec fn lines(message: MessageView) -> Seq<char> {
    "\nPlan: "@ + escaped(message.plan) + "\nExpires: "@ + escaped(message.plan_time)
        + "\nToday: "@ + escaped(message.today_used) + "\nUsed: "@ + escaped(message.used)
        + "\nUnused: "@ + escaped(message.unused)
}

/// What the chat shows below the heading: the labels, and behind each the
/// value as it came, character for character.
pub open spec fn lines_shown(message: MessageView) -> Seq<char> {
    "\nPlan: "@ + message.plan + "\nExpires: "@ + message.plan_time + "\nToday: "@
        + message.today_used + "\nUsed: "@ + message.used + "\nUnused: "@ + message.unused
}

/// The text of a message, as MarkdownV2: the [`heading`], then the [`lines`].
pub open spec fn layout(message: MessageView) -> Seq<char> {
    heading() + lines(message)
}

/// The text that reports a state: the [`layout`] of what is [`projected`]
/// from it.
pub open spec fn report(data: DataView) -> Seq<char> {
    layout(projected(data))
}

impl<'a> From<&'a Data> for Message {
    /// Takes from a state the five fields that the chat is told, unchanged.
    fn from(data: &'a Data) -> (message: Message)
        ensures
            message@ == projected(data@),
    {
        match data {
            Data::Login { plan, plan_time, today_used, used, unused, .. } => Message {
                plan: plan.clone(),
                plan_time: plan_time.clone(),
                today_used: today_used.clone(),
                used: used.clone(),
                unused: unused.clone(),
            },
        }
    }
}

impl<'a> FromSpecImpl<&'a Data> for Message {
    open spec fn obeys_from_spec() -> bool {
        true
    }

    open spec fn from_spec(data: &'a Data) -> Message {
        Message {
            plan: data->plan,
            plan_time: data->plan_time,
            today_used: data->today_used,
            used: data->used,
            unused: data->unused,
        }
    }
}

impl Message {
    /// Writes the message as the text that is sent to the chat.
    pub fn render(&self) -> (text: String)
        ensures
            text@ == layout(self@),
    {
        let mut text = String::from_str("*Dler Cloud*");
        text.append("\nPlan: ");
        text.append(escape(self.plan.as_str()).as_str());
        text.append("\nExpires: ");
        text.append(escape(self.plan_time.as_str()).as_str());
        text.append("\nToday: ");
        text.append(escape(self.today_used.as_str()).as_str());
        text.append("\nUsed: ");
        text.append(escape(self.used.as_str()).as_str());
        text.append("\nUnused: ");
        text.append(escape(self.unused.as_str()).as_str());
        assert(text@ == heading() + lines(self@));
        text
    }
}

/// The text of a report depends on the characters of the state and on nothing
/// else: two states that read alike are reported alike, whichever strings hold
/// them and however often they are rendered.
pub proof fn lemma_report_is_function(first: Data, second: Data)
    requires
        first@ == second@,
    ensures
        report(first@) == report(second@),
{
}

/// The labels of the five lines hold no reserved character.
proof fn lemma_labels_are_plain()
    ensures
        neutral("\nPlan: "@) && shown("\nPlan: "@) == "\nPlan: "@,
        neutral("\nExpires: "@) && shown("\nExpires: "@) == "\nExpires: "@,
        neutral("\nToday: "@) && shown("\nToday: "@) == "\nToday: "@,
        neutral("\nUsed: "@) && shown("\nUsed: "@) == "\nUsed: "@,
        neutral("\nUnused: "@) && shown("\nUnused: "@) == "\nUnused: "@,
{
    reveal_strlit("\nPlan: ");
    reveal_strlit("\nExpires: ");
    reveal_strlit("\nToday: ");
    reveal_strlit("\nUsed: ");
    reveal_strlit("\nUnused: ");
    lemma_unreserved_is_plain("\nPlan: "@);
    lemma_unreserved_is_plain("\nExpires: "@);
    lemma_unreserved_is_plain("\nToday: "@);
    lemma_unreserved_is_plain("\nUsed: "@);
    lemma_unreserved_is_plain("\nUnused: "@);
}

/// No value can pass for markup, and none is altered. Whatever the five
/// fields hold, the markup reads everything below the heading as plain
/// characters, and the chat shows there the labels with the values as they
/// came.
pub proof fn lemma_values_are_shown_as_they_came(message: MessageView)
    ensures
        neutral(lines(message)),
        shown(lines(message)) == lines_shown(message),
{
    lemma_labels_are_plain();
    lemma_escaped_is_neutral(message.plan);
    lemma_escaped_is_neutral(message.plan_time);
    lemma_escaped_is_neutral(message.today_used);
    lemma_escaped_is_neutral(message.used);
    lemma_escaped_is_neutral(message.unused);
    lemma_escaped_shows_text(message.plan);
    lemma_escaped_shows_text(message.plan_time);
    lemma_escaped_shows_text(message.today_used);
    lemma_escaped_shows_text(message.used);
    lemma_escaped_shows_text(message.unused);
    let l1 = "\nPlan: "@;
    let t1 = l1 + escaped(message.plan);
    lemma_neutral_concat(l1, escaped(message.plan));
    let l2 = t1 + "\nExpires: "@;
    lemma_neutral_concat(t1, "\nExpires: "@);
    let t2 = l2 + escaped(message.plan_time);
    lemma_neutral_concat(l2, escaped(message.plan_time));
    let l3 = t2 + "\nToday: "@;
    lemma_neutral_concat(t2, "\nToday: "@);
    let t3 = l3 + escaped(message.today_used);
    lemma_neutral_concat(l3, escaped(message.today_used));
    let l4 = t3 + "\nUsed: "@;
    lemma_neutral_concat(t3, "\nUsed: "@);
    let t4 = l4 + escaped(message.used);
    lemma_neutral_concat(l4, escaped(message.used));
    let l5 = t4 + "\nUnused: "@;
    lemma_neutral_concat(t4, "\nUnused: "@);
    let t5 = l5 + escaped(message.unused);
    lemma_neutral_concat(l5, escaped(message.unused));
    assert(t5 == lines(message));
}

/// Nothing is lost between the wire and the message. Where a response has
/// its return code, its message and, under `data`, a string for each required
/// field, it is decoded, and each of the five fields of the message made from
/// it is the string that the response holds under that field's name.
pub proof fn lemma_message_keeps_source_fields(json: JsonView, data: JsonView)
    requires
        json.integer_at("ret"@) matches Some(ret) && i32::MIN <= ret <= i32::MAX,
        json.text_at("msg"@) is Some,
        json.member("data"@) == Some(data),
        forall|i: int|
            0 <= i < data_fields().len() ==> (#[trigger] data.text_at(data_fields()[i])) is Some,
    ensures
        decoded_data(data) is Some,
        decoded_response(json) matches Some(response) && {
            &&& response.data == decoded_data(data).unwrap()
            &&& projected(response.data) == (MessageView {
                plan: data.text_at("plan"@).unwrap(),
                plan_time: data.text_at("plan_time"@).unwrap(),
                today_used: data.text_at("today_used"@).unwrap(),
                used: data.text_at("used"@).unwrap(),
                unused: data.text_at("unused"@).unwrap(),
            })
        },
{
}

} // verus!
