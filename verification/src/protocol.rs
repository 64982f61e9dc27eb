//! The data exchanged with the model endpoint: the items of a request and the
//! events of a streamed response.

use vstd::prelude::*;

verus! {

/// One typed unit of a message's content.
#[derive(Clone, Debug, PartialEq, Eq)]
pub enum ContentItem {
    InputText { text: String },
    InputImage { image_url: String },
    OutputText { text: String },
}

/// A structured item of a conversation. Only messages are looked into; every
/// other kind of item is `Other`.
#[derive(Clone, Debug, PartialEq, Eq)]
pub enum ResponseItem {
    Message { id: Option<String>, role: String, content: Vec<ContentItem> },
    Other,
}

/// The final accounting of the tokens that one exchange consumed.
#[derive(Clone, Copy, Debug, PartialEq, Eq)]
pub struct TokenUsage {
    pub input_tokens: i64,
    pub cached_input_tokens: i64,
    pub output_tokens: i64,
    pub reasoning_output_tokens: i64,
    pub total_tokens: i64,
}

/// One event of a streamed response, in the order of arrival.
#[derive(Clone, Debug, PartialEq, Eq)]
pub enum StreamEvent {
    /// The stream was opened.
    Created,
    /// A fragment of the answer text.
    OutputTextDelta(String),
    /// A full item was announced.
    OutputItemAdded(ResponseItem),
    /// A full item was completed.
    OutputItemDone(ResponseItem),
    /// A fragment of the current reasoning summary.
    ReasoningSummaryDelta(String),
    /// A fragment of raw reasoning content.
    ReasoningContentDelta(String),
    /// A new part of the reasoning summary begins.
    ReasoningSummaryPartAdded,
    /// A snapshot of the rate limits, already in its structured text form.
    RateLimits(String),
    /// The response is complete.
    Completed { token_usage: Option<TokenUsage> },
}

impl ContentItem {
    /// The text that this unit carries; nothing for a unit that is not text.
    pub open spec fn text(self) -> Seq<char> {
        match self {
            ContentItem::InputText { text } => text@,
            ContentItem::OutputText { text } => text@,
            ContentItem::InputImage { .. } => Seq::empty(),
        }
    }
}

/// The texts of the units of `content`, in order, as one text.
pub open spec fn joined_text(content: Seq<ContentItem>) -> Seq<char>
    decreases content.len(),
{
    if content.len() == 0 {
        Seq::empty()
    } else {
        joined_text(content.drop_last()) + content.last().text()
    }
}

/// The role under which the model's own messages arrive.
pub open spec fn assistant_role() -> Seq<char> {
    "assistant"@
}

/// The text that an item offers as the assistant's answer: the joined text of
/// a message of the assistant role, unless that is empty.
pub open spec fn assistant_text_of(item: ResponseItem) -> Option<Seq<char>> {
    match item {
        ResponseItem::Message { role, content, .. } => {
            if role@ == assistant_role() && joined_text(content@).len() > 0 {
                Some(joined_text(content@))
            } else {
                None
            }
        },
        ResponseItem::Other => None,
    }
}

/// An item that is not a message of the assistant role offers no text,
/// whatever it holds.
pub proof fn lemma_other_roles_offer_no_text(item: ResponseItem)
    requires
        !(item matches ResponseItem::Message { role, .. } && role@ == assistant_role()),
    ensures
        assistant_text_of(item) is None,
{
}

/// Units that are not text add nothing: content that holds no text unit
/// joins to the empty text.
pub proof fn lemma_joined_text_without_text_units(content: Seq<ContentItem>)
    requires
        forall|i: int| 0 <= i < content.len() ==> (#[trigger] content[i]) is InputImage,
    ensures
        joined_text(content) == Seq::<char>::empty(),
    decreases content.len(),
{
    if content.len() > 0 {
        let rest = content.drop_last();
        assert forall|i: int| 0 <= i < rest.len() implies (#[trigger] rest[i]) is InputImage by {
            assert(rest[i] == content[i]);
        }
        lemma_joined_text_without_text_units(rest);
        assert(content.last() == content[content.len() - 1]);
        assert(joined_text(content) =~= Seq::<char>::empty());
    }
}

/// A message whose content holds no text unit offers no text, the
/// assistant's included.
pub proof fn lemma_message_without_text_units_offers_no_text(item: ResponseItem)
    requires
        item matches ResponseItem::Message { content, .. } && forall|i: int|
            0 <= i < content@.len() ==> (#[trigger] content@[i]) is InputImage,
    ensures
        assistant_text_of(item) is None,
{
    match item {
        ResponseItem::Message { content, .. } => {
            lemma_joined_text_without_text_units(content@);
        },
        ResponseItem::Other => {},
    }
}

/// Extracts the assistant's text from `item`, if it has any.
pub fn assistant_text(item: &ResponseItem) -> (r: Option<String>)
    ensures
        r is Some <==> assistant_text_of(*item) is Some,
        r matches Some(t) ==> Some(t@) == assistant_text_of(*item),
{
    match item {
        ResponseItem::Message { role, content, .. } => {
            if *role == String::from_str("assistant") {
                let mut text = String::new();
                let mut i: usize = 0;
                while i < content.len()
                    invariant
                        0 <= i <= content.len(),
                        text@ == joined_text(content@.take(i as int)),
                    decreases content.len() - i,
                {
                    proof {
                        assert(content@.take(i + 1).drop_last() =~= content@.take(i as int));
                    }
                    match &content[i] {
                        ContentItem::InputText { text: value } => text.append(value.as_str()),
                        ContentItem::OutputText { text: value } => text.append(value.as_str()),
                        ContentItem::InputImage { .. } => {},
                    }
                    assert(text@ =~= joined_text(content@.take(i + 1)));
                    i += 1;
                }
                assert(content@.take(i as int) =~= content@);
                if !text.as_str().is_empty() {
                    return Some(text);
                }
                None
            } else {
                None
            }
        },
        ResponseItem::Other => None,
    }
}

} // verus!
