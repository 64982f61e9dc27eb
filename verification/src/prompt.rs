//! The prompt assembler: where the prompt text comes from, when standard
//! input may be read for it, and the request that is built from it.

use crate::protocol::{ContentItem, ResponseItem};
use crate::text::{is_blank, is_blank_text, trimmed};
use vstd::prelude::*;

verus! {

/// The instructions that a request carries when none are given.
pub const DEFAULT_SYSTEM_PROMPT: &'static str =
    "You are a helpful assistant. Respond directly to the user request without running tools or shell commands.";

/// Why no prompt could be assembled.
#[derive(Clone, Copy, Debug, PartialEq, Eq, Structural)]
pub enum PromptError {
    /// No prompt was given and standard input is a terminal: there is
    /// nothing to read the prompt from.
    NoPromptProvided,
    /// Standard input was read and held nothing but white space.
    EmptyStdinPrompt,
}

impl PromptError {
    /// The message for the user.
    pub fn message(&self) -> (text: String)
        ensures
            text@ == match *self {
                PromptError::NoPromptProvided =>
                    "No prompt provided. Pass one as an argument or pipe it via stdin."@,
                PromptError::EmptyStdinPrompt => "No prompt provided via stdin."@,
            },
    {
        match self {
            PromptError::NoPromptProvided => String::from_str(
                "No prompt provided. Pass one as an argument or pipe it via stdin.",
            ),
            PromptError::EmptyStdinPrompt => String::from_str("No prompt provided via stdin."),
        }
    }
}

/// The argument that asks for the prompt to be read from standard input.
pub open spec fn stdin_sentinel() -> Seq<char> {
    "-"@
}

/// Where the prompt text is taken from.
#[derive(Clone, Debug, PartialEq, Eq)]
pub enum PromptSource {
    /// The argument is the prompt, verbatim. Standard input is not touched.
    Literal(String),
    /// Standard input holds the prompt. `forced` says whether the argument
    /// asked for that in so many words.
    Stdin { forced: bool },
}

/// Whether the argument is itself the prompt: it is present and is not the
/// sentinel.
pub open spec fn is_literal(prompt: Option<Seq<char>>) -> bool {
    prompt is Some && prompt->0 != stdin_sentinel()
}

/// What is known of the prompt argument in contracts: its text, if present.
pub open spec fn argument_view(prompt: Option<String>) -> Option<Seq<char>> {
    match prompt {
        Some(p) => Some(p@),
        None => None,
    }
}

/// Decides from the argument alone where the prompt comes from.
pub fn prompt_source(prompt: Option<String>) -> (source: PromptSource)
    ensures
        source is Literal <==> is_literal(argument_view(prompt)),
        source matches PromptSource::Literal(text) ==> text@ == prompt->0@,
        source matches PromptSource::Stdin { forced } ==> forced == (prompt is Some),
{
    match prompt {
        Some(p) => {
            if p == String::from_str("-") {
                PromptSource::Stdin { forced: true }
            } else {
                PromptSource::Literal(p)
            }
        },
        None => PromptSource::Stdin { forced: false },
    }
}

/// How standard input is to be read.
#[derive(Clone, Copy, Debug, PartialEq, Eq, Structural)]
pub struct StdinRead {
    /// Whether to tell the user first, on the secondary sink, that the
    /// prompt is being read from standard input.
    pub announce: bool,
}

/// The note for the user that precedes an unasked-for read of standard input.
pub const STDIN_NOTICE: &'static str = "Reading prompt from stdin...";

/// Decides whether standard input may be read for the prompt: not when it
/// is a terminal and was not asked for explicitly. A read that was not
/// asked for explicitly is announced.
pub fn stdin_gate(forced: bool, is_terminal: bool) -> (r: Result<StdinRead, PromptError>)
    ensures
        r == if is_terminal && !forced {
            Err::<StdinRead, PromptError>(PromptError::NoPromptProvided)
        } else {
            Ok::<StdinRead, PromptError>(StdinRead { announce: !forced })
        },
{
    if is_terminal && !forced {
        Err(PromptError::NoPromptProvided)
    } else {
        Ok(StdinRead { announce: !forced })
    }
}

/// Takes what was read from standard input as the prompt, as it is, unless
/// it trims to nothing.
pub fn accept_stdin(buffer: String) -> (r: Result<String, PromptError>)
    ensures
        r is Err <==> trimmed(buffer@).len() == 0,
        r is Err <==> is_blank(buffer@),
        r matches Err(e) ==> e == PromptError::EmptyStdinPrompt,
        r matches Ok(text) ==> text@ == buffer@,
{
    if is_blank_text(buffer.as_str()) {
        Err(PromptError::EmptyStdinPrompt)
    } else {
        Ok(buffer)
    }
}

/// Standard input as the assembler finds it.
#[derive(Clone, Debug, PartialEq, Eq)]
pub struct StdinSnapshot {
    /// Whether standard input is an interactive terminal.
    pub is_terminal: bool,
    /// Everything that standard input yields when it is read to its end.
    pub contents: String,
}

/// The prompt that the argument and standard input give, or why they give
/// none: a literal argument verbatim; else, unless standard input is a
/// terminal that was not asked for, what standard input holds, which must
/// not trim to nothing.
pub open spec fn resolved_prompt(
    prompt: Option<Seq<char>>,
    is_terminal: bool,
    piped: Seq<char>,
) -> Result<Seq<char>, PromptError> {
    if is_literal(prompt) {
        Ok(prompt->0)
    } else if is_terminal && prompt is None {
        Err(PromptError::NoPromptProvided)
    } else if trimmed(piped).len() == 0 {
        Err(PromptError::EmptyStdinPrompt)
    } else {
        Ok(piped)
    }
}

/// Resolves the prompt text from the argument and from standard input as
/// `stdin` describes it.
pub fn read_prompt(prompt: Option<String>, stdin: StdinSnapshot) -> (r: Result<
    String,
    PromptError,
>)
    ensures
        match r {
            Ok(text) => resolved_prompt(argument_view(prompt), stdin.is_terminal, stdin.contents@)
                == Ok::<Seq<char>, PromptError>(text@),
            Err(e) => resolved_prompt(argument_view(prompt), stdin.is_terminal, stdin.contents@)
                == Err::<Seq<char>, PromptError>(e),
        },
{
    match prompt_source(prompt) {
        PromptSource::Literal(text) => Ok(text),
        PromptSource::Stdin { forced } => {
            match stdin_gate(forced, stdin.is_terminal) {
                Err(e) => Err(e),
                Ok(_) => accept_stdin(stdin.contents),
            }
        },
    }
}

/// A literal prompt is the whole answer: whatever standard input is and
/// holds, the prompt is the argument, verbatim.
pub proof fn lemma_literal_prompt_ignores_stdin(
    prompt: Seq<char>,
    is_terminal: bool,
    piped: Seq<char>,
)
    requires
        prompt != stdin_sentinel(),
    ensures
        resolved_prompt(Some(prompt), is_terminal, piped) == Ok::<Seq<char>, PromptError>(prompt),
{
}

/// When each failure comes. There is no prompt to read exactly when no
/// argument was given and standard input is a terminal. The prompt is empty
/// exactly when standard input is read, that is, the argument is not a
/// literal and the first failure does not occur, and what it holds trims to
/// nothing.
pub proof fn lemma_prompt_failures(prompt: Option<Seq<char>>, is_terminal: bool, piped: Seq<char>)
    ensures
        resolved_prompt(prompt, is_terminal, piped) == Err::<Seq<char>, PromptError>(
            PromptError::NoPromptProvided,
        ) <==> prompt is None && is_terminal,
        resolved_prompt(prompt, is_terminal, piped) == Err::<Seq<char>, PromptError>(
            PromptError::EmptyStdinPrompt,
        ) <==> !is_literal(prompt) && !(prompt is None && is_terminal) && trimmed(piped).len()
            == 0,
        resolved_prompt(prompt, is_terminal, piped) is Ok <==> is_literal(prompt) || (!(prompt
            is None && is_terminal) && !is_blank(piped)),
{
    crate::text::lemma_trimmed_empty_iff_blank(piped);
}

/// The role of the message that carries the instructions.
pub open spec fn developer_role() -> Seq<char> {
    "developer"@
}

/// The role of the message that carries the prompt.
pub open spec fn user_role() -> Seq<char> {
    "user"@
}

/// Whether `item` is a message of `role`, without an id, whose content is
/// the single text unit `text`.
pub open spec fn is_text_message(item: ResponseItem, role: Seq<char>, text: Seq<char>) -> bool {
    match item {
        ResponseItem::Message { id, role: r, content } => {
            &&& id is None
            &&& r@ == role
            &&& content@.len() == 1
            &&& content@[0] matches ContentItem::InputText { text: t } && t@ == text
        },
        ResponseItem::Other => false,
    }
}

/// Whether `payload` is the request for `prompt` under the instructions
/// `system`: exactly two messages, the developer's first, the user's second.
pub open spec fn is_request(payload: Seq<ResponseItem>, system: Seq<char>, prompt: Seq<char>) -> bool {
    &&& payload.len() == 2
    &&& is_text_message(payload[0], developer_role(), system)
    &&& is_text_message(payload[1], user_role(), prompt)
}

/// A message of `role` whose content is the single text unit `text`.
fn text_message(role: &str, text: &str) -> (item: ResponseItem)
    ensures
        is_text_message(item, role@, text@),
{
    let mut content: Vec<ContentItem> = Vec::new();
    content.push(ContentItem::InputText { text: String::from_str(text) });
    ResponseItem::Message { id: None, role: String::from_str(role), content }
}

/// Builds the request: the instructions as the developer's message, then
/// the prompt as the user's.
pub fn build_prompt_inputs(system_prompt: &str, prompt_text: &str) -> (payload: Vec<ResponseItem>)
    ensures
        is_request(payload@, system_prompt@, prompt_text@),
{
    let mut payload: Vec<ResponseItem> = Vec::new();
    payload.push(text_message("developer", system_prompt));
    payload.push(text_message("user", prompt_text));
    payload
}

/// The instructions of a request: those given, else the default ones.
pub open spec fn system_text(system_prompt: Option<Seq<char>>) -> Seq<char> {
    match system_prompt {
        Some(given) => given,
        None => DEFAULT_SYSTEM_PROMPT@,
    }
}

/// Settles the instructions of a request: those given, else the default
/// ones.
pub fn resolve_system_prompt(system_prompt: Option<String>) -> (text: String)
    ensures
        text@ == system_text(argument_view(system_prompt)),
{
    match system_prompt {
        Some(given) => given,
        None => String::from_str(DEFAULT_SYSTEM_PROMPT),
    }
}

/// Assembles the request from the prompt argument, the instructions, if
/// any were given, and standard input as `stdin` describes it. It fails
/// exactly when no prompt can be resolved, and with that failure.
pub fn assemble_request(
    prompt: Option<String>,
    system_prompt: Option<String>,
    stdin: StdinSnapshot,
) -> (r: Result<Vec<ResponseItem>, PromptError>)
    ensures
        match r {
            Ok(payload) => {
                &&& resolved_prompt(argument_view(prompt), stdin.is_terminal, stdin.contents@)
                    is Ok
                &&& is_request(
                    payload@,
                    system_text(argument_view(system_prompt)),
                    resolved_prompt(
                        argument_view(prompt),
                        stdin.is_terminal,
                        stdin.contents@,
                    )->Ok_0,
                )
            },
            Err(e) => resolved_prompt(argument_view(prompt), stdin.is_terminal, stdin.contents@)
                == Err::<Seq<char>, PromptError>(e),
        },
{
    match read_prompt(prompt, stdin) {
        Ok(text) => {
            let system = resolve_system_prompt(system_prompt);
            Ok(build_prompt_inputs(system.as_str(), text.as_str()))
        },
        Err(e) => Err(e),
    }
}

} // verus!
