//! One request for a reaction: the instruction that is sent to the text
//! service, the shape of what is sent and of what comes back, and the
//! reading of the answer.
//!
//! The exchange itself happens outside this library. The library builds the
//! request before it and decides, from what came back, whether there is a
//! reaction and what it says.

use vstd::prelude::*;
use vstd::string::StringExecFns;
use crate::agent::{label_of, Agent, AgentType};

verus! {

/// How an instruction to an agent of the given tone begins.
pub open spec fn opening_of(tone: AgentType) -> Seq<char> {
    if tone == AgentType::Troll {
        "Roast"@
    } else {
        "Help me fix"@
    }
}

/// The instruction that asks for a reaction to `code` in the given tone.
pub open spec fn prompt_text(code: Seq<char>, tone: AgentType) -> Seq<char> {
    opening_of(tone) + " this code "@ + code + ". Respond to me as a "@ + label_of(tone)
        + " twitch chat user and keep the response under 50 words please."@
}

/// Builds the instruction that asks `agent` for a reaction to `code`.
///
/// The fragment is embedded as it is, the tone of the agent decides the
/// wording around it, and the answer is asked to stay under 50 words.
pub fn prompt(code: &str, agent: &Agent) -> (text: String)
    ensures
        text@ == prompt_text(code@, agent@.agent_type),
{
    let mut text = if agent.agent_type == AgentType::Troll {
        String::from_str("Roast")
    } else {
        String::from_str("Help me fix")
    };
    text.append(" this code ");
    text.append(code);
    text.append(". Respond to me as a ");
    let label = agent.agent_type.label();
    text.append(label.as_str());
    text.append(" twitch chat user and keep the response under 50 words please.");
    text
}

/// What a specification sees of a [`DeepSeekMessage`].
pub struct DeepSeekMessageView {
    pub role: Seq<char>,
    pub content: Seq<char>,
}

/// One message of a conversation with the text service.
#[derive(Clone, Debug, PartialEq, Eq)]
pub struct DeepSeekMessage {
    pub role: String,
    pub content: String,
}

impl View for DeepSeekMessage {
    type V = DeepSeekMessageView;

    open spec fn view(&self) -> DeepSeekMessageView {
        DeepSeekMessageView { role: self.role@, content: self.content@ }
    }
}

/// What a specification sees of a [`DeepSeekRequest`].
pub struct DeepSeekRequestView {
    pub model: Seq<char>,
    pub stream: bool,
    pub messages: Seq<DeepSeekMessageView>,
}

/// What is sent to the text service.
#[derive(Clone, Debug, PartialEq, Eq)]
pub struct DeepSeekRequest {
    pub model: String,
    pub stream: bool,
    pub messages: Vec<DeepSeekMessage>,
}

impl View for DeepSeekRequest {
    type V = DeepSeekRequestView;

    open spec fn view(&self) -> DeepSeekRequestView {
        DeepSeekRequestView {
            model: self.model@,
            stream: self.stream,
            messages: self.messages@.map_values(|m: DeepSeekMessage| m@),
        }
    }
}

/// The request that carries `content` as its only message.
pub open spec fn request_for(content: Seq<char>) -> DeepSeekRequestView {
    DeepSeekRequestView {
        model: "deepseek-chat"@,
        stream: false,
        messages: seq![DeepSeekMessageView { role: "user"@, content }],
    }
}

impl DeepSeekRequest {
    /// A request that is answered in one piece and carries `content` as the
    /// single message of the user.
    pub fn new(content: String) -> (request: DeepSeekRequest)
        ensures
            request@ == request_for(content@),
    {
        let mut messages: Vec<DeepSeekMessage> = Vec::new();
        messages.push(DeepSeekMessage { role: String::from_str("user"), content });
        let request = DeepSeekRequest {
            model: String::from_str("deepseek-chat"),
            stream: false,
            messages,
        };
        assert(request@.messages =~= request_for(content@).messages);
        request
    }
}

/// Builds the request that asks `agent` for a reaction to `code`.
pub fn chat_request(code: &str, agent: &Agent) -> (request: DeepSeekRequest)
    ensures
        request@ == request_for(prompt_text(code@, agent@.agent_type)),
{
    DeepSeekRequest::new(prompt(code, agent))
}

/// What a specification sees of a [`DeepSeekChoice`].
pub struct DeepSeekChoiceView {
    pub message: DeepSeekMessageView,
}

/// One alternative that the text service generated.
#[derive(Clone, Debug, PartialEq, Eq)]
pub struct DeepSeekChoice {
    pub message: DeepSeekMessage,
}

impl View for DeepSeekChoice {
    type V = DeepSeekChoiceView;

    open spec fn view(&self) -> DeepSeekChoiceView {
        DeepSeekChoiceView { message: self.message@ }
    }
}

/// What a specification sees of a [`DeepSeekResponse`].
pub struct DeepSeekResponseView {
    pub choices: Seq<DeepSeekChoiceView>,
}

/// What the text service answers.
#[derive(Clone, Debug, PartialEq, Eq)]
pub struct DeepSeekResponse {
    pub choices: Vec<DeepSeekChoice>,
}

impl View for DeepSeekResponse {
    type V = DeepSeekResponseView;

    open spec fn view(&self) -> DeepSeekResponseView {
        DeepSeekResponseView { choices: self.choices@.map_values(|c: DeepSeekChoice| c@) }
    }
}

/// Why a request brought no reaction.
#[derive(Clone, Copy, Debug, PartialEq, Eq, Structural)]
pub enum ChatError {
    /// The service was not reached, did not answer in time, or answered
    /// with a status other than success.
    Transport,
    /// The answer did not have the expected structure.
    Malformed,
    /// The answer held no generated alternative.
    NoChoice,
}

/// The words that describe each error.
pub open spec fn message_of(error: ChatError) -> Seq<char> {
    match error {
        ChatError::Transport => "the text service could not be reached"@,
        ChatError::Malformed => "the text service sent an answer that could not be read"@,
        ChatError::NoChoice => "AI pooped itself.."@,
    }
}

impl ChatError {
    /// A description of the error for a log or a caller.
    pub fn message(&self) -> (text: String)
        ensures
            text@ == message_of(*self),
    {
        match self {
            ChatError::Transport => String::from_str("the text service could not be reached"),
            ChatError::Malformed => String::from_str(
                "the text service sent an answer that could not be read",
            ),
            ChatError::NoChoice => String::from_str("AI pooped itself.."),
        }
    }
}

/// How one exchange with the text service ended.
#[derive(Clone, Debug, PartialEq, Eq)]
pub enum Exchange {
    /// No answer came back: the network failed, or the wait ran out.
    Unreachable,
    /// An answer came back with the given status. Its body is there where
    /// it could be read as a response.
    Answered { status: u16, body: Option<DeepSeekResponse> },
}

/// Whether a status reports success.
pub open spec fn is_success(status: u16) -> bool {
    200 <= status < 300
}

/// The reaction that an exchange carries, or the reason why it carries none.
///
/// A response with several alternatives is read by its last one.
pub open spec fn reply_of(exchange: Exchange) -> Result<Seq<char>, ChatError> {
    match exchange {
        Exchange::Unreachable => Err(ChatError::Transport),
        Exchange::Answered { status, body } => if !is_success(status) {
            Err(ChatError::Transport)
        } else {
            match body {
                None => Err(ChatError::Malformed),
                Some(response) => if response@.choices.len() == 0 {
                    Err(ChatError::NoChoice)
                } else {
                    Ok(response@.choices.last().message.content)
                },
            }
        },
    }
}

/// What a specification sees of the end of a request.
pub open spec fn reply_view(reply: Result<String, ChatError>) -> Result<Seq<char>, ChatError> {
    match reply {
        Ok(text) => Ok(text@),
        Err(error) => Err(error),
    }
}

/// Reads the end of an exchange: the text of the last alternative where a
/// response with at least one alternative came back under a status of
/// success, and otherwise the error that says why there is no reaction.
///
/// No answer, and an answer under any other status, is a transport error,
/// whatever the body holds. A body that could not be read is malformed. A
/// response without an alternative is an error of its own.
pub fn chat_reply(exchange: Exchange) -> (reply: Result<String, ChatError>)
    ensures
        reply_view(reply) == reply_of(exchange),
{
    match exchange {
        Exchange::Unreachable => Err(ChatError::Transport),
        Exchange::Answered { status, body } => {
            if status < 200 || status >= 300 {
                return Err(ChatError::Transport);
            }
            match body {
                None => Err(ChatError::Malformed),
                Some(response) => {
                    let mut choices = response.choices;
                    match choices.pop() {
                        Some(choice) => Ok(choice.message.content),
                        None => Err(ChatError::NoChoice),
                    }
                },
            }
        },
    }
}

} // verus!
