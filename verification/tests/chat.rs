use code_chat::agent::{Agent, AgentType};
use code_chat::chat::{
    chat_reply, chat_request, prompt, ChatError, DeepSeekChoice, DeepSeekMessage,
    DeepSeekRequest, DeepSeekResponse, Exchange,
};

fn agent(name: &str, agent_type: AgentType) -> Agent {
    Agent { username: name.to_string(), agent_type }
}

fn choice(content: &str) -> DeepSeekChoice {
    DeepSeekChoice {
        message: DeepSeekMessage { role: "assistant".to_string(), content: content.to_string() },
    }
}

#[test]
fn label_names_each_tone() {
    assert_eq!(AgentType::Troll.label(), "troll");
    assert_eq!(AgentType::Helpful.label(), "helpful");
    assert_eq!(AgentType::Normal.label(), "normal");
}

#[test]
fn prompt_of_a_troll_roasts() {
    assert_eq!(
        prompt("c", &agent("yamom12", AgentType::Troll)),
        "Roast this code c. Respond to me as a troll twitch chat user and keep the response under 50 words please."
    );
}

#[test]
fn prompt_of_a_helpful_agent_helps() {
    assert_eq!(
        prompt("let x = 1;", &agent("masdbuddy", AgentType::Helpful)),
        "Help me fix this code let x = 1;. Respond to me as a helpful twitch chat user and keep the response under 50 words please."
    );
}

#[test]
fn prompt_of_a_normal_agent_helps() {
    assert_eq!(
        prompt("c", &agent("coderg1rl22", AgentType::Normal)),
        "Help me fix this code c. Respond to me as a normal twitch chat user and keep the response under 50 words please."
    );
}

#[test]
fn prompt_embeds_the_fragment_as_it_is() {
    let fragment = "fn main() {\n    println!(\"{}\", 1);\n}";
    let text = prompt(fragment, &agent("a", AgentType::Troll));
    assert_eq!(
        text,
        format!(
            "Roast this code {}. Respond to me as a troll twitch chat user and keep the response under 50 words please.",
            fragment
        )
    );
}

#[test]
fn prompt_of_an_empty_fragment() {
    assert_eq!(
        prompt("", &agent("a", AgentType::Troll)),
        "Roast this code . Respond to me as a troll twitch chat user and keep the response under 50 words please."
    );
}

#[test]
fn request_carries_one_message_of_the_user() {
    let request = DeepSeekRequest::new("hello".to_string());
    assert_eq!(request.model, "deepseek-chat");
    assert!(!request.stream);
    assert_eq!(
        request.messages,
        vec![DeepSeekMessage { role: "user".to_string(), content: "hello".to_string() }]
    );
}

#[test]
fn chat_request_carries_the_prompt() {
    let who = agent("galadiccc", AgentType::Troll);
    let request = chat_request("c", &who);
    assert_eq!(request, DeepSeekRequest::new(prompt("c", &who)));
    assert_eq!(request.messages.len(), 1);
    assert_eq!(request.messages[0].content, prompt("c", &who));
}

fn answered(status: u16, choices: Vec<DeepSeekChoice>) -> Exchange {
    Exchange::Answered { status, body: Some(DeepSeekResponse { choices }) }
}

#[test]
fn reply_of_an_exchange_that_failed_is_a_transport_error() {
    assert_eq!(chat_reply(Exchange::Unreachable), Err(ChatError::Transport));
}

#[test]
fn reply_under_another_status_than_success_is_a_transport_error() {
    for status in [0, 100, 199, 300, 301, 404, 429, 500, 503, u16::MAX] {
        assert_eq!(
            chat_reply(answered(status, vec![choice("nice code")])),
            Err(ChatError::Transport)
        );
        assert_eq!(
            chat_reply(Exchange::Answered { status, body: None }),
            Err(ChatError::Transport)
        );
    }
}

#[test]
fn every_status_of_success_is_read() {
    for status in [200, 201, 204, 299] {
        assert_eq!(
            chat_reply(answered(status, vec![choice("nice code")])),
            Ok("nice code".to_string())
        );
    }
}

#[test]
fn reply_that_cannot_be_read_is_malformed() {
    assert_eq!(
        chat_reply(Exchange::Answered { status: 200, body: None }),
        Err(ChatError::Malformed)
    );
}

#[test]
fn reply_without_a_choice_is_an_error() {
    assert_eq!(chat_reply(answered(200, Vec::new())), Err(ChatError::NoChoice));
}

#[test]
fn reply_is_the_text_of_the_only_choice() {
    assert_eq!(
        chat_reply(answered(200, vec![choice("nice code")])),
        Ok("nice code".to_string())
    );
}

#[test]
fn reply_is_the_text_of_the_last_choice() {
    assert_eq!(
        chat_reply(answered(200, vec![choice("one"), choice("two"), choice("three")])),
        Ok("three".to_string())
    );
}

#[test]
fn reply_may_be_empty() {
    assert_eq!(chat_reply(answered(200, vec![choice("")])), Ok(String::new()));
}

#[test]
fn each_error_has_its_message() {
    assert_eq!(ChatError::Transport.message(), "the text service could not be reached");
    assert_eq!(
        ChatError::Malformed.message(),
        "the text service sent an answer that could not be read"
    );
    assert_eq!(ChatError::NoChoice.message(), "AI pooped itself..");
}
