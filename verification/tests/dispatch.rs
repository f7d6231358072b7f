use code_chat::agent::{registry, Agent, AgentType};
use code_chat::chat::chat_request;
use code_chat::dispatch::{choose_agents, on_change, requests_for};

fn crowd(count: usize) -> Vec<Agent> {
    let mut agents = Vec::new();
    for i in 0..count {
        agents.push(Agent { username: format!("agent{}", i), agent_type: AgentType::Normal });
    }
    agents
}

fn names(agents: &Vec<Agent>) -> Vec<String> {
    let mut names = Vec::new();
    for a in agents {
        names.push(a.username.clone());
    }
    names
}

fn all_distinct(names: &Vec<String>) -> bool {
    for i in 0..names.len() {
        for j in 0..i {
            if names[i] == names[j] {
                return false;
            }
        }
    }
    true
}

#[test]
fn registry_holds_the_seven_agents() {
    let agents = registry();
    assert_eq!(
        names(&agents),
        vec![
            "yamom12",
            "coderg1rl22",
            "masdbuddy",
            "galadiccc",
            "bigd1kboi",
            "starwarslover",
            "cheater2g1234"
        ]
    );
    let tones: Vec<AgentType> = agents.iter().map(|a| a.agent_type).collect();
    assert_eq!(
        tones,
        vec![
            AgentType::Troll,
            AgentType::Normal,
            AgentType::Helpful,
            AgentType::Troll,
            AgentType::Troll,
            AgentType::Helpful,
            AgentType::Normal
        ]
    );
}

#[test]
fn registry_names_are_distinct() {
    assert!(all_distinct(&names(&registry())));
}

#[test]
fn three_of_seven_are_chosen() {
    let picked = choose_agents(registry());
    assert_eq!(picked.len(), 3);
}

#[test]
fn half_is_rounded_down() {
    assert_eq!(choose_agents(crowd(0)).len(), 0);
    assert_eq!(choose_agents(crowd(1)).len(), 0);
    assert_eq!(choose_agents(crowd(2)).len(), 1);
    assert_eq!(choose_agents(crowd(3)).len(), 1);
    assert_eq!(choose_agents(crowd(4)).len(), 2);
    assert_eq!(choose_agents(crowd(10)).len(), 5);
    assert_eq!(choose_agents(crowd(101)).len(), 50);
}

#[test]
fn nobody_is_chosen_twice() {
    for _ in 0..200 {
        let picked = choose_agents(registry());
        assert_eq!(picked.len(), 3);
        assert!(all_distinct(&names(&picked)));
    }
}

#[test]
fn who_is_chosen_is_registered() {
    let all = registry();
    for _ in 0..200 {
        for agent in choose_agents(registry()) {
            assert!(all.contains(&agent));
        }
    }
}

#[test]
fn choice_is_not_always_the_same() {
    let first = names(&choose_agents(crowd(40)));
    let mut differs = false;
    for _ in 0..50 {
        if names(&choose_agents(crowd(40))) != first {
            differs = true;
        }
    }
    assert!(differs);
}

#[test]
fn every_agent_is_chosen_at_some_time() {
    let mut seen = vec![false; 7];
    let all = names(&registry());
    for _ in 0..2000 {
        for name in names(&choose_agents(registry())) {
            let at = all.iter().position(|n| *n == name);
            assert!(at.is_some());
            seen[at.unwrap_or(0)] = true;
        }
    }
    assert_eq!(seen, vec![true; 7]);
}

#[test]
fn requests_are_built_for_each_agent_in_order() {
    let picked = vec![
        Agent { username: "a".to_string(), agent_type: AgentType::Troll },
        Agent { username: "b".to_string(), agent_type: AgentType::Helpful },
    ];
    let calls = requests_for(picked, "c");
    assert_eq!(calls.len(), 2);
    assert_eq!(calls[0].agent.username, "a");
    assert_eq!(calls[0].agent.agent_type, AgentType::Troll);
    assert_eq!(
        calls[0].request.messages[0].content,
        "Roast this code c. Respond to me as a troll twitch chat user and keep the response under 50 words please."
    );
    assert_eq!(calls[1].agent.username, "b");
    assert_eq!(
        calls[1].request.messages[0].content,
        "Help me fix this code c. Respond to me as a helpful twitch chat user and keep the response under 50 words please."
    );
}

#[test]
fn requests_for_nobody_are_none() {
    assert_eq!(requests_for(Vec::new(), "c").len(), 0);
}

#[test]
fn change_is_handed_to_three_of_seven() {
    let calls = on_change(registry(), "c");
    assert_eq!(calls.len(), 3);
    let all = registry();
    let mut callers = Vec::new();
    for call in &calls {
        assert!(all.contains(&call.agent));
        assert_eq!(call.request, chat_request("c", &call.agent));
        callers.push(call.agent.username.clone());
    }
    assert!(all_distinct(&callers));
}

#[test]
fn change_in_an_empty_registry_is_handed_to_nobody() {
    assert_eq!(on_change(Vec::new(), "c").len(), 0);
}
