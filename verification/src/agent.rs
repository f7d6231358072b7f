//! The agents that react to a change, and the tone each of them takes.

use vstd::prelude::*;
use vstd::string::StringExecFns;

verus! {

/// The tone in which an agent reacts.
#[derive(Clone, Copy, Debug, PartialEq, Eq, Structural)]
pub enum AgentType {
    Troll,
    Helpful,
    Normal,
}

/// The word that names a tone in a prompt.
pub open spec fn label_of(tone: AgentType) -> Seq<char> {
    match tone {
        AgentType::Troll => "troll"@,
        AgentType::Helpful => "helpful"@,
        AgentType::Normal => "normal"@,
    }
}

impl AgentType {
    /// The word that names this tone in a prompt.
    pub fn label(&self) -> (label: String)
        ensures
            label@ == label_of(*self),
    {
        match self {
            AgentType::Troll => String::from_str("troll"),
            AgentType::Helpful => String::from_str("helpful"),
            AgentType::Normal => String::from_str("normal"),
        }
    }
}

/// What a specification sees of an [`Agent`].
pub struct AgentView {
    pub username: Seq<char>,
    pub agent_type: AgentType,
}

/// One member of the crowd: a display name and a tone.
#[derive(Debug, PartialEq, Eq)]
pub struct Agent {
    pub username: String,
    pub agent_type: AgentType,
}

impl View for Agent {
    type V = AgentView;

    open spec fn view(&self) -> AgentView {
        AgentView { username: self.username@, agent_type: self.agent_type }
    }
}

impl Clone for Agent {
    fn clone(&self) -> (copy: Agent)
        ensures
            copy@ == self@,
    {
        Agent { username: self.username.clone(), agent_type: self.agent_type }
    }
}

/// The views of a list of agents, in order.
pub open spec fn agents_view(agents: Seq<Agent>) -> Seq<AgentView> {
    agents.map_values(|a: Agent| a@)
}

/// The names of a list of agents, in order.
pub open spec fn usernames(agents: Seq<AgentView>) -> Seq<Seq<char>> {
    agents.map_values(|a: AgentView| a.username)
}

/// The agents that are registered: seven, each under a name of its own.
pub open spec fn roster() -> Seq<AgentView> {
    seq![
        AgentView { username: "yamom12"@, agent_type: AgentType::Troll },
        AgentView { username: "coderg1rl22"@, agent_type: AgentType::Normal },
        AgentView { username: "masdbuddy"@, agent_type: AgentType::Helpful },
        AgentView { username: "galadiccc"@, agent_type: AgentType::Troll },
        AgentView { username: "bigd1kboi"@, agent_type: AgentType::Troll },
        AgentView { username: "starwarslover"@, agent_type: AgentType::Helpful },
        AgentView { username: "cheater2g1234"@, agent_type: AgentType::Normal },
    ]
}

/// An agent with the given name and tone.
fn agent(username: &str, agent_type: AgentType) -> (agent: Agent)
    ensures
        agent@ == (AgentView { username: username@, agent_type }),
{
    Agent { username: String::from_str(username), agent_type }
}

/// The registry: the fixed list of the agents that can be asked to react.
pub fn registry() -> (agents: Vec<Agent>)
    ensures
        agents_view(agents@) == roster(),
{
    let mut agents: Vec<Agent> = Vec::new();
    agents.push(agent("yamom12", AgentType::Troll));
    agents.push(agent("coderg1rl22", AgentType::Normal));
    agents.push(agent("masdbuddy", AgentType::Helpful));
    agents.push(agent("galadiccc", AgentType::Troll));
    agents.push(agent("bigd1kboi", AgentType::Troll));
    agents.push(agent("starwarslover", AgentType::Helpful));
    agents.push(agent("cheater2g1234", AgentType::Normal));
    agents
}

/// The registry is not empty, and no two of its agents share a name.
pub proof fn lemma_roster_names_distinct()
    ensures
        roster().len() == 7,
        usernames(roster()).no_duplicates(),
{
    reveal_strlit("yamom12");
    reveal_strlit("coderg1rl22");
    reveal_strlit("masdbuddy");
    reveal_strlit("galadiccc");
    reveal_strlit("bigd1kboi");
    reveal_strlit("starwarslover");
    reveal_strlit("cheater2g1234");
    let names = usernames(roster());
    assert(names[1][1] == 'o');
    assert(names[2][0] == 'm');
    assert(names[3][0] == 'g');
    assert(names[4][0] == 'b');
    assert(names[5][0] == 's');
    assert(names[6][1] == 'h');
}

} // verus!
