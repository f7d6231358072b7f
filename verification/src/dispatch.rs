//! Who is asked to react to a change: a random half of the agents, each
//! with the request that is sent on its behalf.

use vstd::prelude::*;
use crate::agent::{agents_view, usernames, Agent, AgentView};
use crate::chat::{chat_request, prompt_text, request_for, DeepSeekRequest, DeepSeekRequestView};

verus! {

/// How many of `count` agents one change is handed to: half of them,
/// rounded down.
pub open spec fn sample_size(count: nat) -> nat {
    count / 2
}

/// Whether `picked` holds, item by item, what `items` holds at `positions`,
/// and no position occurs twice.
pub open spec fn picks<T>(picked: Seq<T>, items: Seq<T>, positions: Seq<int>) -> bool {
    &&& positions.len() == picked.len()
    &&& positions.no_duplicates()
    &&& forall|i: int|
        0 <= i < picked.len() ==> 0 <= #[trigger] positions[i] < items.len() && picked[i]
            == items[positions[i]]
}

/// Whether `picked` is a selection from `items` without replacement: each
/// of its items stands at a position of `items` that no other of its items
/// was taken from.
pub open spec fn is_sample<T>(picked: Seq<T>, items: Seq<T>) -> bool {
    exists|positions: Seq<int>| #[trigger] picks(picked, items, positions)
}

/// Declares `rand::rngs::ThreadRng`, the handle of a thread's random
/// number generator, as a type whose values are carried through and never
/// looked into.
#[verifier::external_type_specification]
#[verifier::external_body]
pub struct ExThreadRng(rand::rngs::ThreadRng);

/// Calls `rand::rng`, which hands out the random number generator of the
/// current thread.
///
/// Trusted: nothing is claimed of the generator. The call fails only where
/// the system has no entropy to seed the generator with.
#[verifier::external_body]
fn thread_rng() -> (rng: rand::rngs::ThreadRng) {
    rand::rng()
}

/// Calls `rand::seq::IteratorRandom::choose_multiple` on the items of a
/// vector.
///
/// Trusted: that the result has `amount` items, and that it is a selection
/// from `items` without replacement. The function first takes the leading
/// `amount` items and then lets each later item take the place of one that
/// was taken before, or of none: the result holds no item of `items` from
/// one position twice. Which items it holds depends on the generator. An
/// `amount` beyond the number of items is left out.
#[verifier::external_body]
fn choose_multiple<T>(items: Vec<T>, rng: &mut rand::rngs::ThreadRng, amount: usize) -> (picked:
    Vec<T>)
    requires
        amount <= items@.len(),
    ensures
        picked@.len() == amount,
        is_sample(picked@, items@),
{
    rand::seq::IteratorRandom::choose_multiple(items.into_iter(), rng, amount)
}

/// A selection without replacement is one of the views as well.
pub proof fn lemma_sample_of_views(picked: Seq<Agent>, agents: Seq<Agent>)
    requires
        is_sample(picked, agents),
    ensures
        is_sample(agents_view(picked), agents_view(agents)),
{
    let positions = choose|positions: Seq<int>| #[trigger] picks(picked, agents, positions);
    assert(picks(agents_view(picked), agents_view(agents), positions));
}

/// Picks the agents that one change is handed to: half of `agents`, rounded
/// down, chosen at random without replacement. No agent is picked twice.
pub fn choose_agents(agents: Vec<Agent>) -> (picked: Vec<Agent>)
    ensures
        picked@.len() == sample_size(agents@.len()),
        is_sample(agents_view(picked@), agents_view(agents@)),
{
    let amount = agents.len() / 2;
    let mut rng = thread_rng();
    let ghost all = agents@;
    let picked = choose_multiple(agents, &mut rng, amount);
    proof {
        lemma_sample_of_views(picked@, all);
    }
    picked
}

/// Where no two agents share a name, no two agents of a selection without
/// replacement do.
pub proof fn lemma_sample_names_distinct(picked: Seq<AgentView>, agents: Seq<AgentView>)
    requires
        is_sample(picked, agents),
        usernames(agents).no_duplicates(),
    ensures
        usernames(picked).no_duplicates(),
{
    let positions = choose|positions: Seq<int>| #[trigger] picks(picked, agents, positions);
    assert forall|i: int, j: int|
        0 <= i < picked.len() && 0 <= j < picked.len() && i != j implies usernames(picked)[i]
        != usernames(picked)[j] by {
        assert(usernames(agents)[positions[i]] != usernames(agents)[positions[j]]);
    }
}

/// What a specification sees of a [`Call`].
pub struct CallView {
    pub agent: AgentView,
    pub request: DeepSeekRequestView,
}

/// One request to make: the agent that reacts, and what is sent on its
/// behalf.
#[derive(Debug, PartialEq, Eq)]
pub struct Call {
    pub agent: Agent,
    pub request: DeepSeekRequest,
}

impl View for Call {
    type V = CallView;

    open spec fn view(&self) -> CallView {
        CallView { agent: self.agent@, request: self.request@ }
    }
}

/// The views of a list of calls, in order.
pub open spec fn calls_view(calls: Seq<Call>) -> Seq<CallView> {
    calls.map_values(|c: Call| c@)
}

/// The agents of a list of calls, in order.
pub open spec fn callers(calls: Seq<CallView>) -> Seq<AgentView> {
    calls.map_values(|c: CallView| c.agent)
}

/// The call that asks `agent` for a reaction to `fragment`.
pub open spec fn call_for(agent: AgentView, fragment: Seq<char>) -> CallView {
    CallView { agent, request: request_for(prompt_text(fragment, agent.agent_type)) }
}

/// The calls that ask each of `agents` for a reaction to `fragment`.
pub open spec fn calls_for(agents: Seq<AgentView>, fragment: Seq<char>) -> Seq<CallView> {
    agents.map_values(|a: AgentView| call_for(a, fragment))
}

/// Builds, for each of the agents that were picked, the request that asks
/// it for a reaction to `fragment`. The calls stand in the order of the
/// agents.
pub fn requests_for(picked: Vec<Agent>, fragment: &str) -> (calls: Vec<Call>)
    ensures
        calls_view(calls@) == calls_for(agents_view(picked@), fragment@),
{
    let mut calls: Vec<Call> = Vec::new();
    let ghost all = agents_view(picked@);
    for agent in it: picked
        invariant
            all == agents_view(it.seq()),
            calls_view(calls@) == calls_for(all.take(it.index() as int), fragment@),
    {
        let ghost before = calls_view(calls@);
        let request = chat_request(fragment, &agent);
        calls.push(Call { agent, request });
        assert(calls_view(calls@) =~= before.push(call_for(all[it.index() as int], fragment@)));
        assert(all.take(it.index() + 1) =~= all.take(it.index() as int).push(
            all[it.index() as int],
        ));
    }
    calls
}

/// Answers a change: picks half of `agents`, rounded down, at random and
/// without replacement, and builds for each of them the request that asks
/// for a reaction to `fragment`.
///
/// Each call is made on its own. What becomes of one call has no part in
/// any other.
pub fn on_change(agents: Vec<Agent>, fragment: &str) -> (calls: Vec<Call>)
    ensures
        calls@.len() == sample_size(agents@.len()),
        is_sample(callers(calls_view(calls@)), agents_view(agents@)),
        calls_view(calls@) == calls_for(callers(calls_view(calls@)), fragment@),
{
    let picked = choose_agents(agents);
    let calls = requests_for(picked, fragment);
    assert(callers(calls_view(calls@)) =~= agents_view(picked@));
    calls
}

} // verus!
