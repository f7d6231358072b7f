//! The reactions that came back, queued for a single consumer.
//!
//! Producers publish, the consumer takes from the front: what is handed
//! out is what was published, in the order of publishing, each reaction
//! once. The queue has no bound, so publishing never waits. Who shares an
//! aggregator among tasks puts it behind a lock.

use std::collections::VecDeque;
use vstd::prelude::*;
use vstd::string::StringExecFns;
use crate::agent::{Agent, AgentView};
use crate::chat::{reply_view, ChatError};

verus! {

/// What a specification sees of a [`ChatResponse`].
pub struct ChatResponseView {
    pub username: Seq<char>,
    pub message: Seq<char>,
}

/// One reaction: who reacts, and what they say.
#[derive(Clone, Debug, PartialEq, Eq)]
pub struct ChatResponse {
    pub username: String,
    pub message: String,
}

impl View for ChatResponse {
    type V = ChatResponseView;

    open spec fn view(&self) -> ChatResponseView {
        ChatResponseView { username: self.username@, message: self.message@ }
    }
}

/// The line that shows a reaction.
pub open spec fn line_of(reaction: ChatResponseView) -> Seq<char> {
    "["@ + reaction.username + "]: "@ + reaction.message + "\n"@
}

impl ChatResponse {
    /// The line that shows this reaction: the name in square brackets, a
    /// colon, the message, and the end of the line.
    pub fn line(&self) -> (text: String)
        ensures
            text@ == line_of(self@),
    {
        let mut text = String::from_str("[");
        text.append(self.username.as_str());
        text.append("]: ");
        text.append(self.message.as_str());
        text.append("\n");
        text
    }
}

/// What a specification sees of an optional reaction.
pub open spec fn reaction_view(reaction: Option<ChatResponse>) -> Option<ChatResponseView> {
    match reaction {
        Some(r) => Some(r@),
        None => None,
    }
}

/// The reaction that the end of a request gives: the answer under the name
/// of the agent where the request succeeded, and none where it failed.
pub open spec fn reaction_of(agent: AgentView, outcome: Result<Seq<char>, ChatError>) -> Option<
    ChatResponseView,
> {
    match outcome {
        Ok(message) => Some(ChatResponseView { username: agent.username, message }),
        Err(_) => None,
    }
}

/// Turns the end of the request that was made for `agent` into the
/// reaction to publish. A request that failed gives none, whatever the
/// failure was.
pub fn reaction(agent: Agent, outcome: Result<String, ChatError>) -> (reaction: Option<
    ChatResponse,
>)
    ensures
        reaction_view(reaction) == reaction_of(agent@, reply_view(outcome)),
{
    match outcome {
        Ok(message) => Some(ChatResponse { username: agent.username, message }),
        Err(_) => None,
    }
}

/// The queue after `reaction` was published.
pub open spec fn after_publish(queue: Seq<ChatResponseView>, reaction: ChatResponseView) -> Seq<
    ChatResponseView,
> {
    queue.push(reaction)
}

/// The queue after the end of one request was forwarded: longer by the
/// reaction where there is one, and unchanged where the request failed.
pub open spec fn after_forward(
    queue: Seq<ChatResponseView>,
    agent: AgentView,
    outcome: Result<Seq<char>, ChatError>,
) -> Seq<ChatResponseView> {
    match reaction_of(agent, outcome) {
        Some(reaction) => after_publish(queue, reaction),
        None => queue,
    }
}

/// What the consumer is handed next.
pub open spec fn next_of(queue: Seq<ChatResponseView>) -> Option<ChatResponseView> {
    if queue.len() == 0 {
        None
    } else {
        Some(queue.first())
    }
}

/// The queue after the consumer was handed the next reaction.
pub open spec fn after_next(queue: Seq<ChatResponseView>) -> Seq<ChatResponseView> {
    if queue.len() == 0 {
        queue
    } else {
        queue.drop_first()
    }
}

/// The views of a list of reactions, in order.
pub open spec fn reactions_view(reactions: Seq<ChatResponse>) -> Seq<ChatResponseView> {
    reactions.map_values(|r: ChatResponse| r@)
}

/// The queue between the producers of reactions and their consumer.
pub struct Aggregator {
    queue: VecDeque<ChatResponse>,
}

impl View for Aggregator {
    type V = Seq<ChatResponseView>;

    closed spec fn view(&self) -> Seq<ChatResponseView> {
        reactions_view(self.queue@)
    }
}

impl Aggregator {
    /// An aggregator that holds nothing.
    pub fn new() -> (aggregator: Aggregator)
        ensures
            aggregator@ == Seq::<ChatResponseView>::empty(),
    {
        let aggregator = Aggregator { queue: VecDeque::new() };
        aggregator
    }

    /// How many reactions wait for the consumer.
    pub fn len(&self) -> (n: usize)
        ensures
            n == self@.len(),
    {
        self.queue.len()
    }

    /// Whether no reaction waits for the consumer.
    pub fn is_empty(&self) -> (empty: bool)
        ensures
            empty == (self@.len() == 0),
    {
        self.queue.len() == 0
    }

    /// Puts `reaction` behind everything that was published before.
    pub fn publish(&mut self, reaction: ChatResponse)
        ensures
            final(self)@ == after_publish(old(self)@, reaction@),
    {
        self.queue.push_back(reaction);
    }

    /// Forwards the end of the request that was made for `agent`: publishes
    /// the reaction where the request succeeded, and leaves the queue as it
    /// is where it failed.
    pub fn forward(&mut self, agent: Agent, outcome: Result<String, ChatError>)
        ensures
            final(self)@ == after_forward(old(self)@, agent@, reply_view(outcome)),
    {
        match reaction(agent, outcome) {
            Some(r) => self.publish(r),
            None => {},
        }
    }

    /// Hands out the reaction that was published first among those that
    /// wait, and takes it from the queue; `None` where none waits.
    pub fn next(&mut self) -> (reaction: Option<ChatResponse>)
        ensures
            reaction_view(reaction) == next_of(old(self)@),
            final(self)@ == after_next(old(self)@),
    {
        self.queue.pop_front()
    }

    /// Hands out every reaction that waits, in the order of publishing, and
    /// leaves the queue empty.
    pub fn drain(&mut self) -> (reactions: Vec<ChatResponse>)
        ensures
            reactions_view(reactions@) == old(self)@,
            final(self)@ == Seq::<ChatResponseView>::empty(),
    {
        let mut reactions: Vec<ChatResponse> = Vec::new();
        loop
            invariant
                reactions_view(reactions@) + self@ == old(self)@,
            ensures
                self@.len() == 0,
            decreases self@.len(),
        {
            match self.next() {
                Some(r) => {
                    reactions.push(r);
                },
                None => {
                    break ;
                },
            }
        }
        reactions
    }
}

/// The end of the request that was made for one agent.
pub struct Completion {
    pub agent: AgentView,
    pub outcome: Result<Seq<char>, ChatError>,
}

/// The reaction that a completion gives, if any.
pub open spec fn completion_reaction(end: Completion) -> Option<ChatResponseView> {
    reaction_of(end.agent, end.outcome)
}

/// The reactions that a list of completions gives, in the order of the
/// completions.
pub open spec fn reactions_of(ends: Seq<Completion>) -> Seq<ChatResponseView> {
    ends.filter_map(|end: Completion| completion_reaction(end))
}

/// The queue after each of `ends` was forwarded, in order.
pub open spec fn after_forward_all(queue: Seq<ChatResponseView>, ends: Seq<Completion>) -> Seq<
    ChatResponseView,
>
    decreases ends.len(),
{
    if ends.len() == 0 {
        queue
    } else {
        after_forward(
            after_forward_all(queue, ends.drop_last()),
            ends.last().agent,
            ends.last().outcome,
        )
    }
}

/// Forwarding the ends of the requests of a dispatch, in whatever order
/// they come in, adds to the queue the reactions of those that succeeded
/// and nothing else.
pub proof fn lemma_forward_all(queue: Seq<ChatResponseView>, ends: Seq<Completion>)
    ensures
        after_forward_all(queue, ends) == queue + reactions_of(ends),
    decreases ends.len(),
{
    if ends.len() > 0 {
        lemma_forward_all(queue, ends.drop_last());
    }
}

/// A request that fails keeps no other request of the same dispatch from
/// being published: whatever became of the other requests, the reaction of
/// each request that succeeded is in the queue once all were forwarded.
pub proof fn lemma_success_is_published(
    queue: Seq<ChatResponseView>,
    ends: Seq<Completion>,
    i: int,
)
    requires
        0 <= i < ends.len(),
        ends[i].outcome is Ok,
    ensures
        after_forward_all(queue, ends).contains(
            ChatResponseView { username: ends[i].agent.username, message: ends[i].outcome->Ok_0 },
        ),
    decreases ends.len(),
{
    let wanted = ChatResponseView {
        username: ends[i].agent.username,
        message: ends[i].outcome->Ok_0,
    };
    let earlier = after_forward_all(queue, ends.drop_last());
    if i == ends.len() - 1 {
        let now = after_forward_all(queue, ends);
        assert(now[now.len() - 1] == wanted);
    } else {
        lemma_success_is_published(queue, ends.drop_last(), i);
        let k = choose|k: int| 0 <= k < earlier.len() && earlier[k] == wanted;
        let now = after_forward_all(queue, ends);
        assert(now[k] == wanted);
    }
}

/// As many reactions are published as requests succeeded.
pub proof fn lemma_published_count(ends: Seq<Completion>)
    ensures
        reactions_of(ends).len() == ends.filter(|end: Completion| end.outcome is Ok).len(),
    decreases ends.len(),
{
    reveal(Seq::filter);
    if ends.len() > 0 {
        lemma_published_count(ends.drop_last());
    }
}

/// One thing that happens to the queue.
pub enum Step {
    /// A producer publishes a reaction.
    Publish(ChatResponseView),
    /// The consumer asks for the next reaction.
    Next,
}

/// The queue after `steps` happened to `queue`, in order.
pub open spec fn queue_after(queue: Seq<ChatResponseView>, steps: Seq<Step>) -> Seq<
    ChatResponseView,
>
    decreases steps.len(),
{
    if steps.len() == 0 {
        queue
    } else {
        let before = queue_after(queue, steps.drop_last());
        match steps.last() {
            Step::Publish(reaction) => after_publish(before, reaction),
            Step::Next => after_next(before),
        }
    }
}

/// What the consumer was handed while `steps` happened to `queue`.
pub open spec fn delivered(queue: Seq<ChatResponseView>, steps: Seq<Step>) -> Seq<
    ChatResponseView,
>
    decreases steps.len(),
{
    if steps.len() == 0 {
        Seq::empty()
    } else {
        let earlier = delivered(queue, steps.drop_last());
        match steps.last() {
            Step::Publish(_) => earlier,
            Step::Next => match next_of(queue_after(queue, steps.drop_last())) {
                Some(reaction) => earlier.push(reaction),
                None => earlier,
            },
        }
    }
}

/// What the producers published while `steps` happened.
pub open spec fn published(steps: Seq<Step>) -> Seq<ChatResponseView>
    decreases steps.len(),
{
    if steps.len() == 0 {
        Seq::empty()
    } else {
        let earlier = published(steps.drop_last());
        match steps.last() {
            Step::Publish(reaction) => earlier.push(reaction),
            Step::Next => earlier,
        }
    }
}

/// Every reaction reaches the consumer once, in the order of publishing,
/// and none is lost: however publishing and taking follow each other, what
/// the consumer was handed, followed by what still waits, is what waited at
/// the start followed by what was published since. That holds of what was
/// published before the consumer took anything as of everything later.
pub proof fn lemma_each_reaction_once(queue: Seq<ChatResponseView>, steps: Seq<Step>)
    ensures
        delivered(queue, steps) + queue_after(queue, steps) == queue + published(steps),
    decreases steps.len(),
{
    if steps.len() > 0 {
        lemma_each_reaction_once(queue, steps.drop_last());
        let before = queue_after(queue, steps.drop_last());
        let earlier = delivered(queue, steps.drop_last());
        let sent = published(steps.drop_last());
        match steps.last() {
            Step::Publish(reaction) => {
                assert((queue + sent).push(reaction) =~= queue + sent.push(reaction));
            },
            Step::Next => {
                if before.len() > 0 {
                    assert(earlier.push(before.first()) + before.drop_first() =~= earlier
                        + before);
                }
            },
        }
    }
}

} // verus!
