//! The agent registry: a fixed table of named agents, each a system prompt
//! bound to a generative-text model, looked up by identifier.
//!
//! The table is compiled in and never changes at run time; every contract
//! in this crate that speaks of an agent speaks of [`spec_agents`], the
//! mathematical image of the table.

use vstd::prelude::*;

verus! {

/// Spec-level image of an [`Agent`]: every field as a sequence of
/// characters (capabilities as a sequence of such sequences).
pub struct AgentView {
    pub id: Seq<char>,
    pub name: Seq<char>,
    pub description: Seq<char>,
    pub capabilities: Seq<Seq<char>>,
    pub model: Seq<char>,
    pub system_prompt: Seq<char>,
}

/// One agent of the registry: display metadata, the backing model name,
/// and the system prompt that defines its behaviour.
pub struct Agent {
    /// Unique identifier within the registry.
    pub id: String,
    /// Human-readable name.
    pub name: String,
    /// Brief description of the agent's purpose.
    pub description: String,
    /// Capability tags.
    pub capabilities: Vec<String>,
    /// Backing generative model.
    pub model: String,
    /// System prompt sent to the model with every request.
    pub system_prompt: String,
}

impl View for Agent {
    type V = AgentView;

    open spec fn view(&self) -> AgentView {
        AgentView {
            id: self.id@,
            name: self.name@,
            description: self.description@,
            capabilities: self.capabilities@.map_values(|c: String| c@),
            model: self.model@,
            system_prompt: self.system_prompt@,
        }
    }
}

/// Display form of an agent as the gateway hands it to clients:
/// identifier, name and description only.
pub struct AgentInfo {
    pub id: String,
    pub name: String,
    pub description: String,
}

/// The registry as a mathematical value: the four agents, in source
/// order.  This is the single ground truth the executable table is
/// proved against.
pub open spec fn spec_agents() -> Seq<AgentView> {
    seq![
        AgentView {
            id: "agent_001"@,
            name: "General Assistant"@,
            description: "A helpful general-purpose AI assistant powered by Gemini"@,
            capabilities: seq!["text"@, "conversation"@, "reasoning"@],
            model: "gemini-2.0-flash-exp"@,
            system_prompt: "You are a helpful, friendly, and knowledgeable AI assistant. Provide clear, accurate, and concise responses."@,
        },
        AgentView {
            id: "agent_002"@,
            name: "Web3 Expert"@,
            description: "Specialized in blockchain, Web3, and cryptocurrency technologies"@,
            capabilities: seq!["web3"@, "crypto"@, "blockchain"@, "nft"@],
            model: "gemini-2.0-flash-exp"@,
            system_prompt: "You are a Web3 and blockchain expert. Help users understand cryptocurrency, NFTs, smart contracts, DeFi, and related technologies. Provide accurate technical information and practical guidance."@,
        },
        AgentView {
            id: "agent_003"@,
            name: "Voice Specialist"@,
            description: "Optimized for natural voice conversations and audio interactions"@,
            capabilities: seq!["voice"@, "audio"@, "conversation"@],
            model: "gemini-2.0-flash-exp"@,
            system_prompt: "You are an AI assistant optimized for voice interactions. Respond in a natural, conversational tone suitable for speech. Keep responses concise and easy to understand when spoken aloud."@,
        },
        AgentView {
            id: "agent_004"@,
            name: "Code Assistant"@,
            description: "Expert in programming, software development, and technical problem-solving"@,
            capabilities: seq!["coding"@, "debugging"@, "technical"@],
            model: "gemini-2.0-flash-exp"@,
            system_prompt: "You are an expert programming assistant. Help users with code, debugging, architecture, and technical decisions. Provide clear explanations and working code examples."@,
        },
    ]
}

/// The first agent of `agents` whose id is `id`, if any.
pub open spec fn first_match(agents: Seq<AgentView>, id: Seq<char>) -> Option<AgentView>
    decreases agents.len(),
{
    if agents.len() == 0 {
        None
    } else if agents[0].id == id {
        Some(agents[0])
    } else {
        first_match(agents.subrange(1, agents.len() as int), id)
    }
}

/// Spec-level image of an optional agent.
pub open spec fn view_opt_agent(r: Option<Agent>) -> Option<AgentView> {
    match r {
        Some(a) => Some(a@),
        None => None,
    }
}

fn mk_string_vec3(a: &str, b: &str, c: &str) -> (v: Vec<String>)
    ensures
        v@.map_values(|s: String| s@) =~= seq![a@, b@, c@],
{
    let v: Vec<String> = vec![a.to_owned(), b.to_owned(), c.to_owned()];
    assert(v@.map_values(|s: String| s@) =~= seq![a@, b@, c@]);
    v
}

fn mk_string_vec4(a: &str, b: &str, c: &str, d: &str) -> (v: Vec<String>)
    ensures
        v@.map_values(|s: String| s@) =~= seq![a@, b@, c@, d@],
{
    let v: Vec<String> = vec![a.to_owned(), b.to_owned(), c.to_owned(), d.to_owned()];
    assert(v@.map_values(|s: String| s@) =~= seq![a@, b@, c@, d@]);
    v
}

/// Returns the registry table: the four agents, in source order, exactly
/// as [`spec_agents`] states them.
pub fn get_agents() -> (agents: Vec<Agent>)
    ensures
        agents@.map_values(|a: Agent| a@) =~~= spec_agents(),
{
    let a1 = Agent {
        id: "agent_001".to_owned(),
        name: "General Assistant".to_owned(),
        description: "A helpful general-purpose AI assistant powered by Gemini".to_owned(),
        capabilities: mk_string_vec3("text", "conversation", "reasoning"),
        model: "gemini-2.0-flash-exp".to_owned(),
        system_prompt: "You are a helpful, friendly, and knowledgeable AI assistant. Provide clear, accurate, and concise responses.".to_owned(),
    };
    let a2 = Agent {
        id: "agent_002".to_owned(),
        name: "Web3 Expert".to_owned(),
        description: "Specialized in blockchain, Web3, and cryptocurrency technologies".to_owned(),
        capabilities: mk_string_vec4("web3", "crypto", "blockchain", "nft"),
        model: "gemini-2.0-flash-exp".to_owned(),
        system_prompt: "You are a Web3 and blockchain expert. Help users understand cryptocurrency, NFTs, smart contracts, DeFi, and related technologies. Provide accurate technical information and practical guidance.".to_owned(),
    };
    let a3 = Agent {
        id: "agent_003".to_owned(),
        name: "Voice Specialist".to_owned(),
        description: "Optimized for natural voice conversations and audio interactions".to_owned(),
        capabilities: mk_string_vec3("voice", "audio", "conversation"),
        model: "gemini-2.0-flash-exp".to_owned(),
        system_prompt: "You are an AI assistant optimized for voice interactions. Respond in a natural, conversational tone suitable for speech. Keep responses concise and easy to understand when spoken aloud.".to_owned(),
    };
    let a4 = Agent {
        id: "agent_004".to_owned(),
        name: "Code Assistant".to_owned(),
        description: "Expert in programming, software development, and technical problem-solving".to_owned(),
        capabilities: mk_string_vec3("coding", "debugging", "technical"),
        model: "gemini-2.0-flash-exp".to_owned(),
        system_prompt: "You are an expert programming assistant. Help users with code, debugging, architecture, and technical decisions. Provide clear explanations and working code examples.".to_owned(),
    };
    let agents: Vec<Agent> = vec![a1, a2, a3, a4];
    assert(agents@.map_values(|a: Agent| a@) =~~= spec_agents());
    agents
}

/// Looks an agent up by identifier; `None` exactly when no agent of the
/// registry carries `id`.
pub fn find_agent(id: &str) -> (r: Option<Agent>)
    ensures
        view_opt_agent(r) == first_match(spec_agents(), id@),
{
    let mut agents = get_agents();
    let ghost all: Seq<AgentView> = spec_agents();
    proof {
        assert(all.subrange(0, all.len() as int) =~= all);
    }
    let mut i: usize = 0;
    while i < agents.len()
        invariant
            agents@.map_values(|a: Agent| a@) =~~= spec_agents(),
            0 <= i <= agents@.len(),
            first_match(all, id@) == first_match(all.subrange(i as int, all.len() as int), id@),
            all == spec_agents(),
        decreases agents@.len() - i,
    {
        let candidate = &agents[i];
        if crate::text::str_eq(candidate.id.as_str(), id) {
            proof {
                let tail = all.subrange(i as int, all.len() as int);
                assert(tail[0] == all[i as int]);
                assert(first_match(tail, id@) == Some(all[i as int]));
            }
            let found = agents.remove(i);
            return Some(found);
        }
        proof {
            let tail = all.subrange(i as int, all.len() as int);
            assert(tail[0] == all[i as int]);
            assert(tail[0].id != id@);
            assert(tail.subrange(1, tail.len() as int)
                =~= all.subrange(i + 1, all.len() as int));
        }
        i = i + 1;
    }
    proof {
        assert(all.subrange(all.len() as int, all.len() as int) =~= Seq::<AgentView>::empty());
    }
    None
}

/// The four identifiers of the registry are pairwise distinct, so a
/// lookup result is unambiguous and a listing repeats no id.
pub proof fn lemma_agent_ids_unique()
    ensures
        forall|i: int, j: int|
            0 <= i < spec_agents().len() && 0 <= j < spec_agents().len() && i != j
                ==> #[trigger] spec_agents()[i].id != #[trigger] spec_agents()[j].id,
{
    reveal_strlit("agent_001");
    reveal_strlit("agent_002");
    reveal_strlit("agent_003");
    reveal_strlit("agent_004");
    assert(spec_agents()[0].id[8] == '1');
    assert(spec_agents()[1].id[8] == '2');
    assert(spec_agents()[2].id[8] == '3');
    assert(spec_agents()[3].id[8] == '4');
}

} // verus!
