use mcp_agents::registry::find_agent;
use mcp_agents::registry::get_agents;

#[test]
fn four_agents_in_source_order() {
    let agents = get_agents();
    assert_eq!(agents.len(), 4);
    assert_eq!(agents[0].id, "agent_001");
    assert_eq!(agents[1].id, "agent_002");
    assert_eq!(agents[2].id, "agent_003");
    assert_eq!(agents[3].id, "agent_004");
    assert_eq!(agents[0].name, "General Assistant");
    assert_eq!(agents[1].name, "Web3 Expert");
    assert_eq!(agents[2].name, "Voice Specialist");
    assert_eq!(agents[3].name, "Code Assistant");
    for a in &agents {
        assert_eq!(a.model, "gemini-2.0-flash-exp");
        assert!(!a.system_prompt.is_empty());
        assert!(!a.capabilities.is_empty());
    }
}

#[test]
fn agent_ids_are_unique() {
    let agents = get_agents();
    for i in 0..agents.len() {
        for j in 0..agents.len() {
            if i != j {
                assert_ne!(agents[i].id, agents[j].id);
            }
        }
    }
}

#[test]
fn find_known_agent() {
    let a = find_agent("agent_003").expect("agent_003 is in the registry");
    assert_eq!(a.id, "agent_003");
    assert_eq!(a.name, "Voice Specialist");
}

#[test]
fn find_unknown_agent() {
    assert!(find_agent("agent_999").is_none());
    assert!(find_agent("").is_none());
}
