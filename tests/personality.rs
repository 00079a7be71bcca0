use workflow::agent::AgentName;
use workflow::personality::personality;

#[test]
fn all_agents_have_personalities() {
    for name in AgentName::all() {
        let p = personality(name);
        assert!(!p.tagline.is_empty(), "{} tagline is empty", name.as_str());
        assert!(!p.focus.is_empty(), "{} focus is empty", name.as_str());
        assert!(!p.traits.is_empty(), "{} traits are empty", name.as_str());
        assert!(!p.system_prompt.is_empty(), "{} system_prompt is empty", name.as_str());
    }
}

#[test]
fn each_agent_has_unique_tagline() {
    let taglines: Vec<&str> = AgentName::all().iter().map(|n| personality(*n).tagline).collect();
    for (i, a) in taglines.iter().enumerate() {
        for (j, b) in taglines.iter().enumerate() {
            if i != j {
                assert_ne!(a, b, "agents {i} and {j} share tagline {a}");
            }
        }
    }
}

#[test]
fn each_agent_has_unique_traits() {
    let all_traits: Vec<Vec<&str>> = AgentName::all()
        .iter()
        .map(|n| personality(*n).traits.to_vec())
        .collect();
    for (i, a) in all_traits.iter().enumerate() {
        for (j, b) in all_traits.iter().enumerate() {
            if i != j {
                assert_ne!(a, b, "agents {i} and {j} share identical traits");
            }
        }
    }
}

#[test]
fn ember_is_production_focused() {
    let p = personality(AgentName::Ember);
    assert_eq!(p.tagline, "Handles the fire");
    assert!(p.focus.contains("production"), "Ember focus should mention production");
    assert!(p.focus.contains("Sentry"), "Ember focus should mention Sentry");
    assert!(p.focus.contains("EOD"), "Ember focus should mention EOD");
    assert!(p.traits.contains(&"production-focused"));
}

#[test]
fn flow_is_architecture_focused() {
    let p = personality(AgentName::Flow);
    assert_eq!(p.tagline, "Steady and thorough");
    assert!(p.focus.contains("architecture"), "Flow focus should mention architecture");
    assert!(p.focus.contains("long term"), "Flow focus should mention long term");
    assert!(p.traits.contains(&"methodical"));
}

#[test]
fn tempest_is_test_focused() {
    let p = personality(AgentName::Tempest);
    assert_eq!(p.tagline, "Creative and a bit chaotic");
    assert!(p.focus.contains("tests"), "Tempest focus should mention tests");
    assert!(p.focus.contains("validation"), "Tempest focus should mention validation");
    assert!(p.traits.contains(&"test-obsessed"));
}

#[test]
fn terra_is_refactoring_focused() {
    let p = personality(AgentName::Terra);
    assert_eq!(p.tagline, "Preserve and simplify");
    assert!(p.focus.contains("Refactors"), "Terra focus should mention refactoring");
    assert!(p.focus.contains("simplify"), "Terra focus should mention simplification");
    assert!(p.traits.contains(&"simplifying"));
}

#[test]
fn personality_traits_are_in_order() {
    assert_eq!(personality(AgentName::Ember).traits, vec!["vigilant", "reactive", "production-focused"]);
    assert_eq!(personality(AgentName::Terra).traits, vec!["preserving", "simplifying", "reductive"]);
}
