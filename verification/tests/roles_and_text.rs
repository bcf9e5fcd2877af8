use agent_supervisor::roles::normalize_actor_role;
use agent_supervisor::roles::normalize_agent_role;
use agent_supervisor::roles::valid_actor_role;
use agent_supervisor::roles::valid_agent_role;
use agent_supervisor::text::str_eq;
use agent_supervisor::text::trim_str;
use agent_supervisor::text::u32_to_string;

#[test]
fn role_validation_accepts_known_roles() {
    assert!(valid_actor_role("human"));
    assert!(valid_actor_role("ceo"));
    assert!(valid_actor_role("director"));
    assert!(valid_actor_role("manager"));
    assert!(valid_actor_role("worker"));
    assert!(!valid_actor_role("admin"));
}

#[test]
fn agent_role_validation_accepts_org_roles() {
    assert!(valid_agent_role("ceo"));
    assert!(valid_agent_role("director"));
    assert!(valid_agent_role("manager"));
    assert!(valid_agent_role("worker"));
    assert!(!valid_agent_role("human"));
    assert!(!valid_agent_role("admin"));
}

#[test]
fn role_validation_is_exact_match() {
    assert!(!valid_actor_role(" human"));
    assert!(!valid_actor_role("Human"));
    assert!(!valid_actor_role(""));
    assert!(!valid_agent_role("CEO"));
}

#[test]
fn role_normalization_case_folds() {
    assert_eq!(normalize_agent_role("CEO").as_deref(), Some("ceo"));
    assert_eq!(normalize_agent_role("Worker").as_deref(), Some("worker"));
    assert_eq!(normalize_agent_role("human"), None);
    assert_eq!(normalize_agent_role("boss"), None);
    assert_eq!(normalize_actor_role("HUMAN").as_deref(), Some("human"));
    assert_eq!(normalize_actor_role("Director").as_deref(), Some("director"));
    assert_eq!(normalize_actor_role("admin"), None);
}

#[test]
fn trim_removes_surrounding_whitespace() {
    assert_eq!(trim_str("  a b\t\r\n"), "a b");
    assert_eq!(trim_str("plain"), "plain");
    assert_eq!(trim_str("   \t\n"), "");
    assert_eq!(trim_str(""), "");
}

#[test]
fn string_equality_is_character_wise() {
    assert!(str_eq("abc", "abc"));
    assert!(!str_eq("abc", "abd"));
    assert!(!str_eq("abc", "abcd"));
    assert!(str_eq("", ""));
}

#[test]
fn decimal_rendering_is_exact() {
    assert_eq!(u32_to_string(0), "0");
    assert_eq!(u32_to_string(7), "7");
    assert_eq!(u32_to_string(8787), "8787");
    assert_eq!(u32_to_string(4294967295), "4294967295");
}
