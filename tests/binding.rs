use porep_utils::binding::P2_GROUP_SIZE;
use porep_utils::text::{parse_usize, str_equals};
use porep_utils::{
    binding_use_locality, env_lock_p2_cores, p1_binding_policy, p2_binding_policy,
    p2_binding_use_same_set, ParsePolicyError, P1BoundPolicy, P2BoundPolicy,
};

#[test]
fn p2_policy_unset_is_no_binding() {
    let r = p2_binding_policy(None);
    assert_eq!(r.value, P2BoundPolicy::NoBinding);
    assert!(!r.malformed);
}

#[test]
fn p2_policy_named_values() {
    assert_eq!(p2_binding_policy(Some("Strict")).value, P2BoundPolicy::Strict);
    assert_eq!(p2_binding_policy(Some("Weak")).value, P2BoundPolicy::Weak);
    assert_eq!(p2_binding_policy(Some("NoBinding")).value, P2BoundPolicy::NoBinding);
    assert!(!p2_binding_policy(Some("Strict")).malformed);
}

#[test]
fn p2_policy_invalid_falls_back() {
    let r = p2_binding_policy(Some("Bogus"));
    assert_eq!(r.value, P2BoundPolicy::NoBinding);
    assert!(r.malformed);
    let r = p2_binding_policy(Some("strict"));
    assert_eq!(r.value, P2BoundPolicy::NoBinding);
    assert!(r.malformed);
}

#[test]
fn p2_cores_values() {
    let r = env_lock_p2_cores(Some("16"));
    assert_eq!(r.value, 16);
    assert!(!r.malformed);
    let r = env_lock_p2_cores(None);
    assert_eq!(r.value, 8);
    assert_eq!(r.value, P2_GROUP_SIZE);
    assert!(!r.malformed);
    let r = env_lock_p2_cores(Some("abc"));
    assert_eq!(r.value, 8);
    assert!(r.malformed);
}

#[test]
fn p2_cores_edge_inputs() {
    assert_eq!(env_lock_p2_cores(Some("+4")).value, 4);
    assert!(env_lock_p2_cores(Some("")).malformed);
    assert!(env_lock_p2_cores(Some("-4")).malformed);
    assert!(env_lock_p2_cores(Some(" 4")).malformed);
    assert_eq!(env_lock_p2_cores(Some("99999999999999999999999")).value, 8);
}

#[test]
fn p2_cores_zero_is_malformed() {
    let r = env_lock_p2_cores(Some("0"));
    assert_eq!(r.value, 8);
    assert!(r.malformed);
    let r = env_lock_p2_cores(Some("1"));
    assert_eq!(r.value, 1);
    assert!(!r.malformed);
}

#[test]
fn policies_from_str() {
    assert_eq!("Strict".parse::<P2BoundPolicy>(), Ok(P2BoundPolicy::Strict));
    assert_eq!("Bogus".parse::<P2BoundPolicy>(), Err(ParsePolicyError));
    assert_eq!("ProcessingUnit".parse::<P1BoundPolicy>(), Ok(P1BoundPolicy::ProcessingUnit));
    assert_eq!("core".parse::<P1BoundPolicy>(), Err(ParsePolicyError));
}

#[test]
fn same_set_flag() {
    assert!(p2_binding_use_same_set(None).value);
    assert!(!p2_binding_use_same_set(Some("0")).value);
    assert!(p2_binding_use_same_set(Some("1")).value);
    let r = p2_binding_use_same_set(Some("2"));
    assert!(r.value);
    assert!(r.malformed);
    assert!(!p2_binding_use_same_set(Some("0")).malformed);
    assert!(!p2_binding_use_same_set(Some("1")).malformed);
    let r = p2_binding_use_same_set(Some("yes"));
    assert!(r.value);
    assert!(r.malformed);
}

#[test]
fn locality_flag() {
    assert!(binding_use_locality(None).value);
    assert!(!binding_use_locality(Some("0")).value);
    assert!(binding_use_locality(Some("7")).malformed);
    let r = binding_use_locality(Some("false"));
    assert!(r.value);
    assert!(r.malformed);
}

#[test]
fn p1_policy_values() {
    assert_eq!(p1_binding_policy(None).value, P1BoundPolicy::Default);
    assert_eq!(p1_binding_policy(Some("Core")).value, P1BoundPolicy::Core);
    assert_eq!(
        p1_binding_policy(Some("ProcessingUnit")).value,
        P1BoundPolicy::ProcessingUnit
    );
    let r = p1_binding_policy(Some("Socket"));
    assert_eq!(r.value, P1BoundPolicy::Default);
    assert!(r.malformed);
}

#[test]
fn policy_names() {
    assert_eq!(P2BoundPolicy::from_name("Weak"), Some(P2BoundPolicy::Weak));
    assert_eq!(P2BoundPolicy::from_name("Weak "), None);
    assert_eq!(P1BoundPolicy::from_name("Default"), Some(P1BoundPolicy::Default));
    assert_eq!(P1BoundPolicy::from_name(""), None);
}

#[test]
fn decimal_parsing() {
    assert_eq!(parse_usize("0"), Some(0));
    assert_eq!(parse_usize("007"), Some(7));
    assert_eq!(parse_usize("+12"), Some(12));
    assert_eq!(parse_usize("+"), None);
    assert_eq!(parse_usize("1a"), None);
    assert_eq!(parse_usize(&usize::MAX.to_string()), Some(usize::MAX));
    let over = format!("{}0", usize::MAX);
    assert_eq!(parse_usize(&over), None);
}

#[test]
fn text_equality() {
    assert!(str_equals("Strict", "Strict"));
    assert!(!str_equals("Strict", "Stric"));
    assert!(str_equals("", ""));
    assert!(!str_equals("é", "e"));
}
