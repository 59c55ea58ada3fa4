use vstd::prelude::*;
use crate::text::{decimal_usize, parse_usize, str_equals};

verus! {

/// Size of a phase-2 core group when none is configured.
pub const P2_GROUP_SIZE: usize = 8;

/// How phase-2 worker threads are bound to cores.
#[derive(Clone, Copy, Debug, PartialEq, Eq, Structural)]
pub enum P2BoundPolicy {
    NoBinding,
    Strict,
    Weak,
}

/// How phase-1 worker threads are bound to cores.
#[derive(Clone, Copy, Debug, PartialEq, Eq, Structural)]
pub enum P1BoundPolicy {
    Default,
    ProcessingUnit,
    Core,
}

/// The text given does not name a policy.
#[derive(Clone, Copy, Debug, PartialEq, Eq, Structural)]
pub struct ParsePolicyError;

/// A configuration value, and whether the raw text it came from was
/// malformed, in which case the value is the setting's default.
#[derive(Clone, Copy, Debug)]
pub struct Resolved<T> {
    pub value: T,
    pub malformed: bool,
}

/// The characters of a raw setting, if it is set.
pub open spec fn raw_view(raw: Option<&str>) -> Option<Seq<char>> {
    match raw {
        Some(s) => Some(s@),
        None => None,
    }
}

/// The phase-2 policy whose name is exactly `s`.
pub open spec fn p2_policy_named(s: Seq<char>) -> Option<P2BoundPolicy> {
    if s == "NoBinding"@ {
        Some(P2BoundPolicy::NoBinding)
    } else if s == "Strict"@ {
        Some(P2BoundPolicy::Strict)
    } else if s == "Weak"@ {
        Some(P2BoundPolicy::Weak)
    } else {
        None
    }
}

/// The phase-1 policy whose name is exactly `s`.
pub open spec fn p1_policy_named(s: Seq<char>) -> Option<P1BoundPolicy> {
    if s == "Default"@ {
        Some(P1BoundPolicy::Default)
    } else if s == "ProcessingUnit"@ {
        Some(P1BoundPolicy::ProcessingUnit)
    } else if s == "Core"@ {
        Some(P1BoundPolicy::Core)
    } else {
        None
    }
}

/// The core-group size read from `raw`: a positive number, or the default
/// where `raw` is unset or is not a positive number.
pub open spec fn cores_setting(raw: Option<Seq<char>>) -> usize {
    match raw {
        Some(s) => match decimal_usize(s) {
            Some(n) => if n >= 1 {
                n
            } else {
                P2_GROUP_SIZE
            },
            None => P2_GROUP_SIZE,
        },
        None => P2_GROUP_SIZE,
    }
}

/// Whether `raw` is set but is not a positive number.
pub open spec fn cores_malformed(raw: Option<Seq<char>>) -> bool {
    raw is Some && !(decimal_usize(raw->0) is Some && decimal_usize(raw->0)->0 >= 1)
}

/// A flag read from `raw`, where `0` means unset and `1` set; set where
/// `raw` is unset or is neither.
pub open spec fn flag_setting(raw: Option<Seq<char>>) -> bool {
    match raw {
        Some(s) => decimal_usize(s) != Some(0usize),
        None => true,
    }
}

/// Whether `raw` is set but is neither `0` nor `1`.
pub open spec fn flag_malformed(raw: Option<Seq<char>>) -> bool {
    raw is Some && !(decimal_usize(raw->0) == Some(0usize) || decimal_usize(raw->0) == Some(
        1usize,
    ))
}

/// The phase-2 policy named by `raw`, or `NoBinding` where it is unset or
/// names none.
pub open spec fn p2_policy_setting(raw: Option<Seq<char>>) -> P2BoundPolicy {
    match raw {
        Some(s) => match p2_policy_named(s) {
            Some(p) => p,
            None => P2BoundPolicy::NoBinding,
        },
        None => P2BoundPolicy::NoBinding,
    }
}

/// The phase-1 policy named by `raw`, or `Default` where it is unset or
/// names none.
pub open spec fn p1_policy_setting(raw: Option<Seq<char>>) -> P1BoundPolicy {
    match raw {
        Some(s) => match p1_policy_named(s) {
            Some(p) => p,
            None => P1BoundPolicy::Default,
        },
        None => P1BoundPolicy::Default,
    }
}

impl P2BoundPolicy {
    /// The policy whose name is exactly `s`.
    pub fn from_name(s: &str) -> (r: Option<P2BoundPolicy>)
        ensures
            r == p2_policy_named(s@),
    {
        if str_equals(s, "NoBinding") {
            Some(P2BoundPolicy::NoBinding)
        } else if str_equals(s, "Strict") {
            Some(P2BoundPolicy::Strict)
        } else if str_equals(s, "Weak") {
            Some(P2BoundPolicy::Weak)
        } else {
            None
        }
    }
}

impl P1BoundPolicy {
    /// The policy whose name is exactly `s`.
    pub fn from_name(s: &str) -> (r: Option<P1BoundPolicy>)
        ensures
            r == p1_policy_named(s@),
    {
        if str_equals(s, "Default") {
            Some(P1BoundPolicy::Default)
        } else if str_equals(s, "ProcessingUnit") {
            Some(P1BoundPolicy::ProcessingUnit)
        } else if str_equals(s, "Core") {
            Some(P1BoundPolicy::Core)
        } else {
            None
        }
    }
}

/// A flag read from `raw`.
fn resolve_flag(raw: Option<&str>) -> (r: Resolved<bool>)
    ensures
        r.value == flag_setting(raw_view(raw)),
        r.malformed == flag_malformed(raw_view(raw)),
{
    match raw {
        Some(s) => match parse_usize(s) {
            Some(n) => if n == 0 {
                Resolved { value: false, malformed: false }
            } else if n == 1 {
                Resolved { value: true, malformed: false }
            } else {
                Resolved { value: true, malformed: true }
            },
            None => Resolved { value: true, malformed: true },
        },
        None => Resolved { value: true, malformed: false },
    }
}

/// The number of cores in a phase-2 group, from the raw setting `raw`.
pub fn env_lock_p2_cores(raw: Option<&str>) -> (r: Resolved<usize>)
    ensures
        r.value >= 1,
        r.value == cores_setting(raw_view(raw)),
        r.malformed == cores_malformed(raw_view(raw)),
{
    match raw {
        Some(s) => match parse_usize(s) {
            Some(n) => if n >= 1 {
                Resolved { value: n, malformed: false }
            } else {
                Resolved { value: P2_GROUP_SIZE, malformed: true }
            },
            None => Resolved { value: P2_GROUP_SIZE, malformed: true },
        },
        None => Resolved { value: P2_GROUP_SIZE, malformed: false },
    }
}

/// The phase-2 binding policy, from the raw setting `raw`.
pub fn p2_binding_policy(raw: Option<&str>) -> (r: Resolved<P2BoundPolicy>)
    ensures
        r.value == p2_policy_setting(raw_view(raw)),
        r.malformed == (raw is Some && p2_policy_named(raw_view(raw)->0) is None),
{
    match raw {
        Some(s) => match P2BoundPolicy::from_name(s) {
            Some(p) => Resolved { value: p, malformed: false },
            None => Resolved { value: P2BoundPolicy::NoBinding, malformed: true },
        },
        None => Resolved { value: P2BoundPolicy::NoBinding, malformed: false },
    }
}

/// Whether phase 2 reuses the same set of cores, from the raw setting `raw`.
pub fn p2_binding_use_same_set(raw: Option<&str>) -> (r: Resolved<bool>)
    ensures
        r.value == flag_setting(raw_view(raw)),
        r.malformed == flag_malformed(raw_view(raw)),
{
    resolve_flag(raw)
}

/// Whether binding prefers cores that are close together, from the raw
/// setting `raw`.
pub fn binding_use_locality(raw: Option<&str>) -> (r: Resolved<bool>)
    ensures
        r.value == flag_setting(raw_view(raw)),
        r.malformed == flag_malformed(raw_view(raw)),
{
    resolve_flag(raw)
}

/// The phase-1 binding policy, from the raw setting `raw`.
pub fn p1_binding_policy(raw: Option<&str>) -> (r: Resolved<P1BoundPolicy>)
    ensures
        r.value == p1_policy_setting(raw_view(raw)),
        r.malformed == (raw is Some && p1_policy_named(raw_view(raw)->0) is None),
{
    match raw {
        Some(s) => match P1BoundPolicy::from_name(s) {
            Some(p) => Resolved { value: p, malformed: false },
            None => Resolved { value: P1BoundPolicy::Default, malformed: true },
        },
        None => Resolved { value: P1BoundPolicy::Default, malformed: false },
    }
}

impl core::str::FromStr for P2BoundPolicy {
    type Err = ParsePolicyError;

    fn from_str(s: &str) -> Result<P2BoundPolicy, ParsePolicyError> {
        match P2BoundPolicy::from_name(s) {
            Some(p) => Ok(p),
            None => Err(ParsePolicyError),
        }
    }
}

impl core::str::FromStr for P1BoundPolicy {
    type Err = ParsePolicyError;

    fn from_str(s: &str) -> Result<P1BoundPolicy, ParsePolicyError> {
        match P1BoundPolicy::from_name(s) {
            Some(p) => Ok(p),
            None => Err(ParsePolicyError),
        }
    }
}

} // verus!
