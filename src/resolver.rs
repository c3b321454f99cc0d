use vstd::prelude::*;

verus! {

/// Name of the external interpreter used when neither an override nor the
/// environment names one.
pub const DEFAULT_INTERPRETER: &'static str = "berylvm";

/// Environment variable that may name the external interpreter.
pub const INTERPRETER_ENV_VAR: &'static str = "BERYLVM_PATH";

/// The location chosen from an explicit override, the environment variable's
/// value and the default, in that order of priority. An empty override counts
/// as absent.
pub open spec fn resolved_location(
    explicit_override: Option<Seq<char>>,
    env_value: Option<Seq<char>>,
    default: Seq<char>,
) -> Seq<char> {
    match explicit_override {
        Some(o) if o.len() > 0 => o,
        _ => match env_value {
            Some(e) => e,
            None => default,
        },
    }
}

/// View of an optional string as an optional character sequence.
pub open spec fn opt_view(s: Option<String>) -> Option<Seq<char>> {
    match s {
        Some(v) => Some(v@),
        None => None,
    }
}

/// Chooses the interpreter location: a non-empty explicit override, else the
/// value of the environment variable (read by the caller), else the default.
pub fn resolve(explicit_override: Option<String>, env_value: Option<String>) -> (r: String)
    ensures
        r@ == resolved_location(opt_view(explicit_override), opt_view(env_value), DEFAULT_INTERPRETER@),
{
    match explicit_override {
        Some(o) if !o.as_str().is_empty() => o,
        _ => match env_value {
            Some(e) => e,
            None => String::from_str(DEFAULT_INTERPRETER),
        },
    }
}

/// A non-empty explicit override is used as it is, whatever the environment
/// holds.
pub proof fn lemma_override_wins(explicit_override: Seq<char>, env_value: Option<Seq<char>>)
    requires
        explicit_override.len() > 0,
    ensures
        resolved_location(Some(explicit_override), env_value, DEFAULT_INTERPRETER@) == explicit_override,
{
}

/// Without an explicit override (absent or empty), the environment variable's
/// value is used as it is.
pub proof fn lemma_environment_used(explicit_override: Option<Seq<char>>, env_value: Seq<char>)
    requires
        explicit_override is None || explicit_override->0.len() == 0,
    ensures
        resolved_location(explicit_override, Some(env_value), DEFAULT_INTERPRETER@) == env_value,
{
}

/// With neither an override nor the environment variable, every resolution
/// gives the same fixed default.
pub proof fn lemma_default_used(first: Option<Seq<char>>, second: Option<Seq<char>>)
    requires
        first is None || first->0.len() == 0,
        second is None || second->0.len() == 0,
    ensures
        resolved_location(first, None, DEFAULT_INTERPRETER@) == DEFAULT_INTERPRETER@,
        resolved_location(first, None, DEFAULT_INTERPRETER@) == resolved_location(second, None, DEFAULT_INTERPRETER@),
{
}

} // verus!
