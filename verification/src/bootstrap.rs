//! Bootstrap data: the process-environment-provided identity an agent starts
//! from — which record it owns, in which namespace, whether it creates or
//! destroys, and an optional overall deadline.
//!
//! The process edge reads the raw environment values; the validation and
//! parsing here is verified. A missing or malformed value is always fatal:
//! there is no record to report a failure against yet.

use vstd::prelude::*;

verus! {

/// The one action an agent process is responsible for.
#[derive(Clone, Copy, Debug, PartialEq, Eq, Structural)]
pub enum Action {
    Create,
    Destroy,
}

/// Missing or invalid process-environment identity.
#[derive(Debug)]
pub enum BootstrapError {
    MissingResourceName,
    MissingNamespace,
    MissingAction,
    InvalidAction { value: String },
    InvalidTimeout { value: String },
}

/// Immutable identity loaded once at process start.
pub struct BootstrapData {
    pub resource_name: String,
    pub namespace: String,
    pub action: Action,
    /// Optional overall deadline bounding the time spent in `Running`.
    pub timeout_seconds: Option<u64>,
}

/// How an action value reads: exactly `create` or `destroy`.
pub open spec fn spec_parse_action(s: Seq<char>) -> Option<Action> {
    if s == "create"@ {
        Some(Action::Create)
    } else if s == "destroy"@ {
        Some(Action::Destroy)
    } else {
        None
    }
}

/// Parse an action value.
pub fn parse_action(s: &str) -> (r: Option<Action>)
    ensures
        r == spec_parse_action(s@),
{
    let owned = s.to_owned();
    if owned == String::from_str("create") {
        Some(Action::Create)
    } else if owned == String::from_str("destroy") {
        Some(Action::Destroy)
    } else {
        None
    }
}

pub open spec fn is_digit_char(c: char) -> bool {
    '0' <= c && c <= '9'
}

pub open spec fn digit_val(c: char) -> nat {
    (c as int - '0' as int) as nat
}

pub open spec fn all_digits(s: Seq<char>) -> bool {
    forall|i: int| 0 <= i < s.len() ==> is_digit_char(s[i])
}

/// The value of a digit string read in base ten.
pub open spec fn dec_val(s: Seq<char>) -> nat
    decreases s.len(),
{
    if s.len() == 0 {
        0
    } else {
        dec_val(s.drop_last()) * 10 + digit_val(s.last())
    }
}

/// How an unsigned decimal value reads: one or more digits, nothing else,
/// and a value that fits.
pub open spec fn spec_parse_u64(s: Seq<char>) -> Option<u64> {
    if s.len() == 0 || !all_digits(s) {
        None
    } else if dec_val(s) > u64::MAX {
        None
    } else {
        Some(dec_val(s) as u64)
    }
}

/// Parse an unsigned decimal value.
pub fn parse_u64(s: &str) -> (r: Option<u64>)
    ensures
        r == spec_parse_u64(s@),
{
    let n = s.unicode_len();
    if n == 0 {
        return None;
    }
    let mut acc: u64 = 0;
    let mut over: bool = false;
    for i in 0..n
        invariant
            n == s@.len(),
            forall|j: int| 0 <= j < i ==> is_digit_char(s@[j]),
            !over ==> acc as nat == dec_val(s@.take(i as int)),
            over ==> dec_val(s@.take(i as int)) > u64::MAX,
    {
        let c = s.get_char(i);
        if c < '0' || c > '9' {
            assert(!all_digits(s@));
            return None;
        }
        let d: u64 = (c as u32 - '0' as u32) as u64;
        proof {
            assert(s@.take(i + 1).drop_last() =~= s@.take(i as int));
            assert(s@.take(i + 1).last() == s@[i as int]);
        }
        if over {
        } else {
            let wide: u128 = acc as u128 * 10 + d as u128;
            if wide > u64::MAX as u128 {
                over = true;
            } else {
                acc = wide as u64;
            }
        }
    }
    proof {
        assert(s@.take(n as int) =~= s@);
    }
    if over {
        None
    } else {
        Some(acc)
    }
}

impl BootstrapData {
    /// Validate the raw environment values into bootstrap data. Required
    /// values are checked in a fixed order — resource name, namespace,
    /// action — then the action must read `create` or `destroy`, and the
    /// optional timeout must read as an unsigned decimal.
    pub fn from_values(
        resource_name: Option<String>,
        namespace: Option<String>,
        action: Option<String>,
        timeout: Option<String>,
    ) -> (r: Result<BootstrapData, BootstrapError>)
        ensures
            (r is Ok) <==> (resource_name is Some && namespace is Some && action is Some
                && spec_parse_action(action->0@) is Some && (timeout matches Some(t)
                ==> spec_parse_u64(t@) is Some)),
            r matches Ok(d) ==> {
                &&& d.resource_name@ == resource_name->0@
                &&& d.namespace@ == namespace->0@
                &&& Some(d.action) == spec_parse_action(action->0@)
                &&& d.timeout_seconds == (match timeout {
                    Some(t) => spec_parse_u64(t@),
                    None => None::<u64>,
                })
            },
            resource_name is None ==> r == Err::<BootstrapData, BootstrapError>(
                BootstrapError::MissingResourceName,
            ),
            resource_name is Some && namespace is None ==> r == Err::<BootstrapData, BootstrapError>(
                BootstrapError::MissingNamespace,
            ),
            resource_name is Some && namespace is Some && action is None ==> r
                == Err::<BootstrapData, BootstrapError>(BootstrapError::MissingAction),
            match action {
                Some(a) => resource_name is Some && namespace is Some && spec_parse_action(a@)
                    is None ==> (r matches Err(e) && e matches BootstrapError::InvalidAction {
                    value,
                } && value@ == a@),
                None => true,
            },
            match (action, timeout) {
                (Some(a), Some(t)) => resource_name is Some && namespace is Some
                    && spec_parse_action(a@) is Some && spec_parse_u64(t@) is None ==> (r matches
                Err(e) && e matches BootstrapError::InvalidTimeout { value } && value@ == t@),
                _ => true,
            },
    {
        let resource_name = match resource_name {
            Some(n) => n,
            None => {
                return Err(BootstrapError::MissingResourceName);
            },
        };
        let namespace = match namespace {
            Some(n) => n,
            None => {
                return Err(BootstrapError::MissingNamespace);
            },
        };
        let action_value = match action {
            Some(a) => a,
            None => {
                return Err(BootstrapError::MissingAction);
            },
        };
        let action = match parse_action(action_value.as_str()) {
            Some(a) => a,
            None => {
                return Err(BootstrapError::InvalidAction { value: action_value });
            },
        };
        let timeout_seconds = match timeout {
            Some(t) => match parse_u64(t.as_str()) {
                Some(v) => Some(v),
                None => {
                    return Err(BootstrapError::InvalidTimeout { value: t });
                },
            },
            None => None,
        };
        Ok(BootstrapData { resource_name, namespace, action, timeout_seconds })
    }
}

} // verus!
