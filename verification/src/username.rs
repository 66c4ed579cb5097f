use vstd::prelude::*;

use crate::errors::MachError;
use crate::inventory::Resource;

verus! {

/// Whether a username directive asks for an environment variable.
pub open spec fn has_env_prefix(s: Seq<char>) -> bool {
    s.len() >= 4 && s.subrange(0, 4) == "env:"@
}

/// The variable name after the `env:` prefix.
pub open spec fn env_var_of(s: Seq<char>) -> Seq<char> {
    s.subrange(4, s.len() as int)
}

/// Splits a directive of the form `env:<NAME>` into `<NAME>`.
fn split_env_prefix(u: &str) -> (r: Option<String>)
    ensures
        match r {
            Some(v) => has_env_prefix(u@) && v@ == env_var_of(u@),
            None => !has_env_prefix(u@),
        },
{
    proof {
        reveal_strlit("env:");
    }
    let n = u.unicode_len();
    if n < 4 {
        return None;
    }
    let p = u.substring_char(0, 4);
    let pref = String::from_str(p);
    let envlit = String::from_str("env:");
    if pref.eq(&envlit) {
        Some(String::from_str(u.substring_char(4, n)))
    } else {
        None
    }
}

impl Resource {
    /// The environment variable the username directive asks to be read, if
    /// any.  The caller reads the process environment and hands the
    /// outcome to `get_username`.
    pub fn username_env_var(&self) -> (r: Option<String>)
        ensures
            match r {
                Some(v) => self.username matches Some(u) && has_env_prefix(u@) && v@ == env_var_of(
                    u@,
                ),
                None => !(self.username matches Some(u) && has_env_prefix(u@)),
            },
    {
        match &self.username {
            None => None,
            Some(u) => split_env_prefix(u.as_str()),
        }
    }

    /// Resolves the username directive.  `env_value` must be the value of
    /// the process environment variable named by `username_env_var` (and
    /// `None` when that variable is unset, or none is asked for).  No
    /// directive resolves to no username; `env:<NAME>` resolves to the
    /// variable's value or fails with `EnvVarMissing`; anything else is
    /// the username verbatim.
    pub fn get_username(&self, env_value: Option<&str>) -> (r: Result<Option<String>, MachError>)
        ensures
            match self.username {
                None => r matches Ok(None),
                Some(u) => if has_env_prefix(u@) {
                    match env_value {
                        Some(v) => r matches Ok(Some(s)) && s@ == v@,
                        None => r matches Err(MachError::EnvVarMissing(n)) && n@ == env_var_of(u@),
                    }
                } else {
                    r matches Ok(Some(s)) && s@ == u@
                },
            },
    {
        match &self.username {
            None => Ok(None),
            Some(u) => match split_env_prefix(u.as_str()) {
                Some(var) => match env_value {
                    Some(v) => Ok(Some(String::from_str(v))),
                    None => Err(MachError::EnvVarMissing(var)),
                },
                None => Ok(Some(u.clone())),
            },
        }
    }
}

} // verus!
