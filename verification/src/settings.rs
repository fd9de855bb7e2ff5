//! Plain-value model of the persisted settings the daemon reads and writes:
//! the configured account token and the optional custom relay override.
//! Persisting a changed value is an effect the driver performs; the values
//! themselves live here so the rules about them can be proved.

use vstd::prelude::*;
use crate::net::{spec_relay_endpoint_eq, RelayEndpoint};

verus! {

/// The settings the daemon core reads: an optional account token and an
/// optional custom relay override.
#[derive(Debug)]
pub struct Settings {
    pub account_token: Option<String>,
    pub custom_relay: Option<RelayEndpoint>,
}

/// Two optional account tokens hold the same text.
pub open spec fn spec_opt_token_eq(a: Option<String>, b: Option<String>) -> bool {
    match (a, b) {
        (Option::None, Option::None) => true,
        (Option::Some(x), Option::Some(y)) => x@ == y@,
        _ => false,
    }
}

/// Two optional relay overrides hold the same configuration.
pub open spec fn spec_opt_relay_eq(a: Option<RelayEndpoint>, b: Option<RelayEndpoint>) -> bool {
    match (a, b) {
        (Option::None, Option::None) => true,
        (Option::Some(x), Option::Some(y)) => spec_relay_endpoint_eq(x, y),
        _ => false,
    }
}

/// Whether two optional account tokens hold the same text.
pub fn opt_token_eq(a: &Option<String>, b: &Option<String>) -> (r: bool)
    ensures
        r == spec_opt_token_eq(*a, *b),
{
    match (a, b) {
        (Option::None, Option::None) => true,
        (Option::Some(x), Option::Some(y)) => *x == *y,
        _ => false,
    }
}

/// Copy of an optional account token.
pub fn clone_opt_token(a: &Option<String>) -> (r: Option<String>)
    ensures
        r == *a,
{
    match a {
        Option::Some(s) => Option::Some(s.clone()),
        Option::None => Option::None,
    }
}

impl Settings {
    /// Empty settings: no account token, no custom relay.
    pub fn new() -> (r: Settings)
        ensures
            r.account_token is None,
            r.custom_relay is None,
    {
        Settings { account_token: None, custom_relay: None }
    }

    /// The currently configured account token, if any.
    pub fn get_account_token(&self) -> (r: Option<String>)
        ensures
            r == self.account_token,
    {
        clone_opt_token(&self.account_token)
    }

    /// The currently configured custom relay override, if any.
    pub fn get_custom_relay(&self) -> (r: Option<RelayEndpoint>)
        ensures
            r == self.custom_relay,
    {
        match &self.custom_relay {
            Option::Some(re) => Option::Some(re.duplicate()),
            Option::None => Option::None,
        }
    }
}

} // verus!
