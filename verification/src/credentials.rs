//! Handing explicit credentials to the storage client through the process
//! environment.
//!
//! The storage client discovers its credentials on its own. A credential
//! that the settings supply is therefore published under a fixed variable
//! name before the client is built; one that is empty is left alone, so
//! that whatever the environment already holds stays in force.

use vstd::prelude::*;
use vstd::string::*;
use crate::config::{Configs, ConfigsView};

verus! {

/// One assignment to make in the process environment.
#[derive(Clone, Debug, PartialEq, Eq)]
pub struct EnvVar {
    pub name: String,
    pub value: String,
}

impl View for EnvVar {
    type V = (Seq<char>, Seq<char>);

    open spec fn view(&self) -> (Seq<char>, Seq<char>) {
        (self.name@, self.value@)
    }
}

/// The views of a list of assignments, in order.
pub open spec fn exports_view(vars: Seq<EnvVar>) -> Seq<(Seq<char>, Seq<char>)> {
    Seq::new(vars.len(), |i: int| vars[i]@)
}

/// The variable that carries the access key id.
pub open spec fn access_key_id_var() -> Seq<char> {
    "AWS_ACCESS_KEY_ID"@
}

/// The variable that carries the secret access key.
pub open spec fn secret_access_key_var() -> Seq<char> {
    "AWS_SECRET_ACCESS_KEY"@
}

/// The assignment that publishes `value` under `name`: none for an empty
/// value.
pub open spec fn published(name: Seq<char>, value: Seq<char>) -> Option<(Seq<char>, Seq<char>)> {
    if value.len() == 0 {
        None
    } else {
        Some((name, value))
    }
}

/// The assignments that publish the credentials of `config`: the access
/// key id first, then the secret access key, each only if it is not empty.
pub open spec fn exports_of(config: ConfigsView) -> Seq<(Seq<char>, Seq<char>)> {
    let id = match published(access_key_id_var(), config.access_key_id) {
        Some(var) => seq![var],
        None => Seq::empty(),
    };
    let secret = match published(secret_access_key_var(), config.secret_access_key) {
        Some(var) => seq![var],
        None => Seq::empty(),
    };
    id + secret
}

/// The view of an optional assignment.
pub open spec fn opt_var_view(var: Option<EnvVar>) -> Option<(Seq<char>, Seq<char>)> {
    match var {
        Some(v) => Some(v@),
        None => None,
    }
}

/// Decides whether `value` is to be set in the environment under `name`.
/// A non-empty value is; an empty one is not, which leaves the storage
/// client to its own discovery of credentials.
pub fn publish(name: &str, value: &str) -> (var: Option<EnvVar>)
    ensures
        opt_var_view(var) == published(name@, value@),
{
    if value.is_empty() {
        None
    } else {
        Some(EnvVar { name: name.to_owned(), value: value.to_owned() })
    }
}

/// Lists the environment assignments for the two credential settings.
pub fn credential_exports(config: &Configs) -> (vars: Vec<EnvVar>)
    ensures
        exports_view(vars@) == exports_of(config@),
{
    let mut vars: Vec<EnvVar> = Vec::new();
    if let Some(var) = publish("AWS_ACCESS_KEY_ID", config.access_key_id.as_str()) {
        vars.push(var);
    }
    if let Some(var) = publish("AWS_SECRET_ACCESS_KEY", config.secret_access_key.as_str()) {
        vars.push(var);
    }
    assert(exports_view(vars@) =~= exports_of(config@));
    vars
}

} // verus!
