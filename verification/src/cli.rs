//! The command line's rules: exactly one of a registered name and a manifest
//! path selects the environment; the one given decides what has to be done
//! before the activation, and each failure has its diagnostic and exit code.

use vstd::prelude::*;
use vstd::string::*;
use crate::registry::{find_path_by_name, stored_path, RegisteredEnvironment};

verus! {

/// The exit code of a run that dispatched its activation.
pub const EXIT_SUCCESS: i32 = 0;

/// The exit code of a run that ended in a reported error.
pub const EXIT_FAILURE: i32 = 1;

/// What the command line gave. `P` is the type in which the caller holds
/// filesystem paths; the rules never look inside one.
#[derive(Debug, Clone, PartialEq, Eq)]
pub struct Invocation<P> {
    /// The registered name of the environment to activate.
    pub name: Option<String>,
    /// The path to a manifest or to the project directory.
    pub manifest_path: Option<P>,
    /// The environment to activate within the workspace.
    pub environment: Option<String>,
}

/// A failure that is reported on the error stream and ends the run.
#[derive(Debug, Clone, PartialEq, Eq)]
pub enum CliError {
    /// Neither or both of name and manifest path were given.
    Usage,
    /// No entry of the registry has the name given; it holds that name.
    NotFound(String),
    /// The manifest path could not be canonicalized; it holds the text of
    /// the operating system's error.
    Path(String),
}

/// What has to happen first, once the command line is known.
#[derive(Debug, Clone, PartialEq, Eq)]
pub enum Step<P> {
    /// Nothing: report the error. Neither the registry nor any path is
    /// touched.
    Reject(CliError),
    /// Read the registry and look `name` up in it.
    LookUp { name: String, environment: Option<String> },
    /// Canonicalize `path`.
    Canonicalize { path: P, environment: Option<String> },
}

/// A request to activate: the manifest path and the environment within the
/// workspace, if one was chosen.
#[derive(Debug, Clone, PartialEq, Eq)]
pub struct Activation<P> {
    pub manifest_path: P,
    pub environment: Option<String>,
}

/// Whether exactly one of name and manifest path was given.
pub open spec fn selects_one<P>(invocation: Invocation<P>) -> bool {
    invocation.name is Some != invocation.manifest_path is Some
}

/// The first step for a command line.
pub open spec fn first_step_of<P>(invocation: Invocation<P>) -> Step<P> {
    match (invocation.name, invocation.manifest_path) {
        (Some(name), None) => Step::LookUp { name, environment: invocation.environment },
        (None, Some(path)) => Step::Canonicalize { path, environment: invocation.environment },
        _ => Step::Reject(CliError::Usage),
    }
}

/// The diagnostic of an error, as a sequence of characters.
pub open spec fn diagnostic_of(error: CliError) -> Seq<char> {
    match error {
        CliError::Usage => "must provide exactly one of name or manifest-path"@,
        CliError::NotFound(name) => "Error: Environment name '"@ + name@
            + "' not found in registry"@,
        CliError::Path(reason) => "Error canonicalizing path: "@ + reason@,
    }
}

/// The exit code of a run, given the error it ended in, if any.
pub open spec fn exit_code_of(failure: Option<CliError>) -> i32 {
    if failure is Some {
        EXIT_FAILURE
    } else {
        EXIT_SUCCESS
    }
}

/// The rule on the two selectors. With exactly one of name and manifest path
/// the step is the lookup of the name, or the canonicalization of the path;
/// with neither or both it is the usage error.
pub fn first_step<P>(invocation: Invocation<P>) -> (step: Step<P>)
    ensures
        step == first_step_of(invocation),
        !selects_one(invocation) <==> step == Step::<P>::Reject(CliError::Usage),
{
    let Invocation { name, manifest_path, environment } = invocation;
    match (name, manifest_path) {
        (Some(name), None) => Step::LookUp { name, environment },
        (None, Some(path)) => Step::Canonicalize { path, environment },
        _ => Step::Reject(CliError::Usage),
    }
}

/// Resolves a registered name against the registry's entries. A name that
/// appears gives the activation of the path stored in its first entry, as
/// it is stored; one that does not appear gives `NotFound` with the name.
pub fn resolve_by_name(
    name: String,
    environment: Option<String>,
    records: &Vec<RegisteredEnvironment>,
) -> (resolved: Result<Activation<String>, CliError>)
    ensures
        match stored_path(records@, name@) {
            Some(path) => resolved is Ok && resolved->Ok_0.manifest_path@ == path
                && resolved->Ok_0.environment == environment,
            None => resolved == Err::<Activation<String>, CliError>(CliError::NotFound(name)),
        },
{
    match find_path_by_name(records, name.as_str()) {
        Some(manifest_path) => Ok(Activation { manifest_path, environment }),
        None => Err(CliError::NotFound(name)),
    }
}

/// Resolves a manifest path, given what its canonicalization gave: the
/// activation of the canonical path, or `Path` with the error's text.
pub fn resolve_by_path<P>(canonical: Result<P, String>, environment: Option<String>) -> (resolved:
    Result<Activation<P>, CliError>)
    ensures
        resolved == match canonical {
            Ok(manifest_path) => Ok::<Activation<P>, CliError>(
                Activation { manifest_path, environment },
            ),
            Err(reason) => Err(CliError::Path(reason)),
        },
{
    match canonical {
        Ok(manifest_path) => Ok(Activation { manifest_path, environment }),
        Err(reason) => Err(CliError::Path(reason)),
    }
}

impl CliError {
    /// The line that reports this error.
    pub fn diagnostic(&self) -> (line: String)
        ensures
            line@ == diagnostic_of(*self),
    {
        match self {
            CliError::Usage => String::from_str(
                "must provide exactly one of name or manifest-path",
            ),
            CliError::NotFound(name) => {
                let mut line = String::from_str("Error: Environment name '");
                line.append(name.as_str());
                line.append("' not found in registry");
                line
            },
            CliError::Path(reason) => {
                let mut line = String::from_str("Error canonicalizing path: ");
                line.append(reason.as_str());
                line
            },
        }
    }
}

/// The exit code of a run: failure where it ended in an error, success
/// where the activation was dispatched.
pub fn exit_code(failure: Option<&CliError>) -> (code: i32)
    ensures
        code == (if failure is Some { EXIT_FAILURE } else { EXIT_SUCCESS }),
{
    match failure {
        Some(_) => EXIT_FAILURE,
        None => EXIT_SUCCESS,
    }
}

/// A command line with neither or both of name and manifest path is
/// rejected at once, with the usage error and the failure exit code: no step
/// reads the registry or canonicalizes a path.
pub proof fn zero_or_two_selectors_are_rejected<P>(invocation: Invocation<P>)
    requires
        !selects_one(invocation),
    ensures
        first_step_of(invocation) == Step::<P>::Reject(CliError::Usage),
        exit_code_of(Some(CliError::Usage)) == 1,
{
}

/// A command line with exactly one of name and manifest path is never
/// rejected: it leads to the lookup of that name, or to the
/// canonicalization of that path.
pub proof fn one_selector_passes<P>(invocation: Invocation<P>)
    requires
        selects_one(invocation),
    ensures
        invocation.name matches Some(name) ==> first_step_of(invocation) == (Step::<
            P,
        >::LookUp { name, environment: invocation.environment }),
        invocation.manifest_path matches Some(path) ==> first_step_of(invocation) == (Step::<
            P,
        >::Canonicalize { path, environment: invocation.environment }),
{
}

} // verus!
