//! The decisions of the `publish` command: where the schema is read from, and what is
//! reported for the outcome of publishing it.

use vstd::prelude::*;

verus! {

/// The exit status when the graph to publish to does not exist.
pub const FAILED_PUBLISH_STATUS: i32 = 1;

/// Where the schema to publish is read from.
#[derive(Debug, Clone, PartialEq, Eq)]
pub enum SchemaSource {
    /// The file at this path.
    File(String),
    /// Standard input, which is piped.
    Stdin,
}

/// A command-line argument that is missing.
#[derive(Debug, Clone, Copy, PartialEq, Eq)]
pub struct MissingArgument(pub &'static str);

/// The answer of the backend to a publish request; `E` describes a composition error.
#[derive(Debug, Clone, PartialEq, Eq)]
pub enum PublishOutcome<E> {
    Success { composition_errors: Vec<E> },
    NoChange,
    GraphDoesNotExist { account_slug: String, graph_slug: String },
}

/// What is reported to the user for an outcome.
#[derive(Debug, Clone, Copy, PartialEq, Eq, Structural)]
pub enum PublishReport {
    /// Published, and it composed.
    Published,
    /// Published, but composition failed with errors.
    CompositionFailure,
    NoChange,
    /// Nothing published: the graph does not exist; the command exits with a failure.
    GraphDoesNotExist,
}

/// Chooses where to read the schema from: the given path, else standard input when it is
/// piped; a terminal on standard input means the schema is missing.
pub fn schema_source(schema_path: Option<String>, stdin_is_terminal: bool) -> (r: Result<
    SchemaSource,
    MissingArgument,
>)
    ensures
        match schema_path {
            Some(path) => r == Ok::<SchemaSource, MissingArgument>(SchemaSource::File(path)),
            None => if stdin_is_terminal {
                r matches Err(e) && e.0@ == "--schema or a schema piped through stdin"@
            } else {
                r == Ok::<SchemaSource, MissingArgument>(SchemaSource::Stdin)
            },
        },
{
    match schema_path {
        Some(path) => Ok(SchemaSource::File(path)),
        None => {
            if stdin_is_terminal {
                Err(MissingArgument("--schema or a schema piped through stdin"))
            } else {
                Ok(SchemaSource::Stdin)
            }
        },
    }
}

/// The report for a publish outcome.
pub open spec fn report_of<E>(outcome: PublishOutcome<E>) -> PublishReport {
    match outcome {
        PublishOutcome::Success { composition_errors } => if composition_errors@.len() == 0 {
            PublishReport::Published
        } else {
            PublishReport::CompositionFailure
        },
        PublishOutcome::NoChange => PublishReport::NoChange,
        PublishOutcome::GraphDoesNotExist { .. } => PublishReport::GraphDoesNotExist,
    }
}

/// A successful publish is reported as published exactly when it has no composition
/// errors, and as a composition failure exactly when it has some, however many; the other
/// outcomes are reported as themselves.
pub proof fn lemma_report_laws<E>(outcome: PublishOutcome<E>)
    ensures
        report_of(outcome) == PublishReport::Published <==> (outcome matches PublishOutcome::Success {
            composition_errors,
        } && composition_errors@.len() == 0),
        report_of(outcome) == PublishReport::CompositionFailure <==> (
        outcome matches PublishOutcome::Success { composition_errors } && composition_errors@.len()
            > 0),
        report_of(outcome) == PublishReport::NoChange <==> outcome is NoChange,
        report_of(outcome) == PublishReport::GraphDoesNotExist <==> outcome is GraphDoesNotExist,
{
}

/// The report for a publish outcome.
pub fn publish_report<E>(outcome: &PublishOutcome<E>) -> (r: PublishReport)
    ensures
        r == report_of(*outcome),
{
    match outcome {
        PublishOutcome::Success { composition_errors } => {
            if composition_errors.len() == 0 {
                PublishReport::Published
            } else {
                PublishReport::CompositionFailure
            }
        },
        PublishOutcome::NoChange => PublishReport::NoChange,
        PublishOutcome::GraphDoesNotExist { .. } => PublishReport::GraphDoesNotExist,
    }
}

impl PublishReport {
    /// The status the command exits with right after the report, if it exits there.
    pub fn exit_status(&self) -> (r: Option<i32>)
        ensures
            r == (if *self == PublishReport::GraphDoesNotExist {
                Some(FAILED_PUBLISH_STATUS)
            } else {
                None
            }),
    {
        match self {
            PublishReport::GraphDoesNotExist => Some(FAILED_PUBLISH_STATUS),
            _ => None,
        }
    }
}

} // verus!
