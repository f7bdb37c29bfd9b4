//! The skip-and-fake decision: for one compile task, either the real
//! compiler command runs unmodified, or — for an in-tree package — it is
//! skipped and an empty fingerprint marker is to be created instead.
//!
//! The decision itself is a pure function from the package identity and the
//! argument sequence to an execution plan; running the real command and
//! touching the marker file are the caller's side of the bargain.

use vstd::prelude::*;
use vstd::string::*;
use crate::descriptor::{
    DescriptorView, InvocationError, parse_arguments, parsed_descriptor,
};
use crate::fingerprint::{fingerprint_path, fingerprint_path_spec};

verus! {

/// Where a compile task's package comes from. Immutable for the task's
/// lifetime; stamped by the orchestrator's dependency resolver.
#[derive(Clone, Copy, Debug, PartialEq, Eq, Structural)]
pub enum Origin {
    /// Resolved from a path inside the current project or workspace.
    LocalPath,
    /// Resolved from a registry or another remote source.
    External,
}

/// Name and origin of the package that owns a compile task.
#[derive(Clone, Debug)]
pub struct PackageIdentity {
    pub name: String,
    pub origin: Origin,
}

/// Mathematical model of a package identity.
pub ghost struct PackageIdentityView {
    pub name: Seq<char>,
    pub origin: Origin,
}

impl View for PackageIdentity {
    type V = PackageIdentityView;

    open spec fn view(&self) -> PackageIdentityView {
        PackageIdentityView { name: self.name@, origin: self.origin }
    }
}

/// What the caller must do with one compile task.
#[derive(Clone, Debug)]
pub enum ExecutionPlan {
    /// Run the real compiler command verbatim, forwarding its exit status
    /// and output unchanged.
    RunReal,
    /// Do not run the command. Create an empty file at `marker_path`
    /// (together with any missing parent directories; an already existing
    /// file is a no-op success) and print the one-line `notice`.
    SkipAndFake { marker_path: String, notice: String },
}

/// Mathematical model of an execution plan.
pub ghost enum PlanView {
    RunReal,
    SkipAndFake { marker_path: Seq<char>, notice: Seq<char> },
}

impl View for ExecutionPlan {
    type V = PlanView;

    open spec fn view(&self) -> PlanView {
        match self {
            ExecutionPlan::RunReal => PlanView::RunReal,
            ExecutionPlan::SkipAndFake { marker_path, notice } => PlanView::SkipAndFake {
                marker_path: marker_path@,
                notice: notice@,
            },
        }
    }
}

/// Classify a package's origin from whether its source is a local
/// filesystem path, as the orchestrator's dependency resolver stamped it:
/// the one-line predicate that the skip-or-run decision turns on.
pub fn classify_origin(from_local_path: bool) -> (r: Origin)
    ensures
        r == (if from_local_path {
            Origin::LocalPath
        } else {
            Origin::External
        }),
{
    if from_local_path {
        Origin::LocalPath
    } else {
        Origin::External
    }
}

/// The one-line notice naming a skipped package.
pub open spec fn skip_notice_spec(name: Seq<char>) -> Seq<char> {
    "Skipping "@ + name
}

/// The plan owed to a compile task: an external package's command runs for
/// real; an in-tree package's arguments are parsed, must name a crate and a
/// crate type, and yield the marker path to fake instead.
pub open spec fn plan_spec(identity: PackageIdentityView, args: Seq<Seq<char>>) -> Result<
    PlanView,
    InvocationError,
> {
    if identity.origin == Origin::External {
        Ok(PlanView::RunReal)
    } else {
        match parsed_descriptor(args) {
            Err(e) => Err(e),
            Ok(d) => if d.crate_name.len() == 0 {
                Err(InvocationError::MissingCrateName)
            } else if d.crate_type.len() == 0 {
                Err(InvocationError::MissingCrateType)
            } else {
                Ok(
                    PlanView::SkipAndFake {
                        marker_path: fingerprint_path_spec(d, identity.name),
                        notice: skip_notice_spec(identity.name),
                    },
                )
            },
        }
    }
}

/// Build the notice line for a skipped package.
pub fn skip_notice(name: &str) -> (r: String)
    ensures
        r@ == skip_notice_spec(name@),
{
    let mut line = String::from_str("Skipping ");
    line.append(name);
    line
}

/// Decide one compile task: the sole entry point of the skip-and-fake
/// executor, invoked once per task.
///
/// An `External` package always gets `RunReal` and its arguments are never
/// even inspected; a `LocalPath` package never gets `RunReal` — either its
/// arguments parse to a descriptor with a crate name and a crate type, and
/// the plan carries the synthesized marker path and the notice line, or the
/// task is rejected as malformed. Pure: no side effect, and the result is a
/// function of the two arguments alone, so re-deciding the same task yields
/// the same plan.
pub fn plan_task(identity: &PackageIdentity, args: &Vec<String>) -> (r: Result<
    ExecutionPlan,
    InvocationError,
>)
    ensures
        match r {
            Ok(p) => plan_spec(identity@, args.deep_view()) == Ok::<PlanView, InvocationError>(
                p@,
            ),
            Err(e) => plan_spec(identity@, args.deep_view()) == Err::<PlanView, InvocationError>(
                e,
            ),
        },
        identity.origin == Origin::External ==> (r matches Ok(p) && p is RunReal),
        identity.origin == Origin::LocalPath ==> !(r matches Ok(p) && p is RunReal),
{
    match identity.origin {
        Origin::External => Ok(ExecutionPlan::RunReal),
        Origin::LocalPath => {
            match parse_arguments(args) {
                Err(e) => Err(e),
                Ok(descriptor) => {
                    if descriptor.crate_name.as_str().unicode_len() == 0 {
                        Err(InvocationError::MissingCrateName)
                    } else if descriptor.crate_type.as_str().unicode_len() == 0 {
                        Err(InvocationError::MissingCrateType)
                    } else {
                        let marker_path = fingerprint_path(&descriptor, identity.name.as_str());
                        let notice = skip_notice(identity.name.as_str());
                        Ok(ExecutionPlan::SkipAndFake { marker_path, notice })
                    }
                },
            }
        },
    }
}

/// Law: a task of an external package is always executed for real — the
/// plan never suppresses the command and never asks for a marker file,
/// whatever the argument sequence holds.
pub proof fn lemma_external_always_runs_real(identity: PackageIdentityView, args: Seq<Seq<char>>)
    requires
        identity.origin == Origin::External,
    ensures
        plan_spec(identity, args) == Ok::<PlanView, InvocationError>(PlanView::RunReal),
{
}

/// Law: a task of a local-path package never runs the real command — its
/// plan is either a skip with a marker file, or a fatal error.
pub proof fn lemma_local_never_runs_real(identity: PackageIdentityView, args: Seq<Seq<char>>)
    requires
        identity.origin == Origin::LocalPath,
    ensures
        !(plan_spec(identity, args) matches Ok(p) && p is RunReal),
        plan_spec(identity, args) matches Ok(p) ==> (p matches PlanView::SkipAndFake {
            marker_path,
            notice,
        } && parsed_descriptor(args) matches Ok(d) && marker_path == fingerprint_path_spec(
            d,
            identity.name,
        ) && notice == skip_notice_spec(identity.name)),
{
}

} // verus!
