//! What is asked of the process launcher for one start of the child.

use vstd::prelude::*;
use crate::config::{
    copy_pairs, copy_text, environment_pairs, resolve, ConfigError, LaunchConfig, LaunchConfigView,
    LookupsView,
};

verus! {

/// One request to start the child.
#[derive(Debug, PartialEq, Eq)]
pub struct LaunchPlan {
    /// Path of the program to run.
    pub program: String,
    /// Directory to start in; `None` keeps the supervisor's own.
    pub working_directory: Option<String>,
    /// Arguments, appended as they are: one string, never split.
    pub raw_arguments: Option<String>,
    /// `Some` empties the child's environment and then sets these pairs,
    /// in order; `None` leaves the child the supervisor's environment.
    pub environment: Option<Vec<(String, String)>>,
    /// Whether the child is kept from opening a window or console.
    pub hide_window: bool,
}

/// Mathematical content of a [`LaunchPlan`].
pub struct LaunchPlanView {
    pub program: Seq<char>,
    pub working_directory: Option<Seq<char>>,
    pub raw_arguments: Option<Seq<char>>,
    pub environment: Option<Seq<(Seq<char>, Seq<char>)>>,
    pub hide_window: bool,
}

impl View for LaunchPlan {
    type V = LaunchPlanView;

    open spec fn view(&self) -> LaunchPlanView {
        LaunchPlanView {
            program: self.program@,
            working_directory: self.working_directory.deep_view(),
            raw_arguments: self.raw_arguments.deep_view(),
            environment: self.environment.deep_view(),
            hide_window: self.hide_window,
        }
    }
}

/// The request that a configuration stands for. Every parameter is
/// handed on unchanged, and a window is never wanted.
pub open spec fn planned(config: LaunchConfigView) -> LaunchPlanView {
    LaunchPlanView {
        program: config.executable_path,
        working_directory: config.working_directory,
        raw_arguments: config.argument_string,
        environment: config.environment_overrides,
        hide_window: true,
    }
}

/// The variables set for a child started by `plan`, in the order in which
/// they are set, when the supervisor's own are `inherited`.
pub open spec fn child_environment(
    plan: LaunchPlanView,
    inherited: Seq<(Seq<char>, Seq<char>)>,
) -> Seq<(Seq<char>, Seq<char>)> {
    match plan.environment {
        Some(pairs) => pairs,
        None => inherited,
    }
}

impl LaunchPlan {
    /// Builds the request for one start of the child described by `config`.
    pub fn for_config(config: &LaunchConfig) -> (plan: LaunchPlan)
        ensures
            plan@ == planned(config@),
            plan@.program.len() > 0,
    {
        LaunchPlan {
            program: config.executable_path().clone(),
            working_directory: copy_text(config.working_directory()),
            raw_arguments: copy_text(config.argument_string()),
            environment: match config.environment_overrides() {
                Some(pairs) => Some(copy_pairs(pairs)),
                None => None,
            },
            hide_window: true,
        }
    }
}

/// The child's environment is replaced, never merged. Where the store
/// holds environment entries, the child gets the pairs they name and
/// nothing of the supervisor's environment; with an empty list it gets no
/// variable at all. Where the store holds none, the child gets exactly
/// the supervisor's environment.
pub proof fn lemma_environment_is_replaced(
    lookups: LookupsView,
    config: LaunchConfigView,
    inherited: Seq<(Seq<char>, Seq<char>)>,
)
    requires
        resolve(lookups) == Ok::<LaunchConfigView, ConfigError>(config),
    ensures
        lookups.environment is None ==> child_environment(planned(config), inherited) == inherited,
        lookups.environment matches Some(entries) ==> child_environment(planned(config), inherited)
            == environment_pairs(entries),
        lookups.environment == Some(Seq::<Seq<char>>::empty()) ==> child_environment(
            planned(config),
            inherited,
        ) == Seq::<(Seq<char>, Seq<char>)>::empty(),
        config.environment_overrides == Some(Seq::<(Seq<char>, Seq<char>)>::empty())
            ==> child_environment(planned(config), inherited).len() == 0,
{
}

} // verus!
