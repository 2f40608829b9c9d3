//! The steps that a command asks its caller to take.

use vstd::prelude::*;

verus! {

/// One thing for the caller to do. Steps are taken in order, and a step that
/// fails ends the run.
#[derive(Debug, Clone, PartialEq, Eq)]
pub enum Step {
    /// Print this line.
    Announce(String),
    /// Remove the symbolic link at this path.
    Remove(String),
    /// Make the directories above `link_name` where they are missing, then
    /// make `link_name` a symbolic link that holds `target`.
    Create { link_name: String, target: String },
}

/// The mathematical value of a [`Step`].
pub enum StepView {
    Announce(Seq<char>),
    Remove(Seq<char>),
    Create { link_name: Seq<char>, target: Seq<char> },
}

impl View for Step {
    type V = StepView;

    open spec fn view(&self) -> StepView {
        match self {
            Step::Announce(line) => StepView::Announce(line@),
            Step::Remove(link_name) => StepView::Remove(link_name@),
            Step::Create { link_name, target } => StepView::Create {
                link_name: link_name@,
                target: target@,
            },
        }
    }
}

/// The values of a sequence of steps.
pub open spec fn step_views(steps: Seq<Step>) -> Seq<StepView> {
    steps.map_values(|s: Step| s@)
}

/// Whether a step changes anything on disk.
pub open spec fn is_mutation(step: StepView) -> bool {
    !(step is Announce)
}

/// Whether no step of a plan changes anything on disk.
pub open spec fn only_announces(steps: Seq<StepView>) -> bool {
    forall|i: int| 0 <= i < steps.len() ==> !is_mutation(#[trigger] steps[i])
}

} // verus!
