//! A whole command: the statuses, the decision, and what the caller is to print
//! and to do.

use crate::plan::{
    clean, clean_dry_run, create, create_dry_run, pass_steps, update, update_dry_run,
    update_steps, Pass,
};
use crate::policy::{decide, decision_of, Command, Decision, Refusal};
use crate::report::{report, report_of, Report, ReportView};
use crate::step::{step_views, Step, StepView};
use crate::summary::{entries_of, observed_views, statuses, Observed, ObservedView};
use vstd::prelude::*;

verus! {

/// What a command comes to. The caller prints the message, then the
/// report, then takes the steps in order.
#[derive(Debug)]
pub struct Outcome {
    pub decision: Decision,
    pub message: Option<String>,
    pub report: Option<Report>,
    pub steps: Vec<Step>,
}

/// The mathematical value of an [`Outcome`].
pub struct OutcomeView {
    pub decision: Decision,
    pub message: Option<Seq<char>>,
    pub report: Option<ReportView>,
    pub steps: Seq<StepView>,
}

impl View for Outcome {
    type V = OutcomeView;

    open spec fn view(&self) -> OutcomeView {
        OutcomeView {
            decision: self.decision,
            message: match self.message {
                Some(message) => Some(message@),
                None => None,
            },
            report: match self.report {
                Some(report) => Some(report@),
                None => None,
            },
            steps: step_views(self.steps@),
        }
    }
}

/// The message that goes with a decision on a command.
pub open spec fn message_of(command: Command, decision: Decision) -> Option<Seq<char>> {
    match (command, decision) {
        (Command::Create, Decision::Refused(Refusal::AlreadyCorrect)) => Some(
            "Refusing to create links, they are already correct"@,
        ),
        (Command::Create, Decision::Refused(_)) => Some(
            "Refusing to create links, there are conflicts or errors"@,
        ),
        (Command::Create, Decision::NothingToDo) => Some(
            "There is nothing to do; no writes will be made"@,
        ),
        (Command::Update, Decision::Refused(_)) => Some(
            "Refusing to update links, there are conflicts or errors"@,
        ),
        (Command::Update, Decision::NothingToDo) => Some("Nothing to update"@),
        (Command::Clean, Decision::Refused(Refusal::MissingOrIncorrect)) => Some(
            "Refusing to clean links, there are missing or incorrect links"@,
        ),
        (Command::Clean, Decision::Refused(_)) => Some(
            "Refusing to clean links, there are conflicts or errors"@,
        ),
        _ => None,
    }
}

/// Whether the report is shown: always for `status`, for the others where
/// they are refused, and where `update` finds nothing to do.
pub open spec fn shows_report(command: Command, decision: Decision) -> bool {
    match (command, decision) {
        (Command::Status, _) => true,
        (_, Decision::Refused(_)) => true,
        (Command::Update, Decision::NothingToDo) => true,
        _ => false,
    }
}

/// The steps of a command that goes ahead; any other has none.
pub open spec fn steps_of(
    command: Command,
    decision: Decision,
    dry_run: bool,
    observed: Seq<ObservedView>,
) -> Seq<StepView> {
    match (command, decision) {
        (Command::Create, Decision::Proceed) => pass_steps(Pass::Create, dry_run, observed),
        (Command::Update, Decision::Proceed) => update_steps(dry_run, observed),
        (Command::Clean, Decision::Proceed) => pass_steps(Pass::Clean, dry_run, observed),
        _ => Seq::empty(),
    }
}

/// What a command comes to on the links as they were observed.
pub open spec fn outcome_of(command: Command, dry_run: bool, observed: Seq<ObservedView>)
    -> OutcomeView {
    let entries = entries_of(observed);
    let decision = decision_of(command, entries);
    OutcomeView {
        decision,
        message: message_of(command, decision),
        report: if shows_report(command, decision) {
            Some(report_of(entries))
        } else {
            None
        },
        steps: steps_of(command, decision, dry_run, observed),
    }
}

/// The message that goes with a decision on a command.
fn message(command: Command, decision: Decision) -> (text: Option<String>)
    ensures
        match text {
            Some(text) => message_of(command, decision) == Some(text@),
            None => message_of(command, decision) is None,
        },
{
    match (command, decision) {
        (Command::Create, Decision::Refused(Refusal::AlreadyCorrect)) => Some(
            "Refusing to create links, they are already correct".to_owned(),
        ),
        (Command::Create, Decision::Refused(_)) => Some(
            "Refusing to create links, there are conflicts or errors".to_owned(),
        ),
        (Command::Create, Decision::NothingToDo) => Some(
            "There is nothing to do; no writes will be made".to_owned(),
        ),
        (Command::Update, Decision::Refused(_)) => Some(
            "Refusing to update links, there are conflicts or errors".to_owned(),
        ),
        (Command::Update, Decision::NothingToDo) => Some("Nothing to update".to_owned()),
        (Command::Clean, Decision::Refused(Refusal::MissingOrIncorrect)) => Some(
            "Refusing to clean links, there are missing or incorrect links".to_owned(),
        ),
        (Command::Clean, Decision::Refused(_)) => Some(
            "Refusing to clean links, there are conflicts or errors".to_owned(),
        ),
        _ => None,
    }
}

/// Carries out a command as far as deciding goes: classifies the links,
/// decides on the command, and lays out the message, the report and the steps.
///
/// A refused command has no steps, and the steps of a dry run only print.
pub fn run(command: Command, dry_run: bool, observed: &Vec<Observed>) -> (outcome: Outcome)
    ensures
        outcome@ == outcome_of(command, dry_run, observed_views(observed@)),
{
    let summary = statuses(observed);
    let decision = decide(command, &summary);
    let shown = match (command, decision) {
        (Command::Status, _) => true,
        (_, Decision::Refused(_)) => true,
        (Command::Update, Decision::NothingToDo) => true,
        _ => false,
    };
    let report = if shown {
        Some(report(&summary))
    } else {
        None
    };
    let steps = match (command, decision) {
        (Command::Create, Decision::Proceed) => if dry_run {
            create_dry_run(observed)
        } else {
            create(observed)
        },
        (Command::Update, Decision::Proceed) => if dry_run {
            update_dry_run(observed)
        } else {
            update(observed)
        },
        (Command::Clean, Decision::Proceed) => if dry_run {
            clean_dry_run(observed)
        } else {
            clean(observed)
        },
        _ => {
            let none: Vec<Step> = Vec::new();
            proof {
                assert(step_views(none@) =~= Seq::<StepView>::empty());
            }
            none
        },
    };
    Outcome { decision, message: message(command, decision), report, steps }
}

} // verus!
