//! Which command may go ahead on which statuses.

use crate::summary::{any_of, lemma_count_positive, EntryView, Kind, Statuses};
use vstd::prelude::*;

verus! {

/// The four commands.
#[derive(Debug, Clone, Copy, PartialEq, Eq, Structural)]
pub enum Command {
    /// Make every link; all must be missing.
    Create,
    /// Remove the links that are there and make them all again.
    Update,
    /// Only report.
    Status,
    /// Remove every link; all must be correct.
    Clean,
}

/// Why a command is refused.
#[derive(Debug, Clone, Copy, PartialEq, Eq, Structural)]
pub enum Refusal {
    /// A link could not be read, or something that is no symbolic link is in
    /// the way; for `create`, also a link that points elsewhere.
    Conflicts,
    /// `create` found links that are already correct.
    AlreadyCorrect,
    /// `clean` found links that are missing or point elsewhere.
    MissingOrIncorrect,
}

/// What is decided on a command.
#[derive(Debug, Clone, Copy, PartialEq, Eq, Structural)]
pub enum Decision {
    /// The command is refused: nothing is changed.
    Refused(Refusal),
    /// The command is allowed and finds nothing to do.
    NothingToDo,
    /// The command goes ahead.
    Proceed,
}

/// Whether some link could not be read or some link name is taken by
/// something that is no symbolic link.
pub open spec fn has_conflicts(entries: Seq<EntryView>) -> bool {
    any_of(entries, Kind::Error) || any_of(entries, Kind::NotSymlink)
}

/// The decision on a command, given the entries of all links.
pub open spec fn decision_of(command: Command, entries: Seq<EntryView>) -> Decision {
    match command {
        Command::Create => if has_conflicts(entries) || any_of(entries, Kind::Incorrect) {
            Decision::Refused(Refusal::Conflicts)
        } else if any_of(entries, Kind::Correct) {
            Decision::Refused(Refusal::AlreadyCorrect)
        } else if !any_of(entries, Kind::Missing) {
            Decision::NothingToDo
        } else {
            Decision::Proceed
        },
        Command::Update => if has_conflicts(entries) {
            Decision::Refused(Refusal::Conflicts)
        } else if !any_of(entries, Kind::Incorrect) && !any_of(entries, Kind::Missing) {
            Decision::NothingToDo
        } else {
            Decision::Proceed
        },
        Command::Status => Decision::Proceed,
        Command::Clean => if has_conflicts(entries) {
            Decision::Refused(Refusal::Conflicts)
        } else if any_of(entries, Kind::Incorrect) || any_of(entries, Kind::Missing) {
            Decision::Refused(Refusal::MissingOrIncorrect)
        } else {
            Decision::Proceed
        },
    }
}

/// Decides whether a command may go ahead on the statuses found.
pub fn decide(command: Command, summary: &Statuses) -> (decision: Decision)
    ensures
        decision == decision_of(command, summary@),
{
    proof {
        lemma_count_positive(summary@, Kind::Error);
        lemma_count_positive(summary@, Kind::NotSymlink);
        lemma_count_positive(summary@, Kind::Incorrect);
        lemma_count_positive(summary@, Kind::Correct);
        lemma_count_positive(summary@, Kind::Missing);
    }
    let conflicts = summary.error() > 0 || summary.not_symlink() > 0;
    match command {
        Command::Create => {
            if conflicts || summary.incorrect() > 0 {
                Decision::Refused(Refusal::Conflicts)
            } else if summary.correct() > 0 {
                Decision::Refused(Refusal::AlreadyCorrect)
            } else if summary.missing() == 0 {
                Decision::NothingToDo
            } else {
                Decision::Proceed
            }
        },
        Command::Update => {
            if conflicts {
                Decision::Refused(Refusal::Conflicts)
            } else if summary.incorrect() == 0 && summary.missing() == 0 {
                Decision::NothingToDo
            } else {
                Decision::Proceed
            }
        },
        Command::Status => Decision::Proceed,
        Command::Clean => {
            if conflicts {
                Decision::Refused(Refusal::Conflicts)
            } else if summary.incorrect() > 0 || summary.missing() > 0 {
                Decision::Refused(Refusal::MissingOrIncorrect)
            } else {
                Decision::Proceed
            }
        },
    }
}

/// The command that a word names, if it names one.
pub fn parse_command(word: &str) -> (command: Option<Command>)
    ensures
        command == if word@ == "create"@ {
            Some(Command::Create)
        } else if word@ == "update"@ {
            Some(Command::Update)
        } else if word@ == "status"@ {
            Some(Command::Status)
        } else if word@ == "clean"@ {
            Some(Command::Clean)
        } else {
            None
        },
{
    let word = word.to_owned();
    if word == "create".to_owned() {
        Some(Command::Create)
    } else if word == "update".to_owned() {
        Some(Command::Update)
    } else if word == "status".to_owned() {
        Some(Command::Status)
    } else if word == "clean".to_owned() {
        Some(Command::Clean)
    } else {
        None
    }
}

} // verus!
