//! The steps of each command, for a real run and for a dry run.

use crate::link::LinkView;
use crate::step::{step_views, Step, StepView};
use crate::summary::{observed_views, Observed, ObservedView};
use crate::text::{path_debug, quoted_path};
use vstd::prelude::*;
use vstd::string::StringExecFns;

verus! {

/// The two passes over the links that commands are made of.
#[derive(Debug, Clone, Copy, PartialEq, Eq, Structural)]
pub enum Pass {
    /// Remove the symbolic links that are there.
    Clean,
    /// Make every link.
    Create,
}

/// The line that a real run prints for a link: its declared link name and
/// target, as they were written.
pub open spec fn arrow_line(link: LinkView) -> Seq<char> {
    link.link_name + " -> "@ + link.target
}

/// The line that a dry run prints for a link that would be made: both
/// paths as `{:?}` prints them.
pub open spec fn create_notice(link_name: Seq<char>, target: Seq<char>) -> Seq<char> {
    "Create "@ + quoted_path(link_name) + " -> "@ + quoted_path(target)
}

/// The line that a dry run prints for a link that would be removed: the
/// path as `{:?}` prints it.
pub open spec fn delete_notice(link_name: Seq<char>) -> Seq<char> {
    "Delete "@ + quoted_path(link_name)
}

/// Whether the link name of the link at `index` is already removed for an
/// earlier link: two links may have one link name, and a link name is
/// removed once.
pub open spec fn removed_earlier(observed: Seq<ObservedView>, index: int) -> bool {
    exists|earlier: int|
        0 <= earlier < index && (#[trigger] observed[earlier]).link_name
            == observed[index].link_name && observed[earlier].probe.is_symlink()
}

/// What a pass changes for the link at `index`: `clean` removes the link
/// name where it was seen to be a symbolic link and is not removed already,
/// and leaves anything else alone; `create` makes the link.
pub open spec fn mutation_at(pass: Pass, observed: Seq<ObservedView>, index: int) -> Option<
    StepView,
> {
    let seen = observed[index];
    match pass {
        Pass::Clean => if seen.probe.is_symlink() && !removed_earlier(observed, index) {
            Some(StepView::Remove(seen.link_name))
        } else {
            None
        },
        Pass::Create => Some(
            StepView::Create { link_name: seen.link_name, target: seen.target },
        ),
    }
}

/// The line of a dry run that stands for a step that changes something.
pub open spec fn notice_of(step: StepView) -> Seq<StepView> {
    match step {
        StepView::Announce(_) => Seq::empty(),
        StepView::Remove(link_name) => seq![StepView::Announce(delete_notice(link_name))],
        StepView::Create { link_name, target } => seq![
            StepView::Announce(create_notice(link_name, target)),
        ],
    }
}

/// The steps of a pass for the link at `index`. A real run prints the link
/// as it was declared and then changes what the pass changes; a dry run
/// prints what would be changed and changes nothing.
pub open spec fn steps_at(pass: Pass, dry_run: bool, observed: Seq<ObservedView>, index: int)
    -> Seq<StepView> {
    let change = match mutation_at(pass, observed, index) {
        Some(step) => if dry_run {
            notice_of(step)
        } else {
            seq![step]
        },
        None => Seq::empty(),
    };
    if dry_run {
        change
    } else {
        seq![StepView::Announce(arrow_line(observed[index].link))] + change
    }
}

/// The steps of a pass for the first `count` links, link after link.
pub open spec fn steps_upto(
    pass: Pass,
    dry_run: bool,
    observed: Seq<ObservedView>,
    count: nat,
) -> Seq<StepView>
    decreases count,
{
    if count == 0 {
        Seq::empty()
    } else {
        steps_upto(pass, dry_run, observed, (count - 1) as nat) + steps_at(
            pass,
            dry_run,
            observed,
            count - 1,
        )
    }
}

/// The steps of a pass over all links, link after link.
pub open spec fn pass_steps(pass: Pass, dry_run: bool, observed: Seq<ObservedView>) -> Seq<
    StepView,
> {
    steps_upto(pass, dry_run, observed, observed.len())
}

/// The steps of `update`: all of `clean`, then all of `create`.
pub open spec fn update_steps(dry_run: bool, observed: Seq<ObservedView>) -> Seq<StepView> {
    pass_steps(Pass::Clean, dry_run, observed) + pass_steps(Pass::Create, dry_run, observed)
}

/// Joins a link name and a target into `link name -> target`.
fn arrow(link_name: &str, target: &str) -> (line: String)
    ensures
        line@ == link_name@ + " -> "@ + target@,
{
    let mut line = link_name.to_owned();
    line.append(" -> ");
    line.append(target);
    line
}

/// The line of a dry run for a link that would be made, from its two paths
/// as they are to be shown.
pub fn create_line(shown_link_name: &str, shown_target: &str) -> (line: String)
    ensures
        line@ == "Create "@ + shown_link_name@ + " -> "@ + shown_target@,
{
    let mut line = "Create ".to_owned();
    line.append(shown_link_name);
    line.append(" -> ");
    line.append(shown_target);
    line
}

/// The line of a dry run for a link that would be removed, from its link
/// name as it is to be shown.
pub fn delete_line(shown_link_name: &str) -> (line: String)
    ensures
        line@ == "Delete "@ + shown_link_name@,
{
    let mut line = "Delete ".to_owned();
    line.append(shown_link_name);
    line
}

/// Whether the link name of the link at `index` is already removed for an
/// earlier link.
fn is_removed_earlier(observed: &Vec<Observed>, index: usize) -> (found: bool)
    requires
        index < observed.len(),
    ensures
        found == removed_earlier(observed_views(observed@), index as int),
{
    let ghost all = observed_views(observed@);
    let mut earlier: usize = 0;
    while earlier < index
        invariant
            earlier <= index < observed.len(),
            all == observed_views(observed@),
            forall|k: int|
                0 <= k < earlier ==> !((#[trigger] all[k]).link_name == all[index as int].link_name
                    && all[k].probe.is_symlink()),
        decreases index - earlier,
    {
        if observed[earlier].probe.is_symlink() && observed[earlier].link_name
            == observed[index].link_name {
            assert(all[earlier as int].link_name == all[index as int].link_name);
            return true;
        }
        earlier = earlier + 1;
    }
    false
}

/// Appends the steps of a pass for the link at `index`.
fn push_steps(
    pass: Pass,
    dry_run: bool,
    observed: &Vec<Observed>,
    index: usize,
    steps: &mut Vec<Step>,
)
    requires
        index < observed.len(),
    ensures
        step_views(final(steps)@) == step_views(old(steps)@) + steps_at(
            pass,
            dry_run,
            observed_views(observed@),
            index as int,
        ),
{
    let seen = &observed[index];
    assert(observed_views(observed@)[index as int] == seen@);
    if !dry_run {
        let line = arrow(seen.link.link_name.as_str(), seen.link.target.as_str());
        steps.push(Step::Announce(line));
    }
    match pass {
        Pass::Clean => {
            if seen.probe.is_symlink() && !is_removed_earlier(observed, index) {
                if dry_run {
                    let line = delete_line(path_debug(seen.link_name.as_str()).as_str());
                    steps.push(Step::Announce(line));
                } else {
                    let step = Step::Remove(seen.link_name.clone());
                    steps.push(step);
                }
            }
        },
        Pass::Create => {
            if dry_run {
                let line = create_line(
                    path_debug(seen.link_name.as_str()).as_str(),
                    path_debug(seen.target.as_str()).as_str(),
                );
                steps.push(Step::Announce(line));
            } else {
                let step = Step::Create {
                    link_name: seen.link_name.clone(),
                    target: seen.target.clone(),
                };
                steps.push(step);
            }
        },
    }
}

/// Appends the steps of a pass over all links.
fn push_pass(pass: Pass, dry_run: bool, observed: &Vec<Observed>, steps: &mut Vec<Step>)
    ensures
        step_views(final(steps)@) == step_views(old(steps)@) + pass_steps(
            pass,
            dry_run,
            observed_views(observed@),
        ),
{
    let ghost before = step_views(steps@);
    let ghost all = observed_views(observed@);
    let mut i: usize = 0;
    while i < observed.len()
        invariant
            i <= observed.len(),
            all == observed_views(observed@),
            step_views(steps@) == before + steps_upto(pass, dry_run, all, i as nat),
        decreases observed.len() - i,
    {
        push_steps(pass, dry_run, observed, i, steps);
        i = i + 1;
    }
}

/// The steps of `create`: for every link, print it and make it.
pub fn create(observed: &Vec<Observed>) -> (steps: Vec<Step>)
    ensures
        step_views(steps@) == pass_steps(Pass::Create, false, observed_views(observed@)),
{
    let mut steps: Vec<Step> = Vec::new();
    push_pass(Pass::Create, false, observed, &mut steps);
    steps
}

/// The steps of `clean`: for every link, print it and, where the link name
/// was seen to be a symbolic link and is not removed already, remove it.
pub fn clean(observed: &Vec<Observed>) -> (steps: Vec<Step>)
    ensures
        step_views(steps@) == pass_steps(Pass::Clean, false, observed_views(observed@)),
{
    let mut steps: Vec<Step> = Vec::new();
    push_pass(Pass::Clean, false, observed, &mut steps);
    steps
}

/// The steps of `update`: those of `clean` for all links, then those of
/// `create` for all links.
pub fn update(observed: &Vec<Observed>) -> (steps: Vec<Step>)
    ensures
        step_views(steps@) == update_steps(false, observed_views(observed@)),
{
    let mut steps = clean(observed);
    push_pass(Pass::Create, false, observed, &mut steps);
    steps
}

/// What `create` would do, as lines to print.
pub fn create_dry_run(observed: &Vec<Observed>) -> (steps: Vec<Step>)
    ensures
        step_views(steps@) == pass_steps(Pass::Create, true, observed_views(observed@)),
{
    let mut steps: Vec<Step> = Vec::new();
    push_pass(Pass::Create, true, observed, &mut steps);
    steps
}

/// What `clean` would do, as lines to print.
pub fn clean_dry_run(observed: &Vec<Observed>) -> (steps: Vec<Step>)
    ensures
        step_views(steps@) == pass_steps(Pass::Clean, true, observed_views(observed@)),
{
    let mut steps: Vec<Step> = Vec::new();
    push_pass(Pass::Clean, true, observed, &mut steps);
    steps
}

/// What `update` would do, as lines to print.
pub fn update_dry_run(observed: &Vec<Observed>) -> (steps: Vec<Step>)
    ensures
        step_views(steps@) == update_steps(true, observed_views(observed@)),
{
    let mut steps = clean_dry_run(observed);
    push_pass(Pass::Create, true, observed, &mut steps);
    steps
}

} // verus!
