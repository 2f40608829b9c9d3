//! What the commands decide and leave behind. What is said of the disk is
//! proved over the flat model of [`crate::world`], which says what it leaves
//! out.

use crate::link::{classification, ProbeView};
use crate::plan::{
    arrow_line, mutation_at, notice_of, pass_steps, steps_at, steps_upto, Pass,
};
use crate::policy::{decision_of, has_conflicts, Command};
use crate::reconcile::outcome_of;
use crate::step::{is_mutation, only_announces, StepView};
use crate::summary::{all_of, any_of, entries_of, kind_of, EntryView, Kind, ObservedView};
use crate::world::{
    all_absent, all_in, cleaned_upto, distinct_link_names, lemma_after_all_add,
    lemma_announcing_changes_nothing, lemma_clean_pass, lemma_create_pass,
    lemma_status_of_probe, named_upto, seen_in, World,
};
use vstd::prelude::*;

verus! {

/// Classifying is repeatable: two looks at the same link name in the same
/// world give the same status.
pub proof fn law_classification_repeats(
    world: World,
    target: Seq<char>,
    link_name: Seq<char>,
    first: ProbeView,
    second: ProbeView,
)
    requires
        world.shows(link_name, first),
        world.shows(link_name, second),
    ensures
        classification(target, first) == classification(target, second),
{
    lemma_status_of_probe(world, target, link_name, first);
    lemma_status_of_probe(world, target, link_name, second);
}

/// The statuses that were observed are those of the world that was observed.
pub proof fn lemma_entries_of_world(world: World, observed: Seq<ObservedView>)
    requires
        seen_in(world, observed),
    ensures
        forall|i: int|
            0 <= i < observed.len() ==> (#[trigger] entries_of(observed)[i]).status
                == world.status(observed[i].target, observed[i].link_name),
{
    assert forall|i: int| 0 <= i < observed.len() implies (#[trigger] entries_of(
        observed,
    )[i]).status == world.status(observed[i].target, observed[i].link_name) by {
        lemma_status_of_probe(
            world,
            observed[i].target,
            observed[i].link_name,
            observed[i].probe,
        );
    }
}

/// The steps of a dry run only print.
pub proof fn lemma_dry_pass_only_announces(pass: Pass, observed: Seq<ObservedView>, count: nat)
    ensures
        only_announces(steps_upto(pass, true, observed, count)),
    decreases count,
{
    if count > 0 {
        lemma_dry_pass_only_announces(pass, observed, (count - 1) as nat);
        let steps = steps_upto(pass, true, observed, count);
        let head = steps_upto(pass, true, observed, (count - 1) as nat);
        let last = steps_at(pass, true, observed, count - 1);
        assert forall|i: int| 0 <= i < steps.len() implies !is_mutation(#[trigger] steps[i]) by {
            if i < head.len() {
                assert(steps[i] == head[i]);
            } else {
                assert(steps[i] == last[i - head.len()]);
            }
        }
    }
}

/// A dry run changes nothing, whatever the command and whatever it finds.
pub proof fn law_dry_run_changes_nothing(
    world: World,
    command: Command,
    observed: Seq<ObservedView>,
)
    ensures
        only_announces(outcome_of(command, true, observed).steps),
        world.after_all(outcome_of(command, true, observed).steps) == Some(world),
{
    let steps = outcome_of(command, true, observed).steps;
    lemma_dry_pass_only_announces(Pass::Clean, observed, observed.len());
    lemma_dry_pass_only_announces(Pass::Create, observed, observed.len());
    let clean = pass_steps(Pass::Clean, true, observed);
    let create = pass_steps(Pass::Create, true, observed);
    assert forall|i: int| 0 <= i < (clean + create).len() implies !is_mutation(
        #[trigger] (clean + create)[i],
    ) by {
        if i < clean.len() {
            assert((clean + create)[i] == clean[i]);
        } else {
            assert((clean + create)[i] == create[i - clean.len()]);
        }
    }
    assert(only_announces(steps));
    lemma_announcing_changes_nothing(world, steps);
}

/// A command that is refused, and `status` always, has no steps: nothing
/// is changed.
pub proof fn law_refusal_changes_nothing(
    world: World,
    command: Command,
    dry_run: bool,
    observed: Seq<ObservedView>,
)
    requires
        outcome_of(command, dry_run, observed).decision is Refused || command == Command::Status,
    ensures
        outcome_of(command, dry_run, observed).steps.len() == 0,
        world.after_all(outcome_of(command, dry_run, observed).steps) == Some(world),
{
}

/// `create` is refused as soon as one link is not missing, and then has no
/// steps: nothing is changed.
pub proof fn law_create_refuses_unless_all_missing(
    world: World,
    dry_run: bool,
    observed: Seq<ObservedView>,
)
    requires
        !all_of(entries_of(observed), Kind::Missing),
    ensures
        outcome_of(Command::Create, dry_run, observed).decision is Refused,
        outcome_of(Command::Create, dry_run, observed).steps.len() == 0,
        world.after_all(outcome_of(Command::Create, dry_run, observed).steps) == Some(world),
{
    let entries = entries_of(observed);
    let i = choose|i: int|
        0 <= i < entries.len() && kind_of(#[trigger] entries[i].status) != Kind::Missing;
    let kind = kind_of(entries[i].status);
    assert(any_of(entries, kind));
}

/// `create` on links that are all missing, or on no links, can take all its
/// steps, and afterwards every link is correct, whether or not anything is
/// at its target.
///
/// This needs that no two link names are the same: the second of two such
/// links cannot be made.
pub proof fn law_create_makes_all_correct(world: World, observed: Seq<ObservedView>)
    requires
        seen_in(world, observed),
        all_of(entries_of(observed), Kind::Missing),
        distinct_link_names(observed),
    ensures
        !(outcome_of(Command::Create, false, observed).decision is Refused),
        world.after_all(outcome_of(Command::Create, false, observed).steps) is Some,
        all_in(
            world.after_all(outcome_of(Command::Create, false, observed).steps).unwrap(),
            observed,
            Kind::Correct,
        ),
{
    let entries = entries_of(observed);
    lemma_entries_of_world(world, observed);
    assert forall|i: int| 0 <= i < observed.len() implies !world.holds(
        (#[trigger] observed[i]).link_name,
    ) by {
        assert(kind_of(entries[i].status) == Kind::Missing);
    }
    if observed.len() > 0 {
        assert(kind_of(entries[0].status) == Kind::Missing);
        lemma_create_pass(world, observed, observed.len());
    }
}

/// `clean` on links that are all correct can take all its steps, and
/// afterwards nothing is at any link name: every link is missing. Two
/// links may have one link name.
pub proof fn law_clean_makes_all_missing(world: World, observed: Seq<ObservedView>)
    requires
        seen_in(world, observed),
        all_of(entries_of(observed), Kind::Correct),
    ensures
        outcome_of(Command::Clean, false, observed).decision is Proceed,
        world.after_all(outcome_of(Command::Clean, false, observed).steps) is Some,
        all_absent(
            world.after_all(outcome_of(Command::Clean, false, observed).steps).unwrap(),
            observed,
        ),
        all_in(
            world.after_all(outcome_of(Command::Clean, false, observed).steps).unwrap(),
            observed,
            Kind::Missing,
        ),
{
    let entries = entries_of(observed);
    lemma_entries_of_world(world, observed);
    lemma_clean_pass(world, observed, observed.len());
    let after = cleaned_upto(world, observed, observed.len());
    assert forall|i: int| 0 <= i < observed.len() implies !after.holds(
        (#[trigger] observed[i]).link_name,
    ) by {
        assert(kind_of(entries[i].status) == Kind::Correct);
        assert(named_upto(observed, observed.len(), observed[i].link_name));
    }
    assert forall|i: int| 0 <= i < observed.len() implies kind_of(
        after.status((#[trigger] observed[i]).target, observed[i].link_name),
    ) == Kind::Missing by {
        assert(!after.holds(observed[i].link_name));
    }
}

/// `update` on links of which none is in conflict (each is correct, points
/// elsewhere or is missing) can take all its steps, and afterwards every
/// link is correct, whether or not anything is at its target.
///
/// This needs that no two link names are the same: the second of two such
/// links cannot be made.
pub proof fn law_update_makes_all_correct(world: World, observed: Seq<ObservedView>)
    requires
        seen_in(world, observed),
        !has_conflicts(entries_of(observed)),
        distinct_link_names(observed),
    ensures
        !(outcome_of(Command::Update, false, observed).decision is Refused),
        world.after_all(outcome_of(Command::Update, false, observed).steps) is Some,
        all_in(
            world.after_all(outcome_of(Command::Update, false, observed).steps).unwrap(),
            observed,
            Kind::Correct,
        ),
{
    let entries = entries_of(observed);
    lemma_entries_of_world(world, observed);
    if outcome_of(Command::Update, false, observed).decision is NothingToDo {
        assert forall|i: int| 0 <= i < observed.len() implies kind_of(
            world.status((#[trigger] observed[i]).target, observed[i].link_name),
        ) == Kind::Correct by {
            let kind = kind_of(entries[i].status);
            if kind != Kind::Correct {
                assert(any_of(entries, kind));
            }
        }
    } else {
        let clean = pass_steps(Pass::Clean, false, observed);
        let create = pass_steps(Pass::Create, false, observed);
        lemma_clean_pass(world, observed, observed.len());
        let between = cleaned_upto(world, observed, observed.len());
        assert forall|i: int| 0 <= i < observed.len() implies !between.holds(
            (#[trigger] observed[i]).link_name,
        ) by {
            let link_name = observed[i].link_name;
            assert(named_upto(observed, observed.len(), link_name));
            if world.holds(link_name) && !world.is_link(link_name) {
                assert(kind_of(entries[i].status) == Kind::NotSymlink);
                assert(any_of(entries, Kind::NotSymlink));
            }
        }
        lemma_create_pass(between, observed, observed.len());
        lemma_after_all_add(world, clean, create);
    }
}

/// The changes of a plan, in order: its steps without those that only
/// print.
pub open spec fn changes_of(steps: Seq<StepView>) -> Seq<StepView> {
    steps.filter(|step: StepView| is_mutation(step))
}

/// The lines that a dry run prints for the changes of a plan.
pub open spec fn notices_of(changes: Seq<StepView>) -> Seq<StepView> {
    changes.flat_map(|step: StepView| notice_of(step))
}

/// A dry run of a pass prints one line for each change of the real run,
/// in the same order, and nothing else.
pub proof fn law_dry_pass_shows_every_change(pass: Pass, observed: Seq<ObservedView>, count: nat)
    ensures
        steps_upto(pass, true, observed, count) == notices_of(
            changes_of(steps_upto(pass, false, observed, count)),
        ),
    decreases count,
{
    let changing = |step: StepView| is_mutation(step);
    let none = Seq::<StepView>::empty();
    if count == 0 {
        none.lemma_filter_len(changing);
        assert(changes_of(none) =~= none);
        assert(notices_of(none) =~= none);
    } else {
        let index = count - 1;
        law_dry_pass_shows_every_change(pass, observed, index as nat);
        let head = steps_upto(pass, false, observed, index as nat);
        let last = steps_at(pass, false, observed, index);
        Seq::filter_distributes_over_add(head, last, changing);
        lemma_changes_at(pass, observed, index);
        lemma_notices_add(changes_of(head), changes_of(last));
    }
}

/// The changes of the real steps for one link, and the line that a dry run
/// prints for them.
proof fn lemma_changes_at(pass: Pass, observed: Seq<ObservedView>, index: int)
    ensures
        notices_of(changes_of(steps_at(pass, false, observed, index))) == steps_at(
            pass,
            true,
            observed,
            index,
        ),
{
    let changing = |step: StepView| is_mutation(step);
    let noticing = |step: StepView| notice_of(step);
    let announced = seq![StepView::Announce(arrow_line(observed[index].link))];
    let none = Seq::<StepView>::empty();
    assert(none.filter(changing) =~= none) by {
        none.lemma_filter_len(changing);
    }
    assert(announced.filter(changing) =~= none) by {
        assert(announced =~= none.push(announced[0]));
        none.lemma_filter_push(announced[0], changing);
    }
    assert(none.flat_map(noticing) =~= none);
    match mutation_at(pass, observed, index) {
        Some(step) => {
            assert(steps_at(pass, false, observed, index) =~= announced.push(step));
            announced.lemma_filter_push(step, changing);
            assert(changes_of(steps_at(pass, false, observed, index)) =~= none.push(step));
            none.lemma_flat_map_push(noticing, step);
            assert(none.push(step).flat_map(noticing) =~= notice_of(step));
        },
        None => {
            assert(steps_at(pass, false, observed, index) =~= announced);
        },
    }
}

/// The lines for two runs of changes are the lines for the first and then
/// the lines for the second.
proof fn lemma_notices_add(first: Seq<StepView>, second: Seq<StepView>)
    ensures
        notices_of(first + second) == notices_of(first) + notices_of(second),
    decreases second.len(),
{
    let noticing = |step: StepView| notice_of(step);
    if second.len() == 0 {
        assert(first + second =~= first);
        assert(notices_of(second) =~= Seq::<StepView>::empty());
        assert(notices_of(first) + notices_of(second) =~= notices_of(first));
    } else {
        let front = second.drop_last();
        let last = second.last();
        lemma_notices_add(first, front);
        assert(second =~= front.push(last));
        assert(first + second =~= (first + front).push(last));
        (first + front).lemma_flat_map_push(noticing, last);
        front.lemma_flat_map_push(noticing, last);
        assert(notices_of(first + second) =~= notices_of(first) + notices_of(second));
    }
}

/// A dry run is decided as the real run is, with the same message and
/// report, and prints one line for each change of the real run, in the
/// same order, and nothing else.
pub proof fn law_dry_run_mirrors_real_run(command: Command, observed: Seq<ObservedView>)
    ensures
        outcome_of(command, true, observed).decision == outcome_of(command, false, observed).decision,
        outcome_of(command, true, observed).message == outcome_of(command, false, observed).message,
        outcome_of(command, true, observed).report == outcome_of(command, false, observed).report,
        outcome_of(command, true, observed).steps == notices_of(
            changes_of(outcome_of(command, false, observed).steps),
        ),
{
    let none = Seq::<StepView>::empty();
    none.lemma_filter_len(|step: StepView| is_mutation(step));
    assert(changes_of(none) =~= none);
    assert(notices_of(none) =~= none);
    law_dry_pass_shows_every_change(Pass::Clean, observed, observed.len());
    law_dry_pass_shows_every_change(Pass::Create, observed, observed.len());
    let clean = pass_steps(Pass::Clean, false, observed);
    let create = pass_steps(Pass::Create, false, observed);
    Seq::filter_distributes_over_add(clean, create, |step: StepView| is_mutation(step));
    lemma_notices_add(changes_of(clean), changes_of(create));
}

/// The order in which the links are handed in does not change what is
/// decided on a command.
pub proof fn law_order_does_not_decide(
    command: Command,
    first: Seq<EntryView>,
    second: Seq<EntryView>,
)
    requires
        first.to_multiset() == second.to_multiset(),
    ensures
        decision_of(command, first) == decision_of(command, second),
{
    assert forall|kind: Kind| #[trigger] any_of(first, kind) == any_of(second, kind) by {
        if any_of(first, kind) {
            lemma_any_of_in_any_order(first, second, kind);
        }
        if any_of(second, kind) {
            lemma_any_of_in_any_order(second, first, kind);
        }
    }
}

/// An entry of a kind that is in one sequence is in any sequence of the
/// same entries.
proof fn lemma_any_of_in_any_order(first: Seq<EntryView>, second: Seq<EntryView>, kind: Kind)
    requires
        first.to_multiset() == second.to_multiset(),
        any_of(first, kind),
    ensures
        any_of(second, kind),
{
    let i = choose|i: int| 0 <= i < first.len() && kind_of(#[trigger] first[i].status) == kind;
    assert(first.contains(first[i]));
    vstd::seq_lib::to_multiset_contains(first, first[i]);
    vstd::seq_lib::to_multiset_contains(second, first[i]);
    let j = choose|j: int| 0 <= j < second.len() && second[j] == first[i];
    assert(kind_of(second[j].status) == kind);
}

} // verus!
