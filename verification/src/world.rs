//! A model of what is on disk, and what the steps of a command do to it.
//!
//! The model is flat: it knows for each path whether a file or directory is
//! there, or a symbolic link with its stored target, each path taken as a
//! whole. Nothing follows a link, so whether anything is at a target plays
//! no part. That one path lies in the directory that another names,
//! permissions and links that cannot be read are outside it.

use crate::link::{classification, points_at, ProbeView, StatusView};
use crate::plan::{arrow_line, removed_earlier, steps_at, steps_upto, Pass};
use crate::step::{is_mutation, only_announces, StepView};
use crate::summary::{kind_of, Kind, ObservedView};
use vstd::prelude::*;

verus! {

/// What is at a path.
pub enum Node {
    /// A file or a directory.
    Plain,
    /// A symbolic link, with the target stored in it.
    Symlink(Seq<char>),
}

/// What is at each path; a path outside the map has nothing at it.
pub struct World {
    pub nodes: Map<Seq<char>, Node>,
}

impl World {
    /// Whether anything is at the path itself.
    pub open spec fn holds(self, path: Seq<char>) -> bool {
        self.nodes.dom().contains(path)
    }

    /// Whether the path itself is a symbolic link.
    pub open spec fn is_link(self, path: Seq<char>) -> bool {
        self.holds(path) && self.nodes[path] is Symlink
    }

    /// What the three looks at the path find in this world.
    pub open spec fn probe_at(self, path: Seq<char>) -> ProbeView {
        if !self.holds(path) {
            ProbeView::Absent
        } else {
            match self.nodes[path] {
                Node::Plain => ProbeView::Occupied,
                Node::Symlink(stored) => ProbeView::Link(Ok(stored)),
            }
        }
    }

    /// Whether a probe is what the three looks at the path find in this
    /// world.
    pub open spec fn shows(self, path: Seq<char>, probe: ProbeView) -> bool {
        probe == self.probe_at(path)
    }

    /// The status in this world of a link with these resolved paths:
    /// missing exactly where nothing is at the link name.
    pub open spec fn status(self, target: Seq<char>, link_name: Seq<char>) -> StatusView {
        if !self.holds(link_name) {
            StatusView::Missing
        } else {
            match self.nodes[link_name] {
                Node::Plain => StatusView::NotSymlink,
                Node::Symlink(stored) => if points_at(stored, target) {
                    StatusView::Correct
                } else {
                    StatusView::Incorrect(stored)
                },
            }
        }
    }

    /// Whether a step can be taken: a removal needs a symbolic link at the
    /// path, a new link needs nothing at its link name.
    pub open spec fn permits(self, step: StepView) -> bool {
        match step {
            StepView::Announce(_) => true,
            StepView::Remove(link_name) => self.is_link(link_name),
            StepView::Create { link_name, target } => !self.holds(link_name),
        }
    }

    /// The world after a step that can be taken.
    pub open spec fn after(self, step: StepView) -> World {
        match step {
            StepView::Announce(_) => self,
            StepView::Remove(link_name) => World { nodes: self.nodes.remove(link_name) },
            StepView::Create { link_name, target } => World {
                nodes: self.nodes.insert(link_name, Node::Symlink(target)),
            },
        }
    }

    /// The world after the steps, taken in order; `None` where one of them
    /// cannot be taken, which ends the run.
    pub open spec fn after_all(self, steps: Seq<StepView>) -> Option<World>
        decreases steps.len(),
    {
        if steps.len() == 0 {
            Some(self)
        } else {
            match self.after_all(steps.drop_last()) {
                Some(world) => if world.permits(steps.last()) {
                    Some(world.after(steps.last()))
                } else {
                    None
                },
                None => None,
            }
        }
    }
}

/// Whether every observation is what its link name shows in the world.
pub open spec fn seen_in(world: World, observed: Seq<ObservedView>) -> bool {
    forall|i: int|
        0 <= i < observed.len() ==> world.shows(
            (#[trigger] observed[i]).link_name,
            observed[i].probe,
        )
}

/// Whether every link has a status of the given kind in the world.
pub open spec fn all_in(world: World, observed: Seq<ObservedView>, kind: Kind) -> bool {
    forall|i: int|
        0 <= i < observed.len() ==> kind_of(
            world.status((#[trigger] observed[i]).target, observed[i].link_name),
        ) == kind
}

/// Whether no two links have the same resolved link name.
pub open spec fn distinct_link_names(observed: Seq<ObservedView>) -> bool {
    forall|i: int, j: int|
        0 <= i < j < observed.len() ==> (#[trigger] observed[i]).link_name != (
        #[trigger] observed[j]).link_name
}

/// Whether the path is the resolved link name of one of the first `count`
/// links.
pub open spec fn named_upto(observed: Seq<ObservedView>, count: nat, path: Seq<char>) -> bool {
    exists|i: int| 0 <= i < count && (#[trigger] observed[i]).link_name == path
}

/// Whether nothing is at any of the link names.
pub open spec fn all_absent(world: World, observed: Seq<ObservedView>) -> bool {
    forall|i: int| 0 <= i < observed.len() ==> !world.holds((#[trigger] observed[i]).link_name)
}

/// The world without the symbolic links at the link names of the first
/// `count` links.
pub open spec fn cleaned_upto(world: World, observed: Seq<ObservedView>, count: nat) -> World {
    World {
        nodes: world.nodes.remove_keys(
            Set::new(|path: Seq<char>| world.is_link(path) && named_upto(observed, count, path)),
        ),
    }
}

/// The world with the first `count` links made, one after the other.
pub open spec fn linked_upto(world: World, observed: Seq<ObservedView>, count: nat) -> World
    decreases count,
{
    if count == 0 {
        world
    } else {
        World {
            nodes: linked_upto(world, observed, (count - 1) as nat).nodes.insert(
                observed[count - 1].link_name,
                Node::Symlink(observed[count - 1].target),
            ),
        }
    }
}

/// Taking two runs of steps one after the other is taking them as one run.
pub proof fn lemma_after_all_add(world: World, first: Seq<StepView>, second: Seq<StepView>)
    ensures
        world.after_all(first + second) == match world.after_all(first) {
            Some(between) => between.after_all(second),
            None => None,
        },
    decreases second.len(),
{
    if second.len() == 0 {
        assert(first + second =~= first);
    } else {
        lemma_after_all_add(world, first, second.drop_last());
        assert((first + second).drop_last() =~= first + second.drop_last());
        assert((first + second).last() == second.last());
    }
}

/// Steps that only print leave the world as it is.
pub proof fn lemma_announcing_changes_nothing(world: World, steps: Seq<StepView>)
    requires
        only_announces(steps),
    ensures
        world.after_all(steps) == Some(world),
    decreases steps.len(),
{
    if steps.len() > 0 {
        assert forall|i: int| 0 <= i < steps.drop_last().len() implies !is_mutation(
            #[trigger] steps.drop_last()[i],
        ) by {
            assert(steps.drop_last()[i] == steps[i]);
        }
        lemma_announcing_changes_nothing(world, steps.drop_last());
        assert(steps.last() == steps[steps.len() - 1]);
    }
}

/// The status that a look at the world classifies to is that of the world.
pub proof fn lemma_status_of_probe(
    world: World,
    target: Seq<char>,
    link_name: Seq<char>,
    probe: ProbeView,
)
    requires
        world.shows(link_name, probe),
    ensures
        classification(target, probe) == world.status(target, link_name),
{
}

/// The world after a line is printed and then, perhaps, one step is taken.
proof fn lemma_after_one(world: World, line: StepView, change: Option<StepView>)
    requires
        line is Announce,
    ensures
        world.after_all(
            seq![line] + match change {
                Some(step) => seq![step],
                None => Seq::empty(),
            },
        ) == match change {
            Some(step) => if world.permits(step) {
                Some(world.after(step))
            } else {
                None
            },
            None => Some(world),
        },
{
    let announced = seq![line];
    assert(announced.drop_last() =~= Seq::<StepView>::empty());
    assert(world.after_all(announced.drop_last()) == Some(world));
    assert(world.after_all(announced) == Some(world));
    match change {
        Some(step) => {
            let both = announced + seq![step];
            assert(both.drop_last() =~= announced);
            assert(both.last() == step);
        },
        None => {
            assert(announced + Seq::<StepView>::empty() =~= announced);
        },
    }
}

/// The steps of the `clean` pass for the first `count` links can all be
/// taken, and they remove the symbolic links at their link names and
/// nothing else, also where two links have one link name.
pub proof fn lemma_clean_pass(world: World, observed: Seq<ObservedView>, count: nat)
    requires
        seen_in(world, observed),
        count <= observed.len(),
    ensures
        world.after_all(steps_upto(Pass::Clean, false, observed, count)) == Some(
            cleaned_upto(world, observed, count),
        ),
    decreases count,
{
    if count > 0 {
        let index = count - 1;
        let last = observed[index];
        let path = last.link_name;
        let before = cleaned_upto(world, observed, index as nat);
        let after = cleaned_upto(world, observed, count);
        lemma_clean_pass(world, observed, index as nat);
        lemma_after_all_add(
            world,
            steps_upto(Pass::Clean, false, observed, index as nat),
            steps_at(Pass::Clean, false, observed, index),
        );
        assert(world.shows(path, last.probe));
        assert(named_upto(observed, count, path));
        if removed_earlier(observed, index) {
            let earlier = choose|earlier: int|
                0 <= earlier < index && (#[trigger] observed[earlier]).link_name == path
                    && observed[earlier].probe.is_symlink();
            assert(observed[earlier].link_name == path);
            assert(named_upto(observed, index as nat, path));
        } else if named_upto(observed, index as nat, path) {
            let earlier = choose|i: int| 0 <= i < index && (#[trigger] observed[i]).link_name == path;
            assert(world.shows(observed[earlier].link_name, observed[earlier].probe));
            assert(!last.probe.is_symlink());
        }
        assert forall|other: Seq<char>| other != path implies named_upto(observed, count, other)
            == named_upto(observed, index as nat, other) by {
            if named_upto(observed, count, other) {
                let i = choose|i: int| 0 <= i < count && (#[trigger] observed[i]).link_name == other;
                assert(i < index);
            }
            if named_upto(observed, index as nat, other) {
                let i = choose|i: int| 0 <= i < index && (#[trigger] observed[i]).link_name == other;
                assert(observed[i].link_name == other);
            }
        }
        let change = if last.probe.is_symlink() && !removed_earlier(observed, index) {
            Some(StepView::Remove(path))
        } else {
            None
        };
        lemma_after_one(before, StepView::Announce(arrow_line(last.link)), change);
        assert(steps_at(Pass::Clean, false, observed, index) == seq![
            StepView::Announce(arrow_line(last.link)),
        ] + match change {
            Some(step) => seq![step],
            None => Seq::empty(),
        });
        if change is Some {
            assert(before.is_link(path));
            assert(after.nodes =~= before.nodes.remove(path));
            assert(after == before.after(StepView::Remove(path)));
        } else {
            assert(after.nodes =~= before.nodes);
            assert(after == before);
        }
    } else {
        assert(cleaned_upto(world, observed, 0).nodes =~= world.nodes);
    }
}

/// The steps of the `create` pass for the first `count` links can all be
/// taken where nothing is at any link name and no two link names are the
/// same, and they put every link in place and change nothing else.
pub proof fn lemma_create_pass(world: World, observed: Seq<ObservedView>, count: nat)
    requires
        all_absent(world, observed),
        distinct_link_names(observed),
        count <= observed.len(),
    ensures
        world.after_all(steps_upto(Pass::Create, false, observed, count)) == Some(
            linked_upto(world, observed, count),
        ),
        forall|i: int|
            0 <= i < count ==> {
                let link_name = (#[trigger] observed[i]).link_name;
                &&& linked_upto(world, observed, count).holds(link_name)
                &&& linked_upto(world, observed, count).nodes[link_name] == Node::Symlink(
                    observed[i].target,
                )
            },
        forall|path: Seq<char>|
            !named_upto(observed, count, path) ==> (#[trigger] linked_upto(
                world,
                observed,
                count,
            ).holds(path)) == world.holds(path),
    decreases count,
{
    if count > 0 {
        let index = count - 1;
        let last = observed[index];
        let path = last.link_name;
        let before = linked_upto(world, observed, index as nat);
        let after = linked_upto(world, observed, count);
        lemma_create_pass(world, observed, index as nat);
        lemma_after_all_add(
            world,
            steps_upto(Pass::Create, false, observed, index as nat),
            steps_at(Pass::Create, false, observed, index),
        );
        assert(!named_upto(observed, index as nat, path)) by {
            if named_upto(observed, index as nat, path) {
                let i = choose|i: int| 0 <= i < index && (#[trigger] observed[i]).link_name == path;
                assert(observed[i].link_name != observed[index].link_name);
            }
        }
        assert(!world.holds(path));
        assert(before.holds(path) == world.holds(path));
        lemma_after_one(
            before,
            StepView::Announce(arrow_line(last.link)),
            Some(StepView::Create { link_name: path, target: last.target }),
        );
        assert forall|i: int| 0 <= i < count implies {
            let link_name = (#[trigger] observed[i]).link_name;
            &&& after.holds(link_name)
            &&& after.nodes[link_name] == Node::Symlink(observed[i].target)
        } by {
            if i < index {
                assert(observed[i].link_name != observed[index].link_name);
            }
        }
        assert forall|other: Seq<char>| !named_upto(observed, count, other) implies (
        #[trigger] after.holds(other)) == world.holds(other) by {
            assert(other != path);
            if named_upto(observed, index as nat, other) {
                let i = choose|i: int| 0 <= i < index && (#[trigger] observed[i]).link_name == other;
                assert(observed[i].link_name == other);
            }
            assert(before.holds(other) == world.holds(other));
        }
    }
}

} // verus!
