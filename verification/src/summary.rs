//! The statuses of a whole set of links, and how many there are of each kind.

use crate::link::{
    classification, classify, Link, LinkProbe, LinkStatus, LinkView, ProbeView, StatusView,
};
use vstd::prelude::*;

verus! {

/// One link as a command sees it: the declaration under its name, its two
/// paths as they were resolved, and what was found at the resolved link name.
///
/// A command takes the observations of all links in the caller's order,
/// which carries no meaning: what is decided does not depend on it. The
/// names are the keys under which the caller holds the links; they are
/// carried through to the report and never compared.
#[derive(Debug)]
pub struct Observed<'a> {
    /// The name under which the link was declared.
    pub name: &'a str,
    /// The link as it was declared.
    pub link: &'a Link,
    /// The link name, resolved.
    pub link_name: String,
    /// The target, resolved.
    pub target: String,
    /// What was found at the resolved link name.
    pub probe: LinkProbe,
}

/// The mathematical value of an [`Observed`].
pub struct ObservedView {
    pub name: Seq<char>,
    pub link: LinkView,
    pub link_name: Seq<char>,
    pub target: Seq<char>,
    pub probe: ProbeView,
}

impl<'a> View for Observed<'a> {
    type V = ObservedView;

    open spec fn view(&self) -> ObservedView {
        ObservedView {
            name: self.name@,
            link: self.link@,
            link_name: self.link_name@,
            target: self.target@,
            probe: self.probe@,
        }
    }
}

/// The values of a sequence of observations.
pub open spec fn observed_views(observed: Seq<Observed>) -> Seq<ObservedView> {
    observed.map_values(|o: Observed| o@)
}

/// A link under its name, with its status.
#[derive(Debug)]
pub struct Entry<'a> {
    pub name: &'a str,
    pub link: &'a Link,
    pub status: LinkStatus,
}

/// The mathematical value of an [`Entry`].
pub struct EntryView {
    pub name: Seq<char>,
    pub link: LinkView,
    pub status: StatusView,
}

impl<'a> View for Entry<'a> {
    type V = EntryView;

    open spec fn view(&self) -> EntryView {
        EntryView { name: self.name@, link: self.link@, status: self.status@ }
    }
}

/// The five kinds of status, without what two of them carry.
#[derive(Debug, Clone, Copy, PartialEq, Eq, Structural)]
pub enum Kind {
    Correct,
    Incorrect,
    NotSymlink,
    Missing,
    Error,
}

/// The kind of a status.
pub open spec fn kind_of(status: StatusView) -> Kind {
    match status {
        StatusView::Correct => Kind::Correct,
        StatusView::Incorrect(_) => Kind::Incorrect,
        StatusView::NotSymlink => Kind::NotSymlink,
        StatusView::Missing => Kind::Missing,
        StatusView::Error(_) => Kind::Error,
    }
}

/// The entry that an observation classifies to.
pub open spec fn entry_of(observed: ObservedView) -> EntryView {
    EntryView {
        name: observed.name,
        link: observed.link,
        status: classification(observed.target, observed.probe),
    }
}

/// The entries of a set of observations, in their order.
pub open spec fn entries_of(observed: Seq<ObservedView>) -> Seq<EntryView> {
    observed.map_values(|o: ObservedView| entry_of(o))
}

/// How many entries have a status of the given kind.
pub open spec fn count(entries: Seq<EntryView>, kind: Kind) -> nat {
    entries.filter(|e: EntryView| kind_of(e.status) == kind).len()
}

/// Whether some entry has a status of the given kind.
pub open spec fn any_of(entries: Seq<EntryView>, kind: Kind) -> bool {
    exists|i: int| 0 <= i < entries.len() && kind_of(#[trigger] entries[i].status) == kind
}

/// Whether every entry has a status of the given kind.
pub open spec fn all_of(entries: Seq<EntryView>, kind: Kind) -> bool {
    forall|i: int| 0 <= i < entries.len() ==> kind_of(#[trigger] entries[i].status) == kind
}

/// A kind is counted at least once exactly when some entry has it.
pub proof fn lemma_count_positive(entries: Seq<EntryView>, kind: Kind)
    ensures
        count(entries, kind) > 0 <==> any_of(entries, kind),
    decreases entries.len(),
{
    if entries.len() == 0 {
        entries.lemma_filter_len(|e: EntryView| kind_of(e.status) == kind);
    } else {
        let front = entries.drop_last();
        let last = entries.last();
        lemma_count_positive(front, kind);
        assert(entries =~= front.push(last));
        lemma_count_push(front, last);
        if any_of(front, kind) {
            let i = choose|i: int|
                0 <= i < front.len() && kind_of(#[trigger] front[i].status) == kind;
            assert(kind_of(entries[i].status) == kind);
        }
        if kind_of(last.status) == kind {
            assert(kind_of(entries[entries.len() - 1].status) == kind);
        }
        if any_of(entries, kind) {
            let i = choose|i: int|
                0 <= i < entries.len() && kind_of(#[trigger] entries[i].status) == kind;
            if i < front.len() {
                assert(kind_of(front[i].status) == kind);
            }
        }
    }
}

/// Every entry is counted under exactly one kind.
pub proof fn lemma_counts_add_up(entries: Seq<EntryView>)
    ensures
        count(entries, Kind::Correct) + count(entries, Kind::Incorrect) + count(
            entries,
            Kind::NotSymlink,
        ) + count(entries, Kind::Missing) + count(entries, Kind::Error) == entries.len(),
    decreases entries.len(),
{
    if entries.len() == 0 {
        assert(entries =~= Seq::empty());
    } else {
        let front = entries.drop_last();
        let last = entries.last();
        lemma_counts_add_up(front);
        assert(entries =~= front.push(last));
        lemma_count_push(front, last);
    }
}

/// One more entry adds one to the count of its kind and leaves the others.
pub proof fn lemma_count_push(entries: Seq<EntryView>, entry: EntryView)
    ensures
        forall|kind: Kind| #[trigger]
            count(entries.push(entry), kind) == count(entries, kind) + if kind_of(entry.status)
                == kind {
                1nat
            } else {
                0nat
            },
{
    assert forall|kind: Kind| #[trigger]
        count(entries.push(entry), kind) == count(entries, kind) + if kind_of(entry.status)
            == kind {
            1nat
        } else {
            0nat
        } by {
        entries.lemma_filter_len_push(|e: EntryView| kind_of(e.status) == kind, entry);
    }
}

/// The values of a sequence of entries.
pub open spec fn entry_views(entries: Seq<Entry>) -> Seq<EntryView> {
    entries.map_values(|e: Entry| e@)
}

/// The entries of a set of links with the number of each kind of status.
///
/// It is made anew for every command by [`statuses`]; its counts always
/// agree with its entries.
#[derive(Debug)]
pub struct Statuses<'a> {
    entries: Vec<Entry<'a>>,
    missing: usize,
    not_symlink: usize,
    correct: usize,
    incorrect: usize,
    error: usize,
}

/// The value of the statuses is the sequence of their entries; the five
/// counts are those of the entries and hold nothing more.
impl<'a> View for Statuses<'a> {
    type V = Seq<EntryView>;

    closed spec fn view(&self) -> Seq<EntryView> {
        entry_views(self.entries@)
    }
}

impl<'a> Statuses<'a> {
    #[verifier::type_invariant]
    spec fn counted(&self) -> bool {
        &&& self.missing == count(self@, Kind::Missing)
        &&& self.not_symlink == count(self@, Kind::NotSymlink)
        &&& self.correct == count(self@, Kind::Correct)
        &&& self.incorrect == count(self@, Kind::Incorrect)
        &&& self.error == count(self@, Kind::Error)
    }

    /// The entries, one for each link, in the order of the observations.
    pub fn entries(&self) -> (entries: &Vec<Entry<'a>>)
        ensures
            entry_views(entries@) == self@,
    {
        &self.entries
    }

    /// How many links there are.
    pub fn len(&self) -> (n: usize)
        ensures
            n == self@.len(),
    {
        self.entries.len()
    }

    /// How many links are missing.
    pub fn missing(&self) -> (n: usize)
        ensures
            n == count(self@, Kind::Missing),
    {
        proof {
            use_type_invariant(self);
        }
        self.missing
    }

    /// How many link names are taken by something that is no symbolic link.
    pub fn not_symlink(&self) -> (n: usize)
        ensures
            n == count(self@, Kind::NotSymlink),
    {
        proof {
            use_type_invariant(self);
        }
        self.not_symlink
    }

    /// How many links are correct.
    pub fn correct(&self) -> (n: usize)
        ensures
            n == count(self@, Kind::Correct),
    {
        proof {
            use_type_invariant(self);
        }
        self.correct
    }

    /// How many links point elsewhere.
    pub fn incorrect(&self) -> (n: usize)
        ensures
            n == count(self@, Kind::Incorrect),
    {
        proof {
            use_type_invariant(self);
        }
        self.incorrect
    }

    /// How many links could not be read.
    pub fn error(&self) -> (n: usize)
        ensures
            n == count(self@, Kind::Error),
    {
        proof {
            use_type_invariant(self);
        }
        self.error
    }
}

/// Classifies every observed link and counts the statuses by kind.
pub fn statuses<'a>(observed: &Vec<Observed<'a>>) -> (summary: Statuses<'a>)
    ensures
        summary@ == entries_of(observed_views(observed@)),
{
    let mut entries: Vec<Entry<'a>> = Vec::new();
    let mut missing: usize = 0;
    let mut not_symlink: usize = 0;
    let mut correct: usize = 0;
    let mut incorrect: usize = 0;
    let mut error: usize = 0;
    let ghost wanted = entries_of(observed_views(observed@));
    let mut i: usize = 0;
    while i < observed.len()
        invariant
            i <= observed.len(),
            wanted == entries_of(observed_views(observed@)),
            entry_views(entries@) == wanted.take(i as int),
            missing == count(entry_views(entries@), Kind::Missing),
            not_symlink == count(entry_views(entries@), Kind::NotSymlink),
            correct == count(entry_views(entries@), Kind::Correct),
            incorrect == count(entry_views(entries@), Kind::Incorrect),
            error == count(entry_views(entries@), Kind::Error),
        decreases observed.len() - i,
    {
        let seen = &observed[i];
        let status = classify(seen.target.as_str(), &seen.probe);
        proof {
            lemma_counts_add_up(entry_views(entries@));
        }
        match &status {
            LinkStatus::Missing => {
                missing = missing + 1;
            },
            LinkStatus::NotSymlink => {
                not_symlink = not_symlink + 1;
            },
            LinkStatus::Correct => {
                correct = correct + 1;
            },
            LinkStatus::Incorrect(_) => {
                incorrect = incorrect + 1;
            },
            LinkStatus::Error(_) => {
                error = error + 1;
            },
        }
        let entry = Entry { name: seen.name, link: seen.link, status };
        proof {
            lemma_count_push(entry_views(entries@), entry@);
            assert(entry_views(entries@.push(entry)) =~= entry_views(entries@).push(entry@));
            assert(wanted.take(i + 1) =~= wanted.take(i as int).push(entry@));
        }
        entries.push(entry);
        i = i + 1;
    }
    proof {
        assert(wanted.take(i as int) =~= wanted);
    }
    Statuses { entries, missing, not_symlink, correct, incorrect, error }
}

} // verus!
