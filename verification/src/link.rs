//! A declared link, what was found at its link name, and how the two compare.

use crate::step::{Step, StepView};
use vstd::prelude::*;

verus! {

/// A declared symbolic link: `link_name` is to point at `target`.
///
/// Both are path specifications, in which `~` at the start and `$NAME`
/// anywhere are still to be expanded.
#[derive(Debug, Clone)]
pub struct Link {
    /// What the link is to point at.
    pub target: String,
    /// Where the link is to be.
    pub link_name: String,
    /// Whether the link belongs to the superuser. It is carried along and
    /// decides nothing here.
    pub root: bool,
}

/// The mathematical value of a [`Link`].
pub struct LinkView {
    pub target: Seq<char>,
    pub link_name: Seq<char>,
    pub root: bool,
}

impl View for Link {
    type V = LinkView;

    open spec fn view(&self) -> LinkView {
        LinkView { target: self.target@, link_name: self.link_name@, root: self.root }
    }
}

/// The value of `root` where a declaration leaves it out.
pub fn default_root() -> (root: bool)
    ensures
        !root,
{
    false
}

/// How a link name on disk compares with what was declared for it.
#[derive(Debug, Clone, PartialEq, Eq)]
pub enum LinkStatus {
    /// A symbolic link that holds the declared target.
    Correct,
    /// A symbolic link that holds something else: the target it does hold.
    Incorrect(String),
    /// Something is there, and it is no symbolic link.
    NotSymlink,
    /// Nothing is there.
    Missing,
    /// A symbolic link whose target could not be read: the diagnostic.
    Error(String),
}

/// The mathematical value of a [`LinkStatus`].
pub enum StatusView {
    Correct,
    Incorrect(Seq<char>),
    NotSymlink,
    Missing,
    Error(Seq<char>),
}

impl View for LinkStatus {
    type V = StatusView;

    open spec fn view(&self) -> StatusView {
        match self {
            LinkStatus::Correct => StatusView::Correct,
            LinkStatus::Incorrect(actual) => StatusView::Incorrect(actual@),
            LinkStatus::NotSymlink => StatusView::NotSymlink,
            LinkStatus::Missing => StatusView::Missing,
            LinkStatus::Error(message) => StatusView::Error(message@),
        }
    }
}

/// What three looks at a resolved link name found: whether anything is at
/// the path itself, whether the path itself is a symbolic link, and what
/// reading the link gave. No look follows a symbolic link, so a link whose
/// target is gone is there like any other.
///
/// A path that is a symbolic link has something at it: every probe says
/// that something is there where it says that a link is there.
#[derive(Debug)]
pub struct LinkProbe {
    present: bool,
    is_symlink: bool,
    read_link: Result<String, String>,
}

/// The mathematical value of a [`LinkProbe`]: what is at the link name
/// itself. What reading gave where no link is there plays no part and is
/// not held.
pub enum ProbeView {
    /// Nothing is at the path.
    Absent,
    /// Something is at the path, and it is no symbolic link.
    Occupied,
    /// A symbolic link is at the path: the target stored in it, not followed
    /// further, or the diagnostic of the read that failed.
    Link(Result<Seq<char>, Seq<char>>),
}

impl ProbeView {
    /// Whether anything is at the path itself, a symbolic link not followed.
    pub open spec fn present(self) -> bool {
        !(self is Absent)
    }

    /// Whether the path itself is a symbolic link.
    pub open spec fn is_symlink(self) -> bool {
        self is Link
    }
}

/// The value of a text or of the diagnostic in its place.
pub open spec fn text_result(read: Result<String, String>) -> Result<Seq<char>, Seq<char>> {
    match read {
        Ok(text) => Ok(text@),
        Err(message) => Err(message@),
    }
}

/// The value of the probe that three looks make: a look that found a
/// symbolic link found something, whatever the look for presence says.
pub open spec fn probe_of(
    present: bool,
    is_symlink: bool,
    read_link: Result<Seq<char>, Seq<char>>,
) -> ProbeView {
    if is_symlink {
        ProbeView::Link(read_link)
    } else if present {
        ProbeView::Occupied
    } else {
        ProbeView::Absent
    }
}

impl View for LinkProbe {
    type V = ProbeView;

    closed spec fn view(&self) -> ProbeView {
        probe_of(self.present, self.is_symlink, text_result(self.read_link))
    }
}

impl LinkProbe {
    #[verifier::type_invariant]
    spec fn link_is_there(&self) -> bool {
        self.is_symlink ==> self.present
    }

    /// Puts the three looks together. A look that found a symbolic link
    /// found something: where `is_symlink` holds, the probe says that
    /// something is there, whatever `present` says.
    pub fn new(present: bool, is_symlink: bool, read_link: Result<String, String>) -> (probe:
        LinkProbe)
        ensures
            probe@ == probe_of(present, is_symlink, text_result(read_link)),
    {
        LinkProbe { present: present || is_symlink, is_symlink, read_link }
    }

    /// Whether anything is at the path itself.
    pub fn is_present(&self) -> (present: bool)
        ensures
            present == self@.present(),
    {
        proof {
            use_type_invariant(self);
        }
        self.present
    }

    /// Whether the path itself is a symbolic link.
    pub fn is_symlink(&self) -> (is_symlink: bool)
        ensures
            is_symlink == self@.is_symlink(),
    {
        self.is_symlink
    }

    /// What reading the link gave.
    pub fn read_link(&self) -> (read: &Result<String, String>)
        ensures
            self@ matches ProbeView::Link(stored) ==> text_result(*read) == stored,
    {
        &self.read_link
    }
}

/// Whether two texts are equal as paths, as `std::path::Path` compares them.
pub uninterp spec fn same_path(left: Seq<char>, right: Seq<char>) -> bool;

/// Whether a stored target is the declared one: the same text, or another
/// text for the same path.
pub open spec fn points_at(stored: Seq<char>, target: Seq<char>) -> bool {
    stored == target || same_path(stored, target)
}

/// The status of a link whose resolved target is `target`, given what was
/// found at its resolved link name. Whether anything is at the target
/// plays no part.
pub open spec fn classification(target: Seq<char>, probe: ProbeView) -> StatusView {
    match probe {
        ProbeView::Absent => StatusView::Missing,
        ProbeView::Occupied => StatusView::NotSymlink,
        ProbeView::Link(Ok(stored)) => if points_at(stored, target) {
            StatusView::Correct
        } else {
            StatusView::Incorrect(stored)
        },
        ProbeView::Link(Err(message)) => StatusView::Error(message),
    }
}

/// What holds of a status and the probe it was made from, whatever the target.
pub open spec fn agrees_with(status: StatusView, probe: ProbeView) -> bool {
    match probe {
        ProbeView::Absent => status is Missing,
        ProbeView::Occupied => status is NotSymlink,
        ProbeView::Link(Ok(stored)) => status is Correct || status == StatusView::Incorrect(
            stored,
        ),
        ProbeView::Link(Err(message)) => status == StatusView::Error(message),
    }
}

/// Compares two paths with `==` of `std::path::Path`, which compares them
/// component by component. The result is named [`same_path`]; beyond the name
/// the contract states only that a path equals itself.
#[verifier::external_body]
fn paths_match(left: &str, right: &str) -> (same: bool)
    ensures
        same == same_path(left@, right@),
        left@ == right@ ==> same,
{
    std::path::Path::new(left) == std::path::Path::new(right)
}

/// The status that a probe gives once it is known whether the stored target
/// is the declared one. `same` is looked at only where the probe found a
/// symbolic link and read it.
pub fn status_from(probe: &LinkProbe, same: bool) -> (status: LinkStatus)
    ensures
        status@ == match probe@ {
            ProbeView::Absent => StatusView::Missing,
            ProbeView::Occupied => StatusView::NotSymlink,
            ProbeView::Link(Ok(stored)) => if same {
                StatusView::Correct
            } else {
                StatusView::Incorrect(stored)
            },
            ProbeView::Link(Err(message)) => StatusView::Error(message),
        },
{
    if !probe.is_present() {
        LinkStatus::Missing
    } else if !probe.is_symlink() {
        LinkStatus::NotSymlink
    } else {
        match probe.read_link() {
            Ok(stored) => {
                if same {
                    LinkStatus::Correct
                } else {
                    LinkStatus::Incorrect(stored.clone())
                }
            },
            Err(message) => LinkStatus::Error(message.clone()),
        }
    }
}

/// Classifies a link from its resolved target and the probe of its resolved
/// link name. Looks at nothing else and changes nothing.
///
/// Whether anything is at the target plays no part: a symbolic link that
/// holds the declared target is correct, and one that holds another is
/// incorrect, also where the target is gone.
pub fn classify(target: &str, probe: &LinkProbe) -> (status: LinkStatus)
    ensures
        status@ == classification(target@, probe@),
        agrees_with(status@, probe@),
        !probe@.present() ==> status is Missing,
        probe@.present() && !probe@.is_symlink() ==> status is NotSymlink,
        probe@ matches ProbeView::Link(Ok(stored)) ==> (if points_at(stored, target@) {
            status is Correct
        } else {
            status@ == StatusView::Incorrect(stored)
        }),
        probe@ matches ProbeView::Link(Err(message)) ==> status@ == StatusView::Error(message),
{
    let same = match probe.read_link() {
        Ok(stored) => probe.is_symlink() && paths_match(stored.as_str(), target),
        Err(_) => false,
    };
    status_from(probe, same)
}

/// A path specification that expansion cannot fail on: it names no variable.
pub open spec fn names_no_variable(spec: Seq<char>) -> bool {
    !spec.contains('$')
}

/// A path specification that expansion leaves as it is: it names no variable
/// and does not begin with `~`.
pub open spec fn is_literal(spec: Seq<char>) -> bool {
    names_no_variable(spec) && (spec.len() == 0 || spec[0] != '~')
}

/// A resolution that succeeded with the given text.
pub open spec fn is_ok_text(resolved: Result<String, String>, text: Seq<char>) -> bool {
    resolved matches Ok(p) && p@ == text
}

/// Expands `~` and environment variables in a path specification.
///
/// Calls `shellexpand::full`, which reads the environment and the home
/// directory, so the contract states only what holds whatever they are: a
/// specification without `$` always expands, and one that in addition does
/// not begin with `~` expands to itself. On failure the error is the name of
/// the variable that could not be looked up.
#[verifier::external_body]
fn resolve_path(path: &str) -> (resolved: Result<String, String>)
    ensures
        names_no_variable(path@) ==> resolved is Ok,
        is_literal(path@) ==> is_ok_text(resolved, path@),
{
    match shellexpand::full(path) {
        Ok(p) => Ok(p.into_owned()),
        Err(e) => Err(e.var_name),
    }
}

/// What a check comes to for each way the two resolutions can end: the
/// failure of the target, else the failure of the link name, else the
/// status against the resolved target.
pub fn check_resolved(
    target: Result<String, String>,
    link_name: Result<String, String>,
    probe: &LinkProbe,
) -> (checked: Result<LinkStatus, String>)
    ensures
        match (target, link_name) {
            (Err(variable), _) => checked matches Err(e) && e@ == variable@,
            (Ok(_), Err(variable)) => checked matches Err(e) && e@ == variable@,
            (Ok(target), Ok(_)) => checked matches Ok(status) && status@ == classification(
                target@,
                probe@,
            ),
        },
{
    match target {
        Err(variable) => Err(variable),
        Ok(target) => match link_name {
            Err(variable) => Err(variable),
            Ok(_) => Ok(classify(target.as_str(), probe)),
        },
    }
}

/// The step that makes a link, for each way the two resolutions can end:
/// the failure of the target, else the failure of the link name, else the
/// step with both resolved paths.
pub fn create_resolved(target: Result<String, String>, link_name: Result<String, String>) -> (made:
    Result<Step, String>)
    ensures
        match (target, link_name) {
            (Err(variable), _) => made matches Err(e) && e@ == variable@,
            (Ok(_), Err(variable)) => made matches Err(e) && e@ == variable@,
            (Ok(target), Ok(link_name)) => made matches Ok(step) && step@ == (StepView::Create {
                link_name: link_name@,
                target: target@,
            }),
        },
{
    match target {
        Err(variable) => Err(variable),
        Ok(target) => match link_name {
            Err(variable) => Err(variable),
            Ok(link_name) => Ok(Step::Create { link_name, target }),
        },
    }
}

/// The step that removes a link, for each way the resolution can end: its
/// failure, else the removal of the resolved link name where the probe
/// found a symbolic link there, else no step.
pub fn delete_resolved(link_name: Result<String, String>, probe: &LinkProbe) -> (removed: Result<
    Option<Step>,
    String,
>)
    ensures
        match link_name {
            Err(variable) => removed matches Err(e) && e@ == variable@,
            Ok(link_name) => if probe@.is_symlink() {
                removed matches Ok(Some(step)) && step@ == StepView::Remove(link_name@)
            } else {
                removed matches Ok(None)
            },
        },
{
    match link_name {
        Err(variable) => Err(variable),
        Ok(link_name) => {
            if probe.is_symlink() {
                Ok(Some(Step::Remove(link_name)))
            } else {
                Ok(None)
            }
        },
    }
}

impl Link {
    /// The link name with `~` and variables expanded, or the name of the
    /// variable that could not be looked up.
    pub fn resolved_link_name(&self) -> (resolved: Result<String, String>)
        ensures
            names_no_variable(self.link_name@) ==> resolved is Ok,
            is_literal(self.link_name@) ==> is_ok_text(resolved, self.link_name@),
    {
        resolve_path(self.link_name.as_str())
    }

    /// The target with `~` and variables expanded, or the name of the
    /// variable that could not be looked up.
    pub fn resolved_target(&self) -> (resolved: Result<String, String>)
        ensures
            names_no_variable(self.target@) ==> resolved is Ok,
            is_literal(self.target@) ==> is_ok_text(resolved, self.target@),
    {
        resolve_path(self.target.as_str())
    }

    /// Classifies this link from the probe of its resolved link name.
    ///
    /// Both path specifications are resolved. Where a variable could not be
    /// looked up, its name comes back as the error, the target's before
    /// the link name's. What the environment holds decides the resolved
    /// target, so the status is pinned down only as far as it does not
    /// depend on it; [`check_resolved`] says the rest.
    pub fn check_link(&self, probe: &LinkProbe) -> (checked: Result<LinkStatus, String>)
        ensures
            names_no_variable(self.target@) && names_no_variable(self.link_name@) ==> checked is Ok,
            checked is Err ==> !names_no_variable(self.target@) || !names_no_variable(
                self.link_name@,
            ),
            checked matches Ok(status) ==> agrees_with(status@, probe@),
            is_literal(self.target@) && names_no_variable(self.link_name@) ==> (checked matches Ok(
                status,
            ) && status@ == classification(self.target@, probe@)),
    {
        let target = self.resolved_target();
        let link_name = self.resolved_link_name();
        check_resolved(target, link_name, probe)
    }

    /// The step that makes this link. Both path specifications are
    /// resolved, and nothing on disk is looked at; [`create_resolved`] says
    /// what comes back for each way the resolutions can end.
    pub fn create_link(&self) -> (made: Result<Step, String>)
        ensures
            names_no_variable(self.target@) && names_no_variable(self.link_name@) ==> made is Ok,
            made is Err ==> !names_no_variable(self.target@) || !names_no_variable(
                self.link_name@,
            ),
            made matches Ok(step) ==> step is Create,
            is_literal(self.target@) && is_literal(self.link_name@) ==> (made matches Ok(step)
                && step@ == StepView::Create {
                link_name: self.link_name@,
                target: self.target@,
            }),
    {
        let target = self.resolved_target();
        let link_name = self.resolved_link_name();
        create_resolved(target, link_name)
    }

    /// The step that removes this link, if there is one to take: the link
    /// name is removed only where the probe found a symbolic link, and
    /// anything else is left alone. [`delete_resolved`] says what comes
    /// back for each way the resolution can end.
    pub fn delete_link(&self, probe: &LinkProbe) -> (removed: Result<Option<Step>, String>)
        ensures
            names_no_variable(self.link_name@) ==> removed is Ok,
            removed is Err ==> !names_no_variable(self.link_name@),
            removed matches Ok(step) ==> (step is Some <==> probe@.is_symlink()),
            removed matches Ok(Some(step)) ==> step is Remove,
            is_literal(self.link_name@) && probe@.is_symlink() ==> (removed matches Ok(Some(step))
                && step@ == StepView::Remove(self.link_name@)),
    {
        let link_name = self.resolved_link_name();
        delete_resolved(link_name, probe)
    }
}

} // verus!
