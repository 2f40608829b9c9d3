//! The report on a set of links: a mark for each link, grouped by kind of
//! status, a few lines on each link that is not correct, and the totals.

use crate::link::{LinkStatus, StatusView};
use crate::summary::{count, entry_views, lemma_counts_add_up, Entry, EntryView, Kind, Statuses};
use crate::text::{decimal, decimal_text, quoted_text, text_debug};
use vstd::prelude::*;
use vstd::string::StringExecFns;

verus! {

/// How a piece of text is to stand out.
#[derive(Debug, Clone, Copy, PartialEq, Eq, Structural)]
pub enum Tone {
    /// Not at all.
    Plain,
    /// As something in order.
    Good,
    /// As something to look at.
    Warn,
    /// As something wrong.
    Bad,
}

/// A piece of text in one tone.
#[derive(Debug, Clone, PartialEq, Eq)]
pub struct Span {
    pub text: String,
    pub tone: Tone,
}

/// The mathematical value of a [`Span`].
pub struct SpanView {
    pub text: Seq<char>,
    pub tone: Tone,
}

impl View for Span {
    type V = SpanView;

    open spec fn view(&self) -> SpanView {
        SpanView { text: self.text@, tone: self.tone }
    }
}

/// The report, part by part as it is printed: the marks on one line, the
/// lines on the links, an empty line, and the totals on one line.
#[derive(Debug, Clone, PartialEq, Eq)]
pub struct Report {
    pub shorthand: Vec<Span>,
    pub longhand: Vec<String>,
    pub totals: Vec<Span>,
}

/// The mathematical value of a [`Report`].
pub struct ReportView {
    pub shorthand: Seq<SpanView>,
    pub longhand: Seq<Seq<char>>,
    pub totals: Seq<SpanView>,
}

/// The values of a sequence of spans.
pub open spec fn span_views(spans: Seq<Span>) -> Seq<SpanView> {
    spans.map_values(|s: Span| s@)
}

/// The values of a sequence of lines.
pub open spec fn line_views(lines: Seq<String>) -> Seq<Seq<char>> {
    lines.map_values(|l: String| l@)
}

impl View for Report {
    type V = ReportView;

    open spec fn view(&self) -> ReportView {
        ReportView {
            shorthand: span_views(self.shorthand@),
            longhand: line_views(self.longhand@),
            totals: span_views(self.totals@),
        }
    }
}

/// The character that stands for a kind of status.
pub open spec fn symbol_of(kind: Kind) -> char {
    match kind {
        Kind::Missing => 'M',
        Kind::NotSymlink => 'S',
        Kind::Correct => '.',
        Kind::Incorrect => 'I',
        Kind::Error => 'E',
    }
}

/// The tone in which a kind of status is shown.
pub open spec fn tone_of(kind: Kind) -> Tone {
    match kind {
        Kind::Missing => Tone::Warn,
        Kind::Correct => Tone::Good,
        Kind::NotSymlink => Tone::Bad,
        Kind::Incorrect => Tone::Bad,
        Kind::Error => Tone::Bad,
    }
}

/// The mark of a kind: its character, in its tone.
pub open spec fn mark_of(kind: Kind) -> SpanView {
    SpanView { text: seq![symbol_of(kind)], tone: tone_of(kind) }
}

/// The mark of a kind, so many times.
pub open spec fn marks(kind: Kind, times: nat) -> Seq<SpanView> {
    Seq::new(times, |i: int| mark_of(kind))
}

/// The marks of all entries, grouped by kind: one mark for each entry that
/// is missing, then one for each that is no symbolic link, that is
/// correct, that points elsewhere, and that could not be read.
pub open spec fn shorthand_of(entries: Seq<EntryView>) -> Seq<SpanView> {
    marks(Kind::Missing, count(entries, Kind::Missing)) + marks(
        Kind::NotSymlink,
        count(entries, Kind::NotSymlink),
    ) + marks(Kind::Correct, count(entries, Kind::Correct)) + marks(
        Kind::Incorrect,
        count(entries, Kind::Incorrect),
    ) + marks(Kind::Error, count(entries, Kind::Error))
}

/// The declared link name and target of an entry, after a line break.
pub open spec fn declared(entry: EntryView) -> Seq<char> {
    "\n\n\t"@ + entry.link.link_name + " -> "@ + entry.link.target
}

/// What the report says of an entry that is not correct, where `shown` is
/// the diagnostic of an error as it is to be shown.
pub open spec fn detail_given(entry: EntryView, shown: Seq<char>) -> Option<Seq<char>> {
    match entry.status {
        StatusView::Correct => None,
        StatusView::Missing => Some(entry.name + ": missing"@ + declared(entry)),
        StatusView::NotSymlink => Some(entry.name + ": is file/not symlink"@ + declared(entry)),
        StatusView::Incorrect(actual) => Some(
            entry.name + ": incorrect"@ + declared(entry) + "; (actual target: "@ + actual + ")"@,
        ),
        StatusView::Error(_) => Some(
            entry.name + ": error"@ + declared(entry) + "; error: "@ + shown,
        ),
    }
}

/// What the report says of an entry that is not correct; the diagnostic of
/// an error is shown as `{:#?}` prints it.
pub open spec fn detail_of(entry: EntryView) -> Option<Seq<char>> {
    detail_given(
        entry,
        match entry.status {
            StatusView::Error(message) => quoted_text(message),
            _ => Seq::empty(),
        },
    )
}

/// The lines of the report for one entry: what is said of it, if anything,
/// and an empty line.
pub open spec fn lines_of(entry: EntryView) -> Seq<Seq<char>> {
    match detail_of(entry) {
        Some(detail) => seq![detail, Seq::empty()],
        None => seq![Seq::empty()],
    }
}

/// A count in the tone of its kind.
pub open spec fn total_of(entries: Seq<EntryView>, kind: Kind) -> SpanView {
    SpanView { text: decimal(count(entries, kind)), tone: tone_of(kind) }
}

/// A piece of plain text.
pub open spec fn plain(text: Seq<char>) -> SpanView {
    SpanView { text, tone: Tone::Plain }
}

/// The line of totals.
pub open spec fn totals_of(entries: Seq<EntryView>) -> Seq<SpanView> {
    seq![
        plain("missing: "@),
        total_of(entries, Kind::Missing),
        plain(", not symlink: "@),
        total_of(entries, Kind::NotSymlink),
        plain(", correct: "@),
        total_of(entries, Kind::Correct),
        plain(", incorrect: "@),
        total_of(entries, Kind::Incorrect),
        plain(", error: "@),
        total_of(entries, Kind::Error),
    ]
}

/// The report on a sequence of entries.
pub open spec fn report_of(entries: Seq<EntryView>) -> ReportView {
    ReportView {
        shorthand: shorthand_of(entries),
        longhand: entries.flat_map(|e: EntryView| lines_of(e)),
        totals: totals_of(entries),
    }
}

/// The mark of a kind.
fn mark(kind: Kind) -> (span: Span)
    ensures
        span@ == mark_of(kind),
{
    let span = match kind {
        Kind::Missing => Span { text: "M".to_owned(), tone: Tone::Warn },
        Kind::NotSymlink => Span { text: "S".to_owned(), tone: Tone::Bad },
        Kind::Correct => Span { text: ".".to_owned(), tone: Tone::Good },
        Kind::Incorrect => Span { text: "I".to_owned(), tone: Tone::Bad },
        Kind::Error => Span { text: "E".to_owned(), tone: Tone::Bad },
    };
    proof {
        reveal_strlit("M");
        reveal_strlit("S");
        reveal_strlit(".");
        reveal_strlit("I");
        reveal_strlit("E");
        assert(span@.text =~= mark_of(kind).text);
    }
    span
}

/// Appends the mark of a kind, so many times.
fn push_marks(kind: Kind, times: usize, spans: &mut Vec<Span>)
    ensures
        span_views(final(spans)@) == span_views(old(spans)@) + marks(kind, times as nat),
{
    let ghost before = span_views(spans@);
    let mut i: usize = 0;
    while i < times
        invariant
            i <= times,
            span_views(spans@) == before + marks(kind, i as nat),
        decreases times - i,
    {
        let span = mark(kind);
        proof {
            assert(before + marks(kind, (i + 1) as nat) =~= (before + marks(kind, i as nat)).push(
                span@,
            ));
        }
        spans.push(span);
        i = i + 1;
    }
}

/// The marks of all entries, grouped by kind.
fn shorthand(summary: &Statuses) -> (spans: Vec<Span>)
    ensures
        span_views(spans@) == shorthand_of(summary@),
{
    let mut spans: Vec<Span> = Vec::new();
    push_marks(Kind::Missing, summary.missing(), &mut spans);
    push_marks(Kind::NotSymlink, summary.not_symlink(), &mut spans);
    push_marks(Kind::Correct, summary.correct(), &mut spans);
    push_marks(Kind::Incorrect, summary.incorrect(), &mut spans);
    push_marks(Kind::Error, summary.error(), &mut spans);
    spans
}

/// What is said of one entry that is not correct, where `shown` is the
/// diagnostic of an error as it is to be shown.
pub fn detail_with(entry: &Entry, shown: &str) -> (text: Option<String>)
    ensures
        match text {
            Some(text) => detail_given(entry@, shown@) == Some(text@),
            None => detail_given(entry@, shown@) is None,
        },
{
    if let LinkStatus::Correct = &entry.status {
        return None;
    }
    let mut text = entry.name.to_owned();
    match &entry.status {
        LinkStatus::Missing => text.append(": missing"),
        LinkStatus::NotSymlink => text.append(": is file/not symlink"),
        LinkStatus::Incorrect(_) => text.append(": incorrect"),
        _ => text.append(": error"),
    }
    text.append("\n\n\t");
    text.append(entry.link.link_name.as_str());
    text.append(" -> ");
    text.append(entry.link.target.as_str());
    match &entry.status {
        LinkStatus::Incorrect(actual) => {
            text.append("; (actual target: ");
            text.append(actual.as_str());
            text.append(")");
        },
        LinkStatus::Error(_) => {
            text.append("; error: ");
            text.append(shown);
        },
        _ => {},
    }
    Some(text)
}

/// What is said of one entry that is not correct.
fn detail(entry: &Entry) -> (text: Option<String>)
    ensures
        match text {
            Some(text) => detail_of(entry@) == Some(text@),
            None => detail_of(entry@) is None,
        },
{
    let shown = match &entry.status {
        LinkStatus::Error(message) => text_debug(message.as_str()),
        _ => String::new(),
    };
    detail_with(entry, shown.as_str())
}

/// A piece of plain text.
fn plain_span(text: &str) -> (span: Span)
    ensures
        span@ == plain(text@),
{
    Span { text: text.to_owned(), tone: Tone::Plain }
}

/// The line of totals.
fn totals(summary: &Statuses) -> (spans: Vec<Span>)
    ensures
        span_views(spans@) == totals_of(summary@),
{
    let mut spans: Vec<Span> = Vec::new();
    spans.push(plain_span("missing: "));
    spans.push(Span { text: decimal_text(summary.missing()), tone: Tone::Warn });
    spans.push(plain_span(", not symlink: "));
    spans.push(Span { text: decimal_text(summary.not_symlink()), tone: Tone::Bad });
    spans.push(plain_span(", correct: "));
    spans.push(Span { text: decimal_text(summary.correct()), tone: Tone::Good });
    spans.push(plain_span(", incorrect: "));
    spans.push(Span { text: decimal_text(summary.incorrect()), tone: Tone::Bad });
    spans.push(plain_span(", error: "));
    spans.push(Span { text: decimal_text(summary.error()), tone: Tone::Bad });
    spans
}

/// The lines on the links, in the order of the entries.
fn longhand(summary: &Statuses) -> (lines: Vec<String>)
    ensures
        line_views(lines@) == summary@.flat_map(|e: EntryView| lines_of(e)),
{
    let entries = summary.entries();
    let mut lines: Vec<String> = Vec::new();
    let ghost all = summary@;
    let ghost each = |e: EntryView| lines_of(e);
    let mut i: usize = 0;
    while i < entries.len()
        invariant
            i <= entries.len(),
            all == entry_views(entries@),
            each == |e: EntryView| lines_of(e),
            line_views(lines@) == all.take(i as int).flat_map(each),
        decreases entries.len() - i,
    {
        proof {
            all.take(i as int).lemma_flat_map_push(each, all[i as int]);
            assert(all.take(i + 1) =~= all.take(i as int).push(all[i as int]));
        }
        match detail(&entries[i]) {
            Some(text) => {
                lines.push(text);
            },
            None => {},
        }
        let blank = String::new();
        lines.push(blank);
        i = i + 1;
    }
    proof {
        assert(all.take(i as int) =~= all);
    }
    lines
}

/// Every link has its mark.
pub proof fn lemma_one_mark_for_each_link(entries: Seq<EntryView>)
    ensures
        shorthand_of(entries).len() == entries.len(),
{
    lemma_counts_add_up(entries);
}

/// Lays out the report on the statuses of a set of links.
pub fn report(summary: &Statuses) -> (laid_out: Report)
    ensures
        laid_out@ == report_of(summary@),
        laid_out.shorthand@.len() == summary@.len(),
{
    let shorthand = shorthand(summary);
    let longhand = longhand(summary);
    let totals = totals(summary);
    proof {
        lemma_one_mark_for_each_link(summary@);
    }
    Report { shorthand, longhand, totals }
}

} // verus!
