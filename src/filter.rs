use vstd::prelude::*;

verus! {

/// What a modification event says changed.
#[derive(Clone, Copy, Debug, PartialEq, Eq, Structural)]
pub enum ModifyKind {
    /// The marker that some platforms nest inside a generic modification,
    /// beside a second event for the same edit.
    DataChange,
    MetadataOnly,
    Other,
}

#[derive(Clone, Copy, Debug, PartialEq, Eq, Structural)]
pub enum RawEventKind {
    Created,
    Modified(ModifyKind),
    Removed,
    Other,
}

/// A filesystem event as the watcher reports it.
#[derive(Clone, Debug)]
pub struct RawFsEvent {
    pub kind: RawEventKind,
    pub paths: Vec<String>,
}

/// The outcome of classifying an event: ignore it, or re-read the path it reports.
#[derive(Clone, Debug)]
pub enum FilterDecision {
    Suppress,
    Significant(String),
}

/// A modification, but not the data-change duplicate.
pub open spec fn is_significant_kind(k: RawEventKind) -> bool {
    match k {
        RawEventKind::Modified(m) => m != ModifyKind::DataChange,
        _ => false,
    }
}

/// The path to re-read for an event, if the event stands for an edit.
pub open spec fn significant_path(ev: RawFsEvent) -> Option<Seq<char>> {
    if is_significant_kind(ev.kind) && ev.paths@.len() > 0 {
        Some(ev.paths@[0]@)
    } else {
        None
    }
}

impl FilterDecision {
    pub open spec fn view(&self) -> Option<Seq<char>> {
        match self {
            FilterDecision::Suppress => None,
            FilterDecision::Significant(p) => Some(p@),
        }
    }
}

/// Decides whether an event stands for an edit of the watched file: a generic
/// modification does, the nested data-change duplicate and creations, removals
/// and other events do not. An event that reports no path is suppressed.
pub fn classify(ev: &RawFsEvent) -> (r: FilterDecision)
    ensures
        r.view() == significant_path(*ev),
{
    let significant = match ev.kind {
        RawEventKind::Modified(ModifyKind::DataChange) => false,
        RawEventKind::Modified(_) => true,
        _ => false,
    };
    if significant && ev.paths.len() > 0 {
        FilterDecision::Significant(ev.paths[0].clone())
    } else {
        FilterDecision::Suppress
    }
}

/// How many events of a sequence lead to a re-read and a notification.
pub open spec fn count_significant(evs: Seq<RawFsEvent>) -> nat
    decreases evs.len(),
{
    if evs.len() == 0 {
        0
    } else {
        count_significant(evs.drop_last()) + if significant_path(evs.last()) is Some {
            1nat
        } else {
            0nat
        }
    }
}

/// Counting significant events distributes over concatenation.
pub proof fn lemma_count_concat(a: Seq<RawFsEvent>, b: Seq<RawFsEvent>)
    ensures
        count_significant(a + b) == count_significant(a) + count_significant(b),
    decreases b.len(),
{
    if b.len() == 0 {
        assert(a + b =~= a);
    } else {
        assert((a + b).drop_last() =~= a + b.drop_last());
        lemma_count_concat(a, b.drop_last());
        assert((a + b).last() == b.last());
    }
}

/// A data-change event followed by a generic modification of the same path is one
/// edit: among any events before and after, the pair adds exactly one notification,
/// and it re-reads the path that both report.
pub proof fn lemma_duplicate_pair_counts_once(
    before: Seq<RawFsEvent>,
    first: RawFsEvent,
    second: RawFsEvent,
    after: Seq<RawFsEvent>,
    k: ModifyKind,
)
    requires
        first.kind == RawEventKind::Modified(ModifyKind::DataChange),
        second.kind == RawEventKind::Modified(k),
        k != ModifyKind::DataChange,
        first.paths@.len() > 0,
        second.paths@.len() > 0,
        first.paths@[0]@ == second.paths@[0]@,
    ensures
        count_significant(seq![first, second]) == 1,
        count_significant(before + seq![first, second] + after) == count_significant(before) + 1
            + count_significant(after),
        significant_path(first) is None,
        significant_path(second) == Some(first.paths@[0]@),
{
    let pair = seq![first, second];
    assert(pair.drop_last() =~= seq![first]);
    assert(seq![first].drop_last() =~= Seq::<RawFsEvent>::empty());
    assert(count_significant(Seq::<RawFsEvent>::empty()) == 0);
    assert(seq![first].last() == first);
    assert(pair.last() == second);
    assert(count_significant(seq![first]) == 0);
    assert(count_significant(pair) == 1);
    lemma_count_concat(before, pair);
    lemma_count_concat(before + pair, after);
}

} // verus!
