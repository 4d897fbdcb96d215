use vstd::prelude::*;

use crate::format::{truncate_status, truncated};
use crate::message::StatusMessage;
use crate::STATUS_CAP;

verus! {

/// What one poll tick has to do with the snapshot it read.
#[derive(Clone, Copy, Debug, PartialEq, Eq, Structural)]
pub enum TickPlan {
    /// The snapshot is empty: send a `Clear`.
    Clear,
    /// The snapshot equals the last one summarized: send nothing.
    Unchanged,
    /// A new snapshot: summarize it, then send the status.
    Summarize,
}

/// The plan for a tick that reads `snapshot` after `last_seen`.
pub open spec fn plan_of(last_seen: Option<Seq<char>>, snapshot: Seq<char>) -> TickPlan {
    if snapshot.len() == 0 {
        TickPlan::Clear
    } else if last_seen == Some(snapshot) {
        TickPlan::Unchanged
    } else {
        TickPlan::Summarize
    }
}

/// The messages that a tick sends, given the summary it would get.
pub open spec fn tick_messages(
    last_seen: Option<Seq<char>>,
    snapshot: Seq<char>,
    summary: Seq<char>,
) -> Seq<Option<Seq<char>>> {
    match plan_of(last_seen, snapshot) {
        TickPlan::Clear => seq![None],
        TickPlan::Unchanged => Seq::empty(),
        TickPlan::Summarize => seq![Some(truncated(summary, STATUS_CAP as nat))],
    }
}

/// The last snapshot seen after a tick.
pub open spec fn tick_last_seen(last_seen: Option<Seq<char>>, snapshot: Seq<char>) -> Option<
    Seq<char>,
> {
    match plan_of(last_seen, snapshot) {
        TickPlan::Summarize => Some(snapshot),
        _ => last_seen,
    }
}

/// Remembers the last non-empty snapshot summarized, so that an unchanged
/// change-set is not summarized again.
pub struct Deduplicator {
    last_seen: Option<String>,
}

impl View for Deduplicator {
    type V = Option<Seq<char>>;

    closed spec fn view(&self) -> Option<Seq<char>> {
        match &self.last_seen {
            Some(s) => Some(s@),
            None => None,
        }
    }
}

impl Deduplicator {
    /// Nothing seen yet.
    pub fn new() -> (r: Deduplicator)
        ensures
            r@ == None::<Seq<char>>,
    {
        Deduplicator { last_seen: None }
    }

    /// The last snapshot summarized, if any.
    pub fn last_seen(&self) -> (r: Option<&String>)
        ensures
            match r {
                Some(s) => self@ == Some(s@),
                None => self@ is None,
            },
    {
        match &self.last_seen {
            Some(s) => Some(s),
            None => None,
        }
    }

    /// Decides what the tick that read `snapshot` does. Nothing is remembered
    /// here: an empty or unchanged snapshot leaves the last one seen as it is.
    pub fn plan(&self, snapshot: &String) -> (r: TickPlan)
        ensures
            r == plan_of(self@, snapshot@),
    {
        if snapshot.as_str().is_empty() {
            return TickPlan::Clear;
        }
        match &self.last_seen {
            Some(s) => {
                if s.eq(snapshot) {
                    TickPlan::Unchanged
                } else {
                    TickPlan::Summarize
                }
            },
            None => TickPlan::Summarize,
        }
    }

    /// Finishes a tick that had to summarize: the status to send is the
    /// summary cut to the protocol's cap, and `snapshot` becomes the last seen.
    pub fn record(&mut self, snapshot: String, summary: &str) -> (r: StatusMessage)
        requires
            plan_of(old(self)@, snapshot@) == TickPlan::Summarize,
        ensures
            final(self)@ == tick_last_seen(old(self)@, snapshot@),
            seq![r@] == tick_messages(old(self)@, snapshot@, summary@),
            r@ == Some(truncated(summary@, STATUS_CAP as nat)),
            final(self)@ == Some(snapshot@),
    {
        let text = truncate_status(summary, STATUS_CAP);
        self.last_seen = Some(snapshot);
        StatusMessage::SetStatus(text)
    }
}

/// An empty snapshot yields exactly one `Clear` and leaves the last snapshot seen unchanged.
pub proof fn lemma_empty_snapshot_clears(
    last_seen: Option<Seq<char>>,
    snapshot: Seq<char>,
    summary: Seq<char>,
)
    requires
        snapshot.len() == 0,
    ensures
        tick_messages(last_seen, snapshot, summary) == seq![None::<Seq<char>>],
        tick_last_seen(last_seen, snapshot) == last_seen,
{
}

/// Of two consecutive ticks that read the same non-empty snapshot, the second
/// sends nothing, whatever the summaries.
pub proof fn lemma_repeat_snapshot_silent(
    last_seen: Option<Seq<char>>,
    snapshot: Seq<char>,
    first_summary: Seq<char>,
    second_summary: Seq<char>,
)
    requires
        snapshot.len() > 0,
    ensures
        tick_messages(tick_last_seen(last_seen, snapshot), snapshot, second_summary)
            == Seq::<Option<Seq<char>>>::empty(),
        tick_last_seen(tick_last_seen(last_seen, snapshot), snapshot) == Some(snapshot),
{
}

/// A non-empty snapshot other than the last one seen yields exactly one
/// `SetStatus`, with the summary cut to the cap, and becomes the last one seen.
pub proof fn lemma_new_snapshot_sets_status(
    last_seen: Option<Seq<char>>,
    snapshot: Seq<char>,
    summary: Seq<char>,
)
    requires
        snapshot.len() > 0,
        last_seen != Some(snapshot),
    ensures
        tick_messages(last_seen, snapshot, summary) == seq![
            Some(truncated(summary, STATUS_CAP as nat)),
        ],
        tick_last_seen(last_seen, snapshot) == Some(snapshot),
{
}

} // verus!
