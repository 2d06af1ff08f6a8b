//! From what the database gave to the entries of the selection list.

use crate::history::{byte_len, History, Record, Row};
use vstd::prelude::*;

verus! {

/// What one query of the database came to.
#[derive(Debug)]
pub enum Fetched {
    /// The database could not be opened.
    OpenFailed,
    /// The query could not be prepared; the database's own words are kept.
    PrepareFailed(String),
    /// The rows in the order they came; `None` for a row that could not
    /// be decoded.
    Rows(Vec<Option<Row>>),
}

/// One line of the selection list.
#[derive(Debug)]
pub enum Entry {
    /// A command of the history.
    Record(History),
    /// A message in place of results.
    Notice(String),
}

/// An entry as plain values.
pub enum EntryView {
    Record(Record),
    Notice(Seq<char>),
}

impl View for Entry {
    type V = EntryView;

    open spec fn view(&self) -> EntryView {
        match self {
            Entry::Record(history) => EntryView::Record(history@),
            Entry::Notice(text) => EntryView::Notice(text@),
        }
    }
}

/// The message shown where the database cannot be opened.
pub open spec fn open_failure_notice() -> Seq<char> {
    "Cannot open database"@
}

/// The message shown where the query cannot be prepared.
pub open spec fn prepare_failure_notice(reason: Seq<char>) -> Seq<char> {
    "Cannot get result from database "@ + reason
}

/// The entries for the first `n` of `rows`: one record for each row that
/// was decoded, in the order of the rows; the others leave no trace.
pub open spec fn records_of(rows: Seq<Option<Row>>, n: nat) -> Seq<EntryView>
    decreases n,
{
    if n == 0 {
        Seq::empty()
    } else {
        match rows[n - 1] {
            Some(row) => records_of(rows, (n - 1) as nat).push(EntryView::Record(row@)),
            None => records_of(rows, (n - 1) as nat),
        }
    }
}

/// The entries that the selection list is fed.
pub open spec fn entries_of(fetched: Fetched) -> Seq<EntryView> {
    match fetched {
        Fetched::OpenFailed => seq![EntryView::Notice(open_failure_notice())],
        Fetched::PrepareFailed(reason) => seq![EntryView::Notice(prepare_failure_notice(reason@))],
        Fetched::Rows(rows) => records_of(rows@, rows@.len()),
    }
}

/// Whether the match window of every row can be computed.
pub open spec fn windows_fit(fetched: Fetched) -> bool {
    fetched matches Fetched::Rows(rows) ==> forall|i: int|
        0 <= i < rows@.len() ==> (#[trigger] rows@[i] matches Some(row) ==> byte_len(row.cmd@) + 11
            <= usize::MAX)
}

/// The views of a list of entries.
pub open spec fn views_of(entries: Seq<Entry>) -> Seq<EntryView> {
    Seq::new(entries.len(), |i: int| entries[i]@)
}

/// Turns the outcome of a query into the entries of the selection list.
///
/// A failure to open the database or to prepare the query becomes a single
/// notice. Otherwise every decoded row becomes a record with its match
/// window, in the order of the rows, and the rows that could not be decoded
/// are skipped.
pub fn read_entries(fetched: Fetched) -> (entries: Vec<Entry>)
    requires
        windows_fit(fetched),
    ensures
        views_of(entries@) == entries_of(fetched),
        forall|i: int|
            0 <= i < entries@.len() ==> (#[trigger] entries@[i] matches Entry::Record(history)
                ==> history.wf()),
{
    let mut entries: Vec<Entry> = Vec::new();
    match fetched {
        Fetched::OpenFailed => {
            entries.push(Entry::Notice(String::from_str("Cannot open database")));
            proof {
                assert(views_of(entries@) =~= entries_of(fetched));
            }
        },
        Fetched::PrepareFailed(reason) => {
            let mut notice = String::from_str("Cannot get result from database ");
            notice.append(reason.as_str());
            entries.push(Entry::Notice(notice));
            proof {
                assert(views_of(entries@) =~= entries_of(fetched));
            }
        },
        Fetched::Rows(rows) => {
            let ghost all = rows@;
            for decoded in rows_left: rows
                invariant
                    rows_left.seq() == all,
                    forall|i: int|
                        0 <= i < all.len() ==> (#[trigger] all[i] matches Some(row) ==> byte_len(
                            row.cmd@,
                        ) + 11 <= usize::MAX),
                    views_of(entries@) == records_of(all, rows_left.index() as nat),
                    forall|i: int|
                        0 <= i < entries@.len() ==> (#[trigger] entries@[i] matches Entry::Record(
                            history,
                        ) ==> history.wf()),
            {
                let ghost shown = views_of(entries@);
                let ghost kept = entries@;
                match decoded {
                    Some(row) => {
                        let history = History::new(row);
                        entries.push(Entry::Record(history));
                        proof {
                            assert(views_of(entries@) =~= shown.push(EntryView::Record(row@)));
                            assert forall|i: int| 0 <= i < entries@.len() implies (
                            #[trigger] entries@[i] matches Entry::Record(history)
                                ==> history.wf()) by {
                                if i < kept.len() {
                                    assert(entries@[i] == kept[i]);
                                }
                            }
                        }
                    },
                    None => {},
                }
            }
        },
    }
    entries
}

} // verus!
