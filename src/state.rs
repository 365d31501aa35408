//! The query history log and the statistics of the most recent query,
//! owned by one context object that the execution pipeline writes to.

use vstd::prelude::*;

verus! {

/// One attempted query, as the history records it.
#[derive(Clone, Debug)]
pub struct QueryHistoryEntry {
    pub query: String,
    /// The saved connection the query ran on.
    pub connection_name: Option<String>,
    /// When the query ran, in milliseconds since the Unix epoch (UTC).
    pub timestamp: i64,
    pub success: bool,
    pub rows_affected: usize,
    /// Wall-clock time of the query, in milliseconds.
    pub execution_time: u64,
}

/// The row count and elapsed time of the most recent successful query.
#[derive(Clone, Copy, Debug, PartialEq, Eq, Structural)]
pub struct QueryStats {
    pub rows: usize,
    /// In milliseconds.
    pub elapsed: u64,
}

/// Compares two optional strings by their text.
pub open spec fn same_name(a: Option<String>, b: Option<String>) -> bool {
    match (a, b) {
        (Some(x), Some(y)) => x@ == y@,
        (None, None) => true,
        _ => false,
    }
}

fn copy_name(n: &Option<String>) -> (r: Option<String>)
    ensures
        r == *n,
{
    match n {
        Some(s) => Some(s.clone()),
        None => None,
    }
}

impl QueryHistoryEntry {
    /// A field-by-field copy.
    pub fn duplicate(&self) -> (r: QueryHistoryEntry)
        ensures
            r == *self,
    {
        QueryHistoryEntry {
            query: self.query.clone(),
            connection_name: copy_name(&self.connection_name),
            timestamp: self.timestamp,
            success: self.success,
            rows_affected: self.rows_affected,
            execution_time: self.execution_time,
        }
    }
}

/// The entries of `h` that ran on the connection called `name`, in order.
pub open spec fn history_for(h: Seq<QueryHistoryEntry>, name: String) -> Seq<QueryHistoryEntry>
    decreases h.len(),
{
    if h.len() == 0 {
        Seq::empty()
    } else {
        let rest = history_for(h.drop_last(), name);
        if same_name(h.last().connection_name, Some(name)) {
            rest.push(h.last())
        } else {
            rest
        }
    }
}

/// The history log and the most recent query's statistics.
pub struct QueryLog {
    pub stats: Option<QueryStats>,
    pub history: Vec<QueryHistoryEntry>,
}

impl QueryLog {
    /// An empty log without statistics.
    pub fn new() -> (r: QueryLog)
        ensures
            r.stats is None,
            r.history@.len() == 0,
    {
        QueryLog { stats: None, history: Vec::new() }
    }

    /// A log that starts from a history loaded from storage.
    pub fn with_history(history: Vec<QueryHistoryEntry>) -> (r: QueryLog)
        ensures
            r.stats is None,
            r.history == history,
    {
        QueryLog { stats: None, history }
    }

    /// Replaces the statistics of the most recent query.
    pub fn update_query_stats(&mut self, rows: usize, elapsed: u64)
        ensures
            final(self).stats == Some(QueryStats { rows, elapsed }),
            final(self).history == old(self).history,
    {
        self.stats = Some(QueryStats { rows, elapsed });
    }

    /// The statistics of the most recent query, if any ran.
    pub fn get_query_stats(&self) -> (r: Option<QueryStats>)
        ensures
            r == self.stats,
    {
        self.stats
    }

    /// Appends an entry; entries already in the log are left as they are.
    pub fn add_to_history(&mut self, entry: QueryHistoryEntry)
        ensures
            final(self).history@ == old(self).history@.push(entry),
            final(self).stats == old(self).stats,
    {
        self.history.push(entry);
    }

    /// The whole history, or with a connection name only its entries.
    pub fn get_history(&self, connection_name: Option<String>) -> (r: Vec<QueryHistoryEntry>)
        ensures
            r@ == match connection_name {
                Some(name) => history_for(self.history@, name),
                None => self.history@,
            },
    {
        let mut r: Vec<QueryHistoryEntry> = Vec::new();
        let mut i: usize = 0;
        while i < self.history.len()
            invariant
                i <= self.history@.len(),
                r@ == match connection_name {
                    Some(name) => history_for(self.history@.take(i as int), name),
                    None => self.history@.take(i as int),
                },
            decreases self.history@.len() - i,
        {
            let entry = &self.history[i];
            let keep = match (&connection_name, &entry.connection_name) {
                (Some(name), Some(n)) => *n == *name,
                (None, _) => true,
                _ => false,
            };
            proof {
                assert(self.history@.take(i + 1).drop_last() =~= self.history@.take(i as int));
            }
            if keep {
                r.push(entry.duplicate());
            }
            i += 1;
        }
        proof {
            assert(self.history@.take(i as int) =~= self.history@);
        }
        r
    }
}

} // verus!
