//! Decisions that the drawing code takes from the model: which data columns
//! fit the table's width, and which schema node a tree identifier names.

use vstd::prelude::*;
use vstd::string::*;

verus! {

/// The width of the row-number column.
pub const NUMBER_COLUMN_WIDTH: u16 = 4;

/// The total of the first `k` widths of `w`.
pub open spec fn width_sum(w: Seq<u16>, k: nat) -> int
    decreases k,
{
    if k == 0 || k > w.len() {
        0
    } else {
        width_sum(w, (k - 1) as nat) + w[k - 1] as int
    }
}

/// The first `k` columns from `start` fit beside the number column within `available`.
pub open spec fn columns_fit(w: Seq<u16>, start: int, k: nat, available: int) -> bool {
    NUMBER_COLUMN_WIDTH + width_sum(w.skip(start), k) <= available
}

/// The width inside a table `area_width` wide, one column kept for the border.
pub open spec fn available_width(area_width: u16) -> int {
    if area_width > 0 {
        area_width - 1
    } else {
        0
    }
}

/// How many data columns, from the first one shown, fit in a table `area_width`
/// wide: as many as fit whole beside the number column, one column being
/// kept for the border.
pub fn visible_columns(widths: &Vec<u16>, horizontal_scroll: usize, area_width: u16) -> (r: usize)
    ensures
        horizontal_scroll >= widths@.len() ==> r == 0,
        horizontal_scroll < widths@.len() ==> {
            let available = available_width(area_width);
            &&& r <= widths@.len() - horizontal_scroll
            &&& (r == 0 || columns_fit(widths@, horizontal_scroll as int, r as nat, available))
            &&& (horizontal_scroll + r == widths@.len() || !columns_fit(
                widths@,
                horizontal_scroll as int,
                (r + 1) as nat,
                available,
            ))
        },
{
    let n = widths.len();
    if horizontal_scroll >= n {
        return 0;
    }
    let available: u64 = if area_width > 0 { (area_width - 1) as u64 } else { 0 };
    assert(available as int == available_width(area_width));
    let ghost w = widths@.skip(horizontal_scroll as int);
    let mut total: u64 = 0;
    let mut k: usize = 0;
    while horizontal_scroll + k < n
        invariant
            horizontal_scroll < n,
            n == widths@.len(),
            w == widths@.skip(horizontal_scroll as int),
            horizontal_scroll + k <= n,
            total as int == width_sum(w, k as nat),
            total <= available,
            available < 65536,
            available as int == available_width(area_width),
            k == 0 || columns_fit(widths@, horizontal_scroll as int, k as nat, available as int),
        decreases n - horizontal_scroll - k,
    {
        let next = widths[horizontal_scroll + k] as u64;
        proof {
            assert(w[k as int] == widths@[horizontal_scroll + k]);
            assert(width_sum(w, (k + 1) as nat) == width_sum(w, k as nat) + w[k as int] as int);
        }
        if NUMBER_COLUMN_WIDTH as u64 + total + next > available {
            proof {
                assert(w.len() == n - horizontal_scroll);
                assert(!columns_fit(widths@, horizontal_scroll as int, (k + 1) as nat, available as int));
            }
            return k;
        }
        total = total + next;
        k += 1;
    }
    k
}

/// The node of the schema tree that an identifier names.
pub enum SidebarTarget {
    Database(String),
    Table { database: String, table: String },
    Other,
}

/// The text up to the first `_`, or all of it.
pub open spec fn segment(s: Seq<char>) -> Seq<char>
    decreases s.len(),
{
    if s.len() == 0 || s[0] == '_' {
        Seq::empty()
    } else {
        seq![s[0]] + segment(s.drop_first())
    }
}

/// A segment is never longer than its text.
pub proof fn lemma_segment_len(s: Seq<char>)
    ensures
        segment(s).len() <= s.len(),
    decreases s.len(),
{
    if s.len() > 0 && s[0] != '_' {
        lemma_segment_len(s.drop_first());
    }
}

/// The text after the first `_`; empty when there is none.
pub open spec fn after_segment(s: Seq<char>) -> Seq<char> {
    if segment(s).len() < s.len() {
        s.skip(segment(s).len() as int + 1)
    } else {
        Seq::empty()
    }
}

fn split_at_underscore(s: &str) -> (r: (String, Option<String>))
    ensures
        r.0@ == segment(s@),
        segment(s@).len() < s@.len() ==> (r.1 matches Some(t) && t@ == after_segment(s@)),
        segment(s@).len() == s@.len() ==> r.1 is None,
{
    let ghost v = s@;
    let n = s.unicode_len();
    let mut i: usize = 0;
    let mut more = n > 0 && s.get_char(0) != '_';
    proof {
        assert(v.subrange(0, n as int) =~= v);
        assert(v.subrange(0, 0) + segment(v.subrange(0, n as int)) =~= segment(v));
    }
    while more
        invariant
            n == v.len(),
            v == s@,
            i <= n,
            more ==> i < n && v[i as int] != '_',
            !more ==> i == n || v[i as int] == '_',
            segment(v) == v.subrange(0, i as int) + segment(v.subrange(i as int, n as int)),
        decreases n - i,
    {
        proof {
            let rest = v.subrange(i as int, n as int);
            assert(rest.drop_first() =~= v.subrange(i + 1, n as int));
            assert(rest[0] == v[i as int]);
            assert(v.subrange(0, i + 1) =~= v.subrange(0, i as int) + seq![v[i as int]]);
            assert(v.subrange(0, i as int) + (seq![v[i as int]] + segment(v.subrange(i + 1, n as int)))
                =~= v.subrange(0, i + 1) + segment(v.subrange(i + 1, n as int)));
        }
        i += 1;
        more = i < n && s.get_char(i) != '_';
    }
    proof {
        assert(segment(v.subrange(i as int, n as int)) =~= Seq::<char>::empty());
        assert(v.subrange(0, i as int) + Seq::<char>::empty() =~= v.subrange(0, i as int));
    }
    let head = String::from_str(s.substring_char(0, i));
    if i < n {
        (head, Some(String::from_str(s.substring_char(i + 1, n))))
    } else {
        (head, None)
    }
}

/// `prefix` starts `s`.
pub open spec fn starts_with(s: Seq<char>, prefix: Seq<char>) -> bool {
    prefix.len() <= s.len() && s.take(prefix.len() as int) == prefix
}

fn strip<'a>(s: &'a str, prefix: &str) -> (r: Option<&'a str>)
    ensures
        starts_with(s@, prefix@) ==> (r matches Some(t) && t@ == s@.skip(prefix@.len() as int)),
        !starts_with(s@, prefix@) ==> r is None,
{
    let n = s.unicode_len();
    let m = prefix.unicode_len();
    if m > n {
        return None;
    }
    let mut i: usize = 0;
    while i < m
        invariant
            n == s@.len(),
            m == prefix@.len(),
            m <= n,
            i <= m,
            forall|j: int| 0 <= j < i ==> s@[j] == prefix@[j],
        decreases m - i,
    {
        if s.get_char(i) != prefix.get_char(i) {
            proof {
                assert(s@.take(m as int)[i as int] == s@[i as int]);
            }
            return None;
        }
        i += 1;
    }
    proof {
        assert(s@.take(m as int) =~= prefix@);
    }
    Some(s.substring_char(m, n))
}

/// The node an identifier of the schema tree names: `db_<database>`, or
/// `tbl_<database>_<table>` where each name runs to the next `_`.
pub open spec fn target_of(id: Seq<char>) -> Option<(Seq<char>, Option<Seq<char>>)> {
    if starts_with(id, "db_"@) {
        Some((id.skip(3), None))
    } else if starts_with(id, "tbl_"@) {
        let rest = id.skip(4);
        if segment(rest).len() < rest.len() {
            Some((segment(rest), Some(segment(after_segment(rest)))))
        } else {
            None
        }
    } else {
        None
    }
}

/// Which database or table a schema tree identifier names.
pub fn sidebar_target(identifier: &str) -> (r: SidebarTarget)
    ensures
        target_of(identifier@) is None ==> r is Other,
        target_of(identifier@) matches Some((d, None)) ==> (r matches SidebarTarget::Database(n) && n@ == d),
        target_of(identifier@) matches Some((d, Some(t))) ==> (r matches SidebarTarget::Table { database, table }
            && database@ == d && table@ == t),
{
    proof {
        reveal_strlit("db_");
        reveal_strlit("tbl_");
        lemma_segment_len(identifier@.skip(4));
    }
    if let Some(name) = strip(identifier, "db_") {
        return SidebarTarget::Database(String::from_str(name));
    }
    match strip(identifier, "tbl_") {
        Some(rest) => {
            let (database, tail) = split_at_underscore(rest);
            match tail {
                Some(t) => {
                    let (table, _) = split_at_underscore(t.as_str());
                    SidebarTarget::Table { database, table }
                },
                None => SidebarTarget::Other,
            }
        },
        None => SidebarTarget::Other,
    }
}

} // verus!
