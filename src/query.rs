//! The coarse statement classifier that decides how a query is executed.

use vstd::prelude::*;
use vstd::string::*;
use crate::text::{ascii_fold, eq_ignore_ascii_case, text_eq_ignore_ascii_case};

verus! {

/// The kind of a SQL statement, by its leading keyword.
#[derive(Clone, Copy, Debug, PartialEq, Eq, Structural)]
pub enum Query {
    Select,
    Insert,
    Update,
    Delete,
    Unknown,
}

/// ASCII whitespace.
pub open spec fn is_space(c: char) -> bool {
    c == ' ' || c == '\t' || c == '\n' || c == '\r' || c == '\x0B' || c == '\x0C'
}

/// An ASCII letter.
pub open spec fn is_ascii_letter(c: char) -> bool {
    ('a' <= c && c <= 'z') || ('A' <= c && c <= 'Z')
}

/// The text without its leading whitespace.
pub open spec fn skip_spaces(s: Seq<char>) -> Seq<char>
    decreases s.len(),
{
    if s.len() > 0 && is_space(s[0]) {
        skip_spaces(s.drop_first())
    } else {
        s
    }
}

/// The longest run of ASCII letters the text starts with.
pub open spec fn letter_prefix(s: Seq<char>) -> Seq<char>
    decreases s.len(),
{
    if s.len() > 0 && is_ascii_letter(s[0]) {
        seq![s[0]] + letter_prefix(s.drop_first())
    } else {
        Seq::empty()
    }
}

/// The statement's leading keyword: its first run of letters after any whitespace.
pub open spec fn leading_word(s: Seq<char>) -> Seq<char> {
    letter_prefix(skip_spaces(s))
}

/// The kind that a leading keyword names, in any case.
pub open spec fn kind_of_word(w: Seq<char>) -> Query {
    if eq_ignore_ascii_case(w, "select"@) {
        Query::Select
    } else if eq_ignore_ascii_case(w, "insert"@) {
        Query::Insert
    } else if eq_ignore_ascii_case(w, "update"@) {
        Query::Update
    } else if eq_ignore_ascii_case(w, "delete"@) {
        Query::Delete
    } else {
        Query::Unknown
    }
}

/// The kind of a statement.
pub open spec fn classify(s: Seq<char>) -> Query {
    kind_of_word(leading_word(s))
}

fn space_char(c: char) -> (r: bool)
    ensures
        r == is_space(c),
{
    c == ' ' || c == '\t' || c == '\n' || c == '\r' || c == '\x0B' || c == '\x0C'
}

fn letter_char(c: char) -> (r: bool)
    ensures
        r == is_ascii_letter(c),
{
    ('a' <= c && c <= 'z') || ('A' <= c && c <= 'Z')
}

impl Query {
    /// Classifies a statement by its leading keyword, ignoring case and
    /// leading whitespace.
    pub fn from_sql(sql: &str) -> (r: Query)
        ensures
            r == classify(sql@),
    {
        let ghost s = sql@;
        let n = sql.unicode_len();
        let mut i: usize = 0;
        let mut more = n > 0 && space_char(sql.get_char(0));
        proof {
            assert(s.subrange(0, n as int) =~= s);
        }
        while more
            invariant
                n == s.len(),
                s == sql@,
                i <= n,
                more ==> i < n && is_space(s[i as int]),
                !more ==> i == n || !is_space(s[i as int]),
                skip_spaces(s) == skip_spaces(s.subrange(i as int, n as int)),
            decreases n - i,
        {
            proof {
                assert(s.subrange(i as int, n as int).drop_first() =~= s.subrange(i + 1, n as int));
            }
            i += 1;
            more = i < n && space_char(sql.get_char(i));
        }
        proof {
            assert(skip_spaces(s.subrange(i as int, n as int)) == s.subrange(i as int, n as int));
        }
        let mut j: usize = i;
        more = j < n && letter_char(sql.get_char(j));
        proof {
            assert(s.subrange(i as int, j as int) + letter_prefix(s.subrange(j as int, n as int)) =~= letter_prefix(
                s.subrange(i as int, n as int),
            ));
        }
        while more
            invariant
                n == s.len(),
                s == sql@,
                i <= j <= n,
                more ==> j < n && is_ascii_letter(s[j as int]),
                !more ==> j == n || !is_ascii_letter(s[j as int]),
                letter_prefix(s.subrange(i as int, n as int)) == s.subrange(i as int, j as int) + letter_prefix(
                    s.subrange(j as int, n as int),
                ),
            decreases n - j,
        {
            proof {
                let rest = s.subrange(j as int, n as int);
                assert(rest.drop_first() =~= s.subrange(j + 1, n as int));
                assert(rest[0] == s[j as int]);
                assert(letter_prefix(rest) == seq![s[j as int]] + letter_prefix(s.subrange(j + 1, n as int)));
                assert(s.subrange(i as int, j + 1) =~= s.subrange(i as int, j as int) + seq![s[j as int]]);
                assert(s.subrange(i as int, j as int) + (seq![s[j as int]] + letter_prefix(s.subrange(j + 1, n as int)))
                    =~= s.subrange(i as int, j + 1) + letter_prefix(s.subrange(j + 1, n as int)));
            }
            j += 1;
            more = j < n && letter_char(sql.get_char(j));
        }
        proof {
            assert(letter_prefix(s.subrange(j as int, n as int)) =~= Seq::<char>::empty());
            assert(s.subrange(i as int, j as int) + Seq::<char>::empty() =~= s.subrange(i as int, j as int));
        }
        let word = sql.substring_char(i, j);
        if text_eq_ignore_ascii_case(word, "select") {
            Query::Select
        } else if text_eq_ignore_ascii_case(word, "insert") {
            Query::Insert
        } else if text_eq_ignore_ascii_case(word, "update") {
            Query::Update
        } else if text_eq_ignore_ascii_case(word, "delete") {
            Query::Delete
        } else {
            Query::Unknown
        }
    }

    /// The keyword in capitals, as messages show it.
    pub fn keyword(&self) -> (r: &'static str)
        ensures
            r@ == keyword_of(*self),
    {
        match self {
            Query::Select => "SELECT",
            Query::Insert => "INSERT",
            Query::Update => "UPDATE",
            Query::Delete => "DELETE",
            Query::Unknown => "UNKNOWN",
        }
    }
}

/// The capitalised keyword of a kind.
pub open spec fn keyword_of(q: Query) -> Seq<char> {
    match q {
        Query::Select => "SELECT"@,
        Query::Insert => "INSERT"@,
        Query::Update => "UPDATE"@,
        Query::Delete => "DELETE"@,
        Query::Unknown => "UNKNOWN"@,
    }
}

/// Leading whitespace does not change a statement's kind.
pub proof fn lemma_classify_ignores_leading_space(c: char, s: Seq<char>)
    requires
        is_space(c),
    ensures
        classify(seq![c] + s) == classify(s),
{
    assert((seq![c] + s).drop_first() =~= s);
}

/// Characters equal up to ASCII case are both spaces, or both letters, or neither.
proof fn lemma_fold_keeps_class(c: char, d: char)
    requires
        ascii_fold(c) == ascii_fold(d),
    ensures
        is_space(c) == is_space(d),
        is_ascii_letter(c) == is_ascii_letter(d),
{
}

proof fn lemma_skip_spaces_fold(a: Seq<char>, b: Seq<char>)
    requires
        eq_ignore_ascii_case(a, b),
    ensures
        eq_ignore_ascii_case(skip_spaces(a), skip_spaces(b)),
    decreases a.len(),
{
    if a.len() > 0 {
        lemma_fold_keeps_class(a[0], b[0]);
        if is_space(a[0]) {
            assert(eq_ignore_ascii_case(a.drop_first(), b.drop_first())) by {
                assert forall|i: int| 0 <= i < a.drop_first().len() implies #[trigger] ascii_fold(a.drop_first()[i])
                    == ascii_fold(b.drop_first()[i]) by {
                    assert(ascii_fold(a[i + 1]) == ascii_fold(b[i + 1]));
                }
            }
            lemma_skip_spaces_fold(a.drop_first(), b.drop_first());
        }
    }
}

proof fn lemma_letter_prefix_fold(a: Seq<char>, b: Seq<char>)
    requires
        eq_ignore_ascii_case(a, b),
    ensures
        eq_ignore_ascii_case(letter_prefix(a), letter_prefix(b)),
    decreases a.len(),
{
    if a.len() > 0 {
        lemma_fold_keeps_class(a[0], b[0]);
        if is_ascii_letter(a[0]) {
            assert(eq_ignore_ascii_case(a.drop_first(), b.drop_first())) by {
                assert forall|i: int| 0 <= i < a.drop_first().len() implies #[trigger] ascii_fold(a.drop_first()[i])
                    == ascii_fold(b.drop_first()[i]) by {
                    assert(ascii_fold(a[i + 1]) == ascii_fold(b[i + 1]));
                }
            }
            lemma_letter_prefix_fold(a.drop_first(), b.drop_first());
            let pa = letter_prefix(a);
            let pb = letter_prefix(b);
            assert forall|i: int| 0 <= i < pa.len() implies #[trigger] ascii_fold(pa[i]) == ascii_fold(pb[i]) by {
                if i > 0 {
                    assert(pa[i] == letter_prefix(a.drop_first())[i - 1]);
                    assert(pb[i] == letter_prefix(b.drop_first())[i - 1]);
                }
            }
        }
    }
}

/// Two words equal up to ASCII case name the same kind.
proof fn lemma_kind_of_word_fold(a: Seq<char>, b: Seq<char>)
    requires
        eq_ignore_ascii_case(a, b),
    ensures
        kind_of_word(a) == kind_of_word(b),
{
    assert forall|k: Seq<char>| eq_ignore_ascii_case(a, k) == eq_ignore_ascii_case(b, k) by {
        if eq_ignore_ascii_case(a, k) {
            assert forall|i: int| 0 <= i < b.len() implies #[trigger] ascii_fold(b[i]) == ascii_fold(k[i]) by {
                assert(ascii_fold(a[i]) == ascii_fold(b[i]));
                assert(ascii_fold(a[i]) == ascii_fold(k[i]));
            }
        }
        if eq_ignore_ascii_case(b, k) {
            assert forall|i: int| 0 <= i < a.len() implies #[trigger] ascii_fold(a[i]) == ascii_fold(k[i]) by {
                assert(ascii_fold(a[i]) == ascii_fold(b[i]));
                assert(ascii_fold(b[i]) == ascii_fold(k[i]));
            }
        }
    }
}

/// Statements that differ only in the case of ASCII letters have the same kind.
pub proof fn lemma_classify_ignores_case(a: Seq<char>, b: Seq<char>)
    requires
        eq_ignore_ascii_case(a, b),
    ensures
        classify(a) == classify(b),
{
    lemma_skip_spaces_fold(a, b);
    lemma_letter_prefix_fold(skip_spaces(a), skip_spaces(b));
    lemma_kind_of_word_fold(leading_word(a), leading_word(b));
}

} // verus!
