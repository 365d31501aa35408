//! Cell values as the backend adapters hand them over, and the one
//! coercion from a cell to the text the table shows.

use vstd::prelude::*;
use vstd::string::*;
use crate::text::{decimal, decimal_text};

verus! {

/// One cell of a result row.
#[derive(Clone, Debug)]
pub enum CellValue {
    /// SQL NULL, or a value of a type no extraction understood.
    Null,
    Text(String),
    Integer(i64),
    Boolean(bool),
    /// Raw bytes, shown as lowercase hexadecimal.
    Binary(Vec<u8>),
    /// A value that the driver adapter has already written as text:
    /// floating point, UUID, dates and times, structured JSON.
    Rendered(String),
}

/// The lowercase hexadecimal digit for `n`, which is below sixteen.
pub open spec fn hex_digit(n: u8) -> char {
    seq!['0', '1', '2', '3', '4', '5', '6', '7', '8', '9', 'a', 'b', 'c', 'd', 'e', 'f'][n as int]
}

/// Two lowercase hexadecimal digits per byte, high half first.
pub open spec fn hex_of(b: Seq<u8>) -> Seq<char>
    decreases b.len(),
{
    if b.len() == 0 {
        Seq::empty()
    } else {
        hex_of(b.drop_last()) + seq![hex_digit(b.last() / 16), hex_digit(b.last() % 16)]
    }
}

/// Relies on hex::encode: two lowercase hex digits for each byte, high half first.
#[verifier::external_body]
fn hex_text(b: &Vec<u8>) -> (r: String)
    ensures
        r@ == hex_of(b@),
{
    hex::encode(b)
}

/// `n` in decimal, with a leading `-` when negative.
pub open spec fn signed_decimal(n: int) -> Seq<char> {
    if n < 0 {
        seq!['-'] + decimal((-n) as nat)
    } else {
        decimal(n as nat)
    }
}

/// Writes `n` in decimal, with a leading `-` when negative.
pub fn signed_decimal_text(n: i64) -> (r: String)
    ensures
        r@ == signed_decimal(n as int),
{
    if n < 0 {
        let magnitude = (-(n as i128)) as u64;
        let digits = decimal_text(magnitude);
        let mut s = String::from_str("-");
        s.append(digits.as_str());
        proof {
            reveal_strlit("-");
        }
        s
    } else {
        decimal_text(n as u64)
    }
}

/// The display text of a cell.
pub open spec fn cell_text_of(v: CellValue) -> Seq<char> {
    match v {
        CellValue::Null => Seq::empty(),
        CellValue::Text(s) => s@,
        CellValue::Integer(n) => signed_decimal(n as int),
        CellValue::Boolean(b) => if b { "true"@ } else { "false"@ },
        CellValue::Binary(b) => hex_of(b@),
        CellValue::Rendered(s) => s@,
    }
}

/// The cell in column `c` of `row`; a row without that column reads as NULL.
pub open spec fn cell_at(row: Seq<CellValue>, c: int) -> CellValue {
    if 0 <= c < row.len() {
        row[c]
    } else {
        CellValue::Null
    }
}

impl CellValue {
    /// The text the table shows for this cell.
    pub fn display_text(&self) -> (r: String)
        ensures
            r@ == cell_text_of(*self),
    {
        match self {
            CellValue::Null => String::new(),
            CellValue::Text(s) => s.clone(),
            CellValue::Integer(n) => signed_decimal_text(*n),
            CellValue::Boolean(b) => if *b {
                String::from_str("true")
            } else {
                String::from_str("false")
            },
            CellValue::Binary(bytes) => hex_text(bytes),
            CellValue::Rendered(s) => s.clone(),
        }
    }
}

/// The text of the cell in column `c` of `row`, empty where the row has no such column.
pub fn cell_text(row: &Vec<CellValue>, c: usize) -> (r: String)
    ensures
        r@ == cell_text_of(cell_at(row@, c as int)),
{
    if c < row.len() {
        row[c].display_text()
    } else {
        String::new()
    }
}

} // verus!
