//! Column addressing: column numbers, column titles and cell references.

use vstd::prelude::*;
use crate::error::{ErrorView, ExcelizeError};
use vstd::string::*;
use crate::text::{decimal, decimal_string, string_of_chars};

verus! {

/// The longest name a font family can have, in characters.
pub const MAX_FONT_FAMILY_LENGTH: u32 = 31;

/// The largest font size.
pub const MAX_FONT_SIZE: u32 = 409;

/// The longest name a file can have, in characters.
pub const MAX_FILE_NAME_LENGTH: u32 = 207;

/// The widest a column can be.
pub const MAX_COLUMN_WIDTH: u32 = 255;

/// The highest a row can be.
pub const MAX_ROW_HEIGHT: u32 = 409;

/// The number of rows a worksheet can have.
pub const TOTAL_ROWS: u32 = 1048576;

/// The number of columns a worksheet can have; the last one is titled `XFD`.
pub const TOTAL_COLUMNS: u32 = 16384;

/// The number of hyperlinks a worksheet can have.
pub const TOTAL_SHEET_HYPERLINKS: u32 = 65529;

/// The number of characters a cell can hold.
pub const TOTAL_CELL_CHARS: u32 = 32767;

/// The letter that stands for the digit `d` of a column title, `1` for `A`.
pub open spec fn title_letter(d: int) -> char
    recommends
        1 <= d <= 26,
{
    (64 + d) as u8 as char
}

/// The title of column `n` in bijective base 26, most significant letter
/// first. Column 0 has the empty title.
pub open spec fn column_title(n: nat) -> Seq<char>
    decreases n,
{
    if n == 0 {
        Seq::empty()
    } else {
        column_title(((n - 1) / 26) as nat).push(title_letter((n - 1) % 26 + 1))
    }
}

/// The reference of the cell in column `col` of row `row`, such as `C7`:
/// the column's title, then the row in decimal.
pub open spec fn cell_reference(col: u32, row: u32) -> Seq<char> {
    column_title(col as nat) + decimal(row as nat)
}

/// Whether `s` is made of the letters `A` to `Z` alone.
pub open spec fn is_title(s: Seq<char>) -> bool {
    forall|i: int| 0 <= i < s.len() ==> 'A' <= #[trigger] s[i] && s[i] <= 'Z'
}

/// The column that the title `s` denotes in bijective base 26: each letter
/// is a digit from 1 to 26, the last one the least significant.
pub open spec fn title_number(s: Seq<char>) -> nat
    decreases s.len(),
{
    if s.len() == 0 {
        0
    } else {
        (title_number(s.drop_last()) * 26 + (s.last() as u32 - 64)) as nat
    }
}

/// The title of a column is made of letters and denotes that column.
pub proof fn lemma_title_denotes_column(n: nat)
    ensures
        is_title(column_title(n)),
        title_number(column_title(n)) == n,
    decreases n,
{
    if n > 0 {
        let rest = ((n - 1) / 26) as nat;
        lemma_title_denotes_column(rest);
        let title = column_title(n);
        assert(title.drop_last() == column_title(rest));
        assert forall|i: int| 0 <= i < title.len() implies 'A' <= #[trigger] title[i] && title[i]
            <= 'Z' by {}
    }
}

/// A column has one title only: a sequence of letters is the title of the
/// column it denotes.
pub proof fn lemma_title_unique(s: Seq<char>)
    requires
        is_title(s),
    ensures
        column_title(title_number(s)) == s,
    decreases s.len(),
{
    if s.len() > 0 {
        let front = s.drop_last();
        assert forall|i: int| 0 <= i < front.len() implies 'A' <= #[trigger] front[i] && front[i]
            <= 'Z' by {}
        lemma_title_unique(front);
    }
}

/// Two columns with one title are one column.
pub proof fn lemma_title_names_one_column(m: nat, n: nat)
    requires
        column_title(m) == column_title(n),
    ensures
        m == n,
{
    lemma_title_denotes_column(m);
    lemma_title_denotes_column(n);
}

/// Turns a column number into its title: 1 is `A`, 26 is `Z`, 27 is `AA`.
///
/// Column numbers outside `1..=TOTAL_COLUMNS` are refused.
pub fn column_number_to_name(col: u32) -> (res: Result<String, ExcelizeError>)
    ensures
        1 <= col <= TOTAL_COLUMNS ==> res is Ok && res->Ok_0@ == column_title(col as nat),
        !(1 <= col <= TOTAL_COLUMNS) ==> res is Err && res->Err_0@ == ErrorView::Argument(col),
{
    if col < 1 || col > TOTAL_COLUMNS {
        return Err(ExcelizeError::Argument(col));
    }
    let mut letters: Vec<char> = Vec::new();
    let mut v: u32 = col;
    while v > 0
        invariant
            column_title(col as nat) == column_title(v as nat) + letters@,
        decreases v,
    {
        let ghost old_letters = letters@;
        let digit: u8 = ((v - 1) % 26) as u8;
        let letter: char = (65u8 + digit) as char;
        letters.insert(0, letter);
        proof {
            assert(column_title(v as nat) + old_letters == column_title(((v - 1) / 26) as nat)
                + letters@);
        }
        v = (v - 1) / 26;
    }
    Ok(string_of_chars(&letters))
}

/// Builds the reference of the cell in column `col` of row `row`, such as
/// `C7`. The column is held to the same range as in
/// [`column_number_to_name`]; the row is not examined.
pub fn cell_name(col: u32, row: u32) -> (res: Result<String, ExcelizeError>)
    ensures
        1 <= col <= TOTAL_COLUMNS ==> res is Ok && res->Ok_0@ == cell_reference(col, row),
        !(1 <= col <= TOTAL_COLUMNS) ==> res is Err && res->Err_0@ == ErrorView::Argument(col),
{
    match column_number_to_name(col) {
        Ok(title) => Ok(title.concat(decimal_string(row as u64).as_str())),
        Err(e) => Err(e),
    }
}

} // verus!
