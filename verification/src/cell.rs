//! Cell values: finding a cell in a worksheet and decoding what it stores.

use vstd::prelude::*;
use vstd::string::*;
use crate::error::{result_view, ErrorView, ExcelizeError};
use crate::excelize::{Spreadsheet, SpreadsheetView};
use crate::text::{index_of_text, is_digit, parse_index, same_text, unsigned_part};
use crate::utils::{cell_name, cell_reference, TOTAL_COLUMNS};
use crate::xml_sst::{CTRst, StringItemView, CTSST};
use crate::xml_worksheet::{CTCell, CTRow, CellView, RowView};

verus! {

/// All of `runs` joined, in order, with nothing between them.
pub open spec fn joined(runs: Seq<Seq<char>>) -> Seq<char>
    decreases runs.len(),
{
    if runs.len() == 0 {
        Seq::empty()
    } else {
        joined(runs.drop_last()) + runs.last()
    }
}

/// The text of a shared string item: its first plain fragment where it has
/// one, else its runs joined, else `raw`.
pub open spec fn item_text(item: StringItemView, raw: Seq<char>) -> Seq<char> {
    if item.fragments is Some && item.fragments->Some_0.len() > 0 {
        item.fragments->Some_0[0]
    } else if item.runs is Some {
        joined(item.runs->Some_0)
    } else {
        raw
    }
}

/// The tag of a cell that holds a position in the shared string table.
pub const SHARED_STRING_TAG: &'static str = "s";

/// The tag of a cell that holds the text a formula gave.
pub const FORMULA_STRING_TAG: &'static str = "str";

/// How a cell stores its value, as its type tag says.
#[derive(Debug, Clone, Copy, PartialEq, Eq, Structural)]
pub enum CellType {
    /// No tag: the value is the literal.
    Untyped,
    /// The text that a formula gave: the value is the literal.
    FormulaString,
    /// A position in the shared string table.
    SharedString,
    /// Any other tag: the value is the literal.
    Other,
}

/// How the cell stores its value.
pub open spec fn type_of(cell: CellView) -> CellType {
    match cell.t {
        None => CellType::Untyped,
        Some(tag) => if tag == SHARED_STRING_TAG@ {
            CellType::SharedString
        } else if tag == FORMULA_STRING_TAG@ {
            CellType::FormulaString
        } else {
            CellType::Other
        },
    }
}

/// Whether a cell's type tag marks it as a position in the shared string
/// table.
pub open spec fn is_shared(cell: CellView) -> bool {
    type_of(cell) == CellType::SharedString
}

/// What a stored cell displays.
///
/// A cell of type `s` with a value that spells an index displays the shared
/// string item at that index, and is inconsistent where there is no such
/// item. Every other cell displays its literal value, and nothing where it
/// has none.
pub open spec fn decoded(sst: Option<Seq<StringItemView>>, cell: CellView) -> Result<
    Seq<char>,
    ErrorView,
> {
    match cell.v {
        None => Ok(Seq::empty()),
        Some(raw) => match type_of(cell) {
            CellType::SharedString => match index_of_text(raw) {
                None => Ok(raw),
                Some(index) => if sst is Some && index < sst->Some_0.len() {
                    Ok(item_text(sst->Some_0[index as int], raw))
                } else {
                    Err(ErrorView::InconsistentPackage(raw))
                },
            },
            CellType::Untyped | CellType::FormulaString | CellType::Other => Ok(raw),
        },
    }
}

/// The first cell of `cells` at or after position `from` whose reference is
/// `reference`.
pub open spec fn first_cell(cells: Seq<CellView>, reference: Seq<char>, from: int) -> Option<
    CellView,
>
    decreases cells.len() - from,
{
    if from < 0 || from >= cells.len() {
        None
    } else if cells[from].r == reference {
        Some(cells[from])
    } else {
        first_cell(cells, reference, from + 1)
    }
}

/// The cell that a scan of `rows` from position `from` finds for `row` and
/// `reference`: the first cell with that reference in a row with that
/// number. A row without a number ends the scan.
pub open spec fn found_cell(rows: Seq<RowView>, row: u32, reference: Seq<char>, from: int) -> Option<
    CellView,
>
    decreases rows.len() - from,
{
    if from < 0 || from >= rows.len() {
        None
    } else if rows[from].r is None {
        None
    } else if rows[from].r == Some(row) && first_cell(rows[from].c, reference, 0) is Some {
        first_cell(rows[from].c, reference, 0)
    } else {
        found_cell(rows, row, reference, from + 1)
    }
}

/// The items of a shared string table, where there is one.
pub open spec fn items_of(sst: Option<CTSST>) -> Option<Seq<StringItemView>> {
    match sst {
        Some(table) => Some(table@),
        None => None,
    }
}

/// What the cell in column `col` of row `row` of the sheet `sheet` displays.
///
/// A column outside `1..=TOTAL_COLUMNS` is an argument error, whatever the
/// sheet; a sheet that is not loaded is not found; a cell that the sheet
/// does not store displays nothing.
pub open spec fn cell_value(doc: SpreadsheetView, sheet: Seq<char>, row: u32, col: u32) -> Result<
    Seq<char>,
    ErrorView,
> {
    if !(1 <= col <= TOTAL_COLUMNS) {
        Err(ErrorView::Argument(col))
    } else if !doc.worksheets.contains_key(sheet) {
        Err(ErrorView::NotFound(sheet))
    } else {
        match found_cell(doc.worksheets[sheet]@, row, cell_reference(col, row), 0) {
            Some(cell) => decoded(items_of(doc.sst), cell),
            None => Ok(Seq::empty()),
        }
    }
}

/// Where no cell at or after `from` has the reference, none is found.
pub proof fn lemma_first_cell_none(cells: Seq<CellView>, reference: Seq<char>, from: int)
    requires
        0 <= from,
        forall|j: int| from <= j < cells.len() ==> (#[trigger] cells[j]).r != reference,
    ensures
        first_cell(cells, reference, from) is None,
    decreases cells.len() - from,
{
    if from < cells.len() {
        lemma_first_cell_none(cells, reference, from + 1);
    }
}

/// Where no row at or after `from` with the number `row` has a cell with
/// the reference, the scan finds none.
pub proof fn lemma_found_cell_none(rows: Seq<RowView>, row: u32, reference: Seq<char>, from: int)
    requires
        0 <= from,
        forall|i: int, j: int|
            from <= i < rows.len() && 0 <= j < rows[i].c.len() && rows[i].r == Some(row) ==> (
            #[trigger] rows[i].c[j]).r != reference,
    ensures
        found_cell(rows, row, reference, from) is None,
    decreases rows.len() - from,
{
    if from < rows.len() {
        if rows[from].r == Some(row) {
            assert forall|j: int| 0 <= j < rows[from].c.len() implies (
            #[trigger] rows[from].c[j]).r != reference by {
            }
            lemma_first_cell_none(rows[from].c, reference, 0);
        }
        lemma_found_cell_none(rows, row, reference, from + 1);
    }
}

/// A cell that a loaded sheet does not store displays nothing, and asking
/// for it is no error: where no row numbered `row` has a cell with the
/// reference of column `col`, the value is the empty text.
pub proof fn lemma_absent_cell_is_empty(doc: SpreadsheetView, sheet: Seq<char>, row: u32, col: u32)
    requires
        1 <= col <= TOTAL_COLUMNS,
        doc.worksheets.contains_key(sheet),
        forall|i: int, j: int|
            0 <= i < doc.worksheets[sheet]@.len() && 0 <= j < doc.worksheets[sheet]@[i].c.len()
                && doc.worksheets[sheet]@[i].r == Some(row) ==> (
            #[trigger] doc.worksheets[sheet]@[i].c[j]).r != cell_reference(col, row),
    ensures
        cell_value(doc, sheet, row, col) == Ok::<Seq<char>, ErrorView>(Seq::empty()),
{
    lemma_found_cell_none(doc.worksheets[sheet]@, row, cell_reference(col, row), 0);
}

/// A sheet that is not loaded is not found, whatever the cell: the result
/// is an error and so differs from that of every absent cell.
pub proof fn lemma_unknown_sheet_is_not_found(
    doc: SpreadsheetView,
    sheet: Seq<char>,
    row: u32,
    col: u32,
)
    requires
        1 <= col <= TOTAL_COLUMNS,
        !doc.worksheets.contains_key(sheet),
    ensures
        cell_value(doc, sheet, row, col) == Err::<Seq<char>, ErrorView>(ErrorView::NotFound(sheet)),
        cell_value(doc, sheet, row, col) != Ok::<Seq<char>, ErrorView>(Seq::empty()),
{
}

/// A shared-string cell whose value spells no index displays that value as
/// it stands, with or without a shared string table.
pub proof fn lemma_unreadable_index_is_displayed(
    sst: Option<Seq<StringItemView>>,
    cell: CellView,
    raw: Seq<char>,
)
    requires
        is_shared(cell),
        cell.v == Some(raw),
        index_of_text(raw) is None,
    ensures
        decoded(sst, cell) == Ok::<Seq<char>, ErrorView>(raw),
{
}

/// A shared string item of two runs and no plain fragment displays the
/// first run followed by the second.
pub proof fn lemma_two_runs_are_concatenated(first: Seq<char>, second: Seq<char>, raw: Seq<char>)
    ensures
        item_text(StringItemView { fragments: None, runs: Some(seq![first, second]) }, raw)
            == first + second,
{
    let runs = seq![first, second];
    assert(runs.drop_last() == seq![first]);
    assert(seq![first].drop_last() == Seq::<Seq<char>>::empty());
    assert(joined(seq![first]) == first) by {
        assert(joined(Seq::<Seq<char>>::empty()) == Seq::<char>::empty());
    }
}

/// A text with a character that is neither a digit nor a `+` in front
/// spells no index.
pub proof fn lemma_non_numeric_spells_no_index(raw: Seq<char>, at: int)
    requires
        0 <= at < raw.len(),
        !is_digit(raw[at]),
        at > 0 || raw[0] != '+',
    ensures
        index_of_text(raw) is None,
{
    let body = unsigned_part(raw);
    if body.len() == raw.len() {
    } else {
        assert(body[at - 1] == raw[at]);
    }
}

/// Reading cells of an open package.
pub trait Cell {
    /// The displayed value of the cell in column `col` of row `row`, both
    /// counted from 1, of the sheet named `sheet`.
    fn get_cell_value(&self, sheet: &str, row: u32, col: u32) -> Result<String, ExcelizeError>;

    /// The displayed value of a stored cell.
    fn get_value_from(&self, cell: &CTCell) -> Result<String, ExcelizeError>;
}

/// Reads the type tag of a cell; see [`type_of`].
pub fn cell_type(cell: &CTCell) -> (res: CellType)
    ensures
        res == type_of(cell@),
{
    match &cell.t {
        None => CellType::Untyped,
        Some(tag) => if same_text(tag.as_str(), SHARED_STRING_TAG) {
            CellType::SharedString
        } else if same_text(tag.as_str(), FORMULA_STRING_TAG) {
            CellType::FormulaString
        } else {
            CellType::Other
        },
    }
}

/// The text of a shared string item; see [`item_text`].
pub fn shared_item_text(item: &CTRst, raw: &String) -> (res: String)
    ensures
        res@ == item_text(item@, raw@),
{
    match &item.t {
        Some(fragments) => {
            if fragments.len() > 0 {
                return fragments[0].clone();
            }
        },
        None => {},
    }
    match &item.r {
        Some(runs) => {
            let mut text = String::new();
            let mut i: usize = 0;
            while i < runs.len()
                invariant
                    i <= runs.len(),
                    item.r == Some(*runs),
                    text@ == joined(item@.runs->Some_0.subrange(0, i as int)),
                decreases runs.len() - i,
            {
                text.append(runs[i].t.as_str());
                i += 1;
                proof {
                    let all = item@.runs->Some_0;
                    assert(all.subrange(0, i as int).drop_last() == all.subrange(0, i - 1));
                }
            }
            proof {
                let all = item@.runs->Some_0;
                assert(all.subrange(0, runs.len() as int) == all);
            }
            text
        },
        None => raw.clone(),
    }
}

impl Cell for Spreadsheet {
    fn get_cell_value(&self, sheet: &str, row: u32, col: u32) -> (res: Result<
        String,
        ExcelizeError,
    >)
        ensures
            result_view(res) == cell_value(self@, sheet@, row, col),
    {
        let reference = match cell_name(col, row) {
            Ok(reference) => reference,
            Err(e) => {
                return Err(e);
            },
        };
        let worksheet = match self.worksheets.get(sheet) {
            Some(worksheet) => worksheet,
            None => {
                return Err(ExcelizeError::NotFound(String::from_str(sheet)));
            },
        };
        let ghost rows_view = worksheet@;
        let rows = match &worksheet.sheet_data.row {
            Some(rows) => rows,
            None => {
                return Ok(String::new());
            },
        };
        let mut i: usize = 0;
        while i < rows.len()
            invariant
                i <= rows.len(),
                1 <= col <= TOTAL_COLUMNS,
                self@.worksheets.contains_key(sheet@),
                rows_view == self@.worksheets[sheet@]@,
                reference@ == cell_reference(col, row),
                rows_view == rows@.map_values(|r: CTRow| r@),
                found_cell(rows_view, row, reference@, 0) == found_cell(
                    rows_view,
                    row,
                    reference@,
                    i as int,
                ),
            decreases rows.len() - i,
        {
            let r = &rows[i];
            match r.r {
                Some(number) => {
                    if number == row {
                        let mut j: usize = 0;
                        while j < r.c.len()
                            invariant
                                j <= r.c.len(),
                                i < rows.len(),
                                number == row,
                                r.r == Some(number),
                                1 <= col <= TOTAL_COLUMNS,
                                self@.worksheets.contains_key(sheet@),
                                rows_view == self@.worksheets[sheet@]@,
                                reference@ == cell_reference(col, row),
                                rows_view.len() == rows.len(),
                                rows_view[i as int] == r@,
                                found_cell(rows_view, row, reference@, 0) == found_cell(
                                    rows_view,
                                    row,
                                    reference@,
                                    i as int,
                                ),
                                first_cell(r@.c, reference@, 0) == first_cell(
                                    r@.c,
                                    reference@,
                                    j as int,
                                ),
                            decreases r.c.len() - j,
                        {
                            let c = &r.c[j];
                            if c.r == reference {
                                let value = self.get_value_from(c);
                                return value;
                            }
                            j += 1;
                        }
                    }
                },
                None => {
                    return Ok(String::new());
                },
            }
            i += 1;
        }
        Ok(String::new())
    }

    fn get_value_from(&self, cell: &CTCell) -> (res: Result<String, ExcelizeError>)
        ensures
            result_view(res) == decoded(items_of(self@.sst), cell@),
    {
        let raw = match &cell.v {
            Some(raw) => raw,
            None => {
                return Ok(String::new());
            },
        };
        match cell_type(cell) {
            CellType::SharedString => {},
            CellType::Untyped | CellType::FormulaString | CellType::Other => {
                return Ok(raw.clone());
            },
        }
        let index = match parse_index(raw.as_str()) {
            Some(index) => index,
            None => {
                return Ok(raw.clone());
            },
        };
        match &self.sst {
            Some(table) => {
                if index < table.si.len() {
                    Ok(shared_item_text(&table.si[index], raw))
                } else {
                    Err(ExcelizeError::InconsistentPackage(raw.clone()))
                }
            },
            None => Err(ExcelizeError::InconsistentPackage(raw.clone())),
        }
    }
}

} // verus!
