//! Loading the worksheets that the workbook declares.

use vstd::prelude::*;
use vstd::string::*;
use crate::error::{outcome_view, result_view, ErrorView, ExcelizeError};
use crate::excelize::{Spreadsheet, SpreadsheetView};
use crate::part::{loads, ParsedPart, PartKind, WORKBOOK_DIR, WORKBOOK_PATH, WORKBOOK_RELS_PATH};
use crate::text::same_text;
use crate::xml_rels::{RelationshipView, XMLRelationships};
use crate::xml_workbook::SheetEntryView;

verus! {

/// The target of the first of `rels`, at or after position `from`, whose
/// id is `id`; the empty text where there is none.
pub open spec fn target_of(rels: Seq<RelationshipView>, id: Seq<char>, from: int) -> Seq<char>
    decreases rels.len() - from,
{
    if from < 0 || from >= rels.len() {
        Seq::empty()
    } else if rels[from].id == id {
        rels[from].target
    } else {
        target_of(rels, id, from + 1)
    }
}

/// What the workbook's relationships say that `id` points to. Without the
/// table there is no answer; an id that the table lacks points to the empty
/// text.
pub open spec fn target_by_rid(doc: SpreadsheetView, id: Seq<char>) -> Result<
    Seq<char>,
    ErrorView,
> {
    if doc.rels.contains_key(WORKBOOK_RELS_PATH@) {
        Ok(target_of(doc.rels[WORKBOOK_RELS_PATH@]@, id, 0))
    } else {
        Err(ErrorView::NotLoaded(WORKBOOK_RELS_PATH@))
    }
}

/// The path of the part that holds the sheet `sheet`, given the workbook's
/// relationships `rels`.
pub open spec fn sheet_path(rels: Seq<RelationshipView>, sheet: SheetEntryView) -> Seq<char> {
    WORKBOOK_DIR@ + target_of(rels, sheet.id, 0)
}

/// Whether loading the sheets `sheets` from position `from` on, in order,
/// with the deserializer `parse`, can take the package `doc` to `end` with
/// the result `res`.
///
/// Each sheet needs the workbook's relationships. The first sheet whose
/// name is cached ends the whole load with success; every sheet before it
/// is loaded from the part that its relationship points to, and the first
/// failure ends the load, with the sheets before it cached.
pub open spec fn sheets_loaded<F: Fn(PartKind, &str) -> Result<ParsedPart, String>>(
    parse: F,
    sheets: Seq<SheetEntryView>,
    from: int,
    doc: SpreadsheetView,
    res: Result<(), ErrorView>,
    end: SpreadsheetView,
) -> bool
    decreases sheets.len() - from,
{
    if from < 0 || from >= sheets.len() {
        res is Ok && end == doc
    } else if !doc.rels.contains_key(WORKBOOK_RELS_PATH@) {
        res == Err::<(), ErrorView>(ErrorView::NotLoaded(WORKBOOK_RELS_PATH@)) && end == doc
    } else if doc.worksheets.contains_key(sheets[from].name) {
        res is Ok && end == doc
    } else {
        exists|step: Result<(), ErrorView>, mid: SpreadsheetView|
            #[trigger] loads(
                parse,
                PartKind::Worksheet,
                sheets[from].name,
                sheet_path(doc.rels[WORKBOOK_RELS_PATH@]@, sheets[from]),
                doc,
                step,
                mid,
            ) && if step is Ok {
                sheets_loaded(parse, sheets, from + 1, mid, res, end)
            } else {
                res == step && end == mid
            }
    }
}

/// Loading a worksheet changes nothing but the cache of worksheets, and in
/// it only the entry of that sheet.
pub proof fn lemma_loads_worksheet_frame<F: Fn(PartKind, &str) -> Result<ParsedPart, String>>(
    parse: F,
    name: Seq<char>,
    path: Seq<char>,
    doc: SpreadsheetView,
    res: Result<(), ErrorView>,
    end: SpreadsheetView,
)
    requires
        loads(parse, PartKind::Worksheet, name, path, doc, res, end),
    ensures
        end.file == doc.file,
        end.content_type == doc.content_type,
        end.workbook == doc.workbook,
        end.sst == doc.sst,
        end.rels == doc.rels,
        res is Ok ==> end.worksheets.contains_key(name),
        res is Err ==> end == doc,
        forall|other: Seq<char>|
            doc.worksheets.contains_key(other) ==> end.worksheets.contains_key(other) && (other
                != name ==> end.worksheets[other] == doc.worksheets[other]),
        doc.worksheets.contains_key(name) ==> end == doc,
{
}

/// A load that succeeds keeps the workbook's relationships, and keeps
/// every sheet cached that was cached before it.
pub proof fn lemma_sheets_loaded_keeps<F: Fn(PartKind, &str) -> Result<ParsedPart, String>>(
    parse: F,
    sheets: Seq<SheetEntryView>,
    from: int,
    doc: SpreadsheetView,
    res: Result<(), ErrorView>,
    end: SpreadsheetView,
)
    requires
        sheets_loaded(parse, sheets, from, doc, res, end),
    ensures
        end.rels == doc.rels,
        end.workbook == doc.workbook,
        forall|name: Seq<char>|
            doc.worksheets.contains_key(name) ==> end.worksheets.contains_key(name),
        res is Ok && 0 <= from < sheets.len() ==> end.rels.contains_key(WORKBOOK_RELS_PATH@)
            && end.worksheets.contains_key(sheets[from].name),
    decreases sheets.len() - from,
{
    if 0 <= from < sheets.len() && doc.rels.contains_key(WORKBOOK_RELS_PATH@)
        && !doc.worksheets.contains_key(sheets[from].name) {
        let path = sheet_path(doc.rels[WORKBOOK_RELS_PATH@]@, sheets[from]);
        let (step, mid) = choose|step: Result<(), ErrorView>, mid: SpreadsheetView|
            #[trigger] loads(parse, PartKind::Worksheet, sheets[from].name, path, doc, step, mid)
                && if step is Ok {
                sheets_loaded(parse, sheets, from + 1, mid, res, end)
            } else {
                res == step && end == mid
            };
        lemma_loads_worksheet_frame(parse, sheets[from].name, path, doc, step, mid);
        if step is Ok {
            lemma_sheets_loaded_keeps(parse, sheets, from + 1, mid, res, end);
        }
    }
}

/// Loading the worksheets again after a load that succeeded changes
/// nothing and succeeds, whatever the deserializer would answer.
pub proof fn lemma_worksheet_reader_idempotent<
    F: Fn(PartKind, &str) -> Result<ParsedPart, String>,
    G: Fn(PartKind, &str) -> Result<ParsedPart, String>,
>(
    first: F,
    second: G,
    doc: SpreadsheetView,
    mid: SpreadsheetView,
    res: Result<(), ErrorView>,
    end: SpreadsheetView,
)
    requires
        worksheets_loaded(first, doc, Ok(()), mid),
        worksheets_loaded(second, mid, res, end),
    ensures
        res is Ok,
        end == mid,
{
    let sheets = doc.workbook->Some_0@;
    lemma_sheets_loaded_keeps(first, sheets, 0, doc, Ok(()), mid);
}

/// Whether loading every declared sheet, with the deserializer `parse`,
/// can take the package `doc` to `end` with the result `res`. Without a
/// workbook nothing is loaded.
pub open spec fn worksheets_loaded<F: Fn(PartKind, &str) -> Result<ParsedPart, String>>(
    parse: F,
    doc: SpreadsheetView,
    res: Result<(), ErrorView>,
    end: SpreadsheetView,
) -> bool {
    match doc.workbook {
        Some(workbook) => sheets_loaded(parse, workbook@, 0, doc, res, end),
        None => res == Err::<(), ErrorView>(ErrorView::NotLoaded(WORKBOOK_PATH@)) && end == doc,
    }
}

/// The target of the first relationship of `rels` whose id is `id`; the
/// empty text where there is none.
pub fn resolve_target(rels: &XMLRelationships, id: &str) -> (res: String)
    ensures
        res@ == target_of(rels@, id@, 0),
{
    let mut i: usize = 0;
    while i < rels.relationship.len()
        invariant
            i <= rels.relationship.len(),
            target_of(rels@, id@, 0) == target_of(rels@, id@, i as int),
        decreases rels.relationship.len() - i,
    {
        let rel = &rels.relationship[i];
        if same_text(rel.id.as_str(), id) {
            return rel.target.clone();
        }
        i += 1;
    }
    String::new()
}

/// Loading worksheets.
pub trait Worksheet {
    /// Parses and caches the worksheet of each declared sheet, in
    /// declaration order, up to the first sheet that is cached already.
    fn worksheet_reader<F: Fn(PartKind, &str) -> Result<ParsedPart, String>>(
        &mut self,
        parse: &F,
    ) -> Result<(), ExcelizeError> where Self: std::marker::Sized
        requires
            forall|k: PartKind, t: &str| parse.requires((k, t)),
    ;

    /// The target that the workbook's relationships give for the id `rid`.
    fn get_target_by_rid(&self, rid: String) -> Result<String, ExcelizeError>;
}

impl Spreadsheet {
    /// The name and the relationship id of the sheet that the workbook
    /// declares at position `at`.
    pub fn declared_sheet(&self, at: usize) -> (res: Option<(String, String)>)
        ensures
            match res {
                Some((name, id)) => self@.workbook is Some && at < self@.workbook->Some_0@.len()
                    && at < usize::MAX && name@ == self@.workbook->Some_0@[at as int].name && id@
                    == self@.workbook->Some_0@[at as int].id,
                None => self@.workbook is None || at >= self@.workbook->Some_0@.len(),
            },
    {
        match &self.workbook {
            Some(workbook) => if at < workbook.sheets.sheet.len() {
                let sheet = &workbook.sheets.sheet[at];
                Some((sheet.name.clone(), sheet.id.clone()))
            } else {
                None
            },
            None => None,
        }
    }
}

impl Worksheet for Spreadsheet {
    fn worksheet_reader<F: Fn(PartKind, &str) -> Result<ParsedPart, String>>(
        &mut self,
        parse: &F,
    ) -> (res: Result<(), ExcelizeError>)
        ensures
            worksheets_loaded(*parse, old(self)@, outcome_view(res), final(self)@),
    {
        if self.workbook.is_none() {
            return Err(ExcelizeError::NotLoaded(String::from_str(WORKBOOK_PATH)));
        }
        let ghost sheets = self@.workbook->Some_0@;
        let mut i: usize = 0;
        loop
            invariant
                i <= sheets.len(),
                old(self)@.workbook is Some,
                self@.workbook == old(self)@.workbook,
                sheets == self@.workbook->Some_0@,
                forall|k: PartKind, t: &str| parse.requires((k, t)),
                forall|r: Result<(), ErrorView>, end: SpreadsheetView|
                    sheets_loaded(*parse, sheets, i as int, self@, r, end) ==> sheets_loaded(
                        *parse,
                        sheets,
                        0,
                        old(self)@,
                        r,
                        end,
                    ),
            decreases sheets.len() - i,
        {
            let ghost before = self@;
            let (name, id) = match self.declared_sheet(i) {
                Some(sheet) => sheet,
                None => {
                    return Ok(());
                },
            };
            let target = match self.get_target_by_rid(id) {
                Ok(target) => target,
                Err(e) => {
                    return Err(e);
                },
            };
            if self.worksheets.contains_key(name.as_str()) {
                return Ok(());
            }
            let path = String::from_str(WORKBOOK_DIR).concat(target.as_str());
            let step = self.load(PartKind::Worksheet, name.as_str(), path.as_str(), parse);
            proof {
                assert(path@ == sheet_path(before.rels[WORKBOOK_RELS_PATH@]@, sheets[i as int]));
                lemma_loads_worksheet_frame(
                    *parse,
                    name@,
                    path@,
                    before,
                    outcome_view(step),
                    self@,
                );
            }
            match step {
                Ok(()) => {},
                Err(e) => {
                    return Err(e);
                },
            }
            assert forall|r: Result<(), ErrorView>, end: SpreadsheetView|
                sheets_loaded(*parse, sheets, i + 1, self@, r, end) implies sheets_loaded(
                *parse,
                sheets,
                0,
                old(self)@,
                r,
                end,
            ) by {}
            i += 1;
        }
    }

    fn get_target_by_rid(&self, rid: String) -> (res: Result<String, ExcelizeError>)
        ensures
            result_view(res) == target_by_rid(self@, rid@),
    {
        match self.rels.get(WORKBOOK_RELS_PATH) {
            Some(rels) => Ok(resolve_target(rels, rid.as_str())),
            None => Err(ExcelizeError::NotLoaded(String::from_str(WORKBOOK_RELS_PATH))),
        }
    }
}

} // verus!
