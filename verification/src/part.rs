//! Parts of a package: their kinds, their well-known paths, and the
//! cache-or-load step that every loader shares.
//!
//! Turning the text of a part into its structure is the work of a
//! deserializer that the caller supplies: a function from the kind of part
//! and its text to the parsed part or a message.

use vstd::prelude::*;
use vstd::string::*;
use crate::error::{outcome_view, ErrorView, ExcelizeError};
use crate::excelize::{Spreadsheet, SpreadsheetView};
use crate::text::{part_text, utf8_text};
use crate::xml_content_types::XMLTypes;
use crate::xml_rels::XMLRelationships;
use crate::xml_sst::CTSST;
use crate::xml_workbook::XMLWorkbook;
use crate::xml_worksheet::XMLWorksheet;

verus! {

/// The path of the content-types part.
pub const CONTENT_TYPES_PATH: &'static str = "[Content_Types].xml";

/// The path of the workbook part.
pub const WORKBOOK_PATH: &'static str = "xl/workbook.xml";

/// The path of the workbook's relationships part.
pub const WORKBOOK_RELS_PATH: &'static str = "xl/_rels/workbook.xml.rels";

/// The path of the shared-strings part.
pub const SHARED_STRINGS_PATH: &'static str = "xl/sharedStrings.xml";

/// The directory that the targets of the workbook's relationships are
/// relative to.
pub const WORKBOOK_DIR: &'static str = "xl/";

/// The detail of the parse error for a part that is not UTF-8.
pub const NOT_TEXT: &'static str = "part is not valid UTF-8";

/// The detail of the parse error for a part that was parsed into the
/// structure of another kind.
pub const WRONG_KIND: &'static str = "part has the structure of another kind";

/// The shapes a part can be parsed into.
#[derive(Debug, Clone, Copy, PartialEq, Eq, Structural)]
pub enum PartKind {
    ContentTypes,
    Workbook,
    Relationships,
    Worksheet,
    SharedStrings,
}

/// A part in its parsed shape.
#[derive(Debug, PartialEq)]
pub enum ParsedPart {
    ContentTypes(XMLTypes),
    Workbook(XMLWorkbook),
    Relationships(XMLRelationships),
    Worksheet(XMLWorksheet),
    SharedStrings(CTSST),
}

impl ParsedPart {
    /// The kind of part that has this shape.
    pub open spec fn kind(self) -> PartKind {
        match self {
            ParsedPart::ContentTypes(_) => PartKind::ContentTypes,
            ParsedPart::Workbook(_) => PartKind::Workbook,
            ParsedPart::Relationships(_) => PartKind::Relationships,
            ParsedPart::Worksheet(_) => PartKind::Worksheet,
            ParsedPart::SharedStrings(_) => PartKind::SharedStrings,
        }
    }
}

impl SpreadsheetView {
    /// Whether the cache for `kind` is filled. The caches for relationships
    /// and worksheets are filled key by key; the others have one slot and
    /// no use for `key`.
    pub open spec fn holds(self, kind: PartKind, key: Seq<char>) -> bool {
        match kind {
            PartKind::ContentTypes => self.content_type is Some,
            PartKind::Workbook => self.workbook is Some,
            PartKind::Relationships => self.rels.contains_key(key),
            PartKind::Worksheet => self.worksheets.contains_key(key),
            PartKind::SharedStrings => self.sst is Some,
        }
    }

    /// The package with `part` put in the cache of its kind, under `key`
    /// where that cache has keys.
    pub open spec fn with(self, part: ParsedPart, key: Seq<char>) -> SpreadsheetView {
        match part {
            ParsedPart::ContentTypes(types) => SpreadsheetView {
                content_type: Some(types),
                ..self
            },
            ParsedPart::Workbook(workbook) => SpreadsheetView { workbook: Some(workbook), ..self },
            ParsedPart::Relationships(rels) => SpreadsheetView {
                rels: self.rels.insert(key, rels),
                ..self
            },
            ParsedPart::Worksheet(sheet) => SpreadsheetView {
                worksheets: self.worksheets.insert(key, sheet),
                ..self
            },
            ParsedPart::SharedStrings(sst) => SpreadsheetView { sst: Some(sst), ..self },
        }
    }
}

/// What the part store offers for a path.
pub enum Source {
    /// No part has this path.
    Missing,
    /// The part is not UTF-8.
    NotText,
    /// The part, as text.
    Text(Seq<char>),
}

/// What the part store `file` offers for `path`.
pub open spec fn source(file: Map<Seq<char>, Seq<u8>>, path: Seq<char>) -> Source {
    if !file.contains_key(path) {
        Source::Missing
    } else {
        match part_text(file[path]) {
            Some(text) => Source::Text(text),
            None => Source::NotText,
        }
    }
}

/// The package and the result after the deserializer answered `out` to the
/// text of the part at `path`, asked for as a `kind` to be cached under
/// `key`. A parsed part of the kind asked for is cached; anything else is a
/// parse error and leaves the package as it was.
pub open spec fn accepted(
    doc: SpreadsheetView,
    kind: PartKind,
    key: Seq<char>,
    path: Seq<char>,
    out: Result<ParsedPart, String>,
) -> (Result<(), ErrorView>, SpreadsheetView) {
    match out {
        Ok(part) => if part.kind() == kind {
            (Ok(()), doc.with(part, key))
        } else {
            (Err(ErrorView::Parse { part: path, detail: WRONG_KIND@ }), doc)
        },
        Err(message) => (Err(ErrorView::Parse { part: path, detail: message@ }), doc),
    }
}

/// Whether loading the part at `path` as a `kind` under `key`, with the
/// deserializer `parse`, can take the package `doc` to `end` with the
/// result `res`.
///
/// A filled cache is left alone. Otherwise the part must be there and be
/// text; the deserializer is then asked once, and its answer is accepted.
pub open spec fn loads<F: Fn(PartKind, &str) -> Result<ParsedPart, String>>(
    parse: F,
    kind: PartKind,
    key: Seq<char>,
    path: Seq<char>,
    doc: SpreadsheetView,
    res: Result<(), ErrorView>,
    end: SpreadsheetView,
) -> bool {
    if doc.holds(kind, key) {
        res is Ok && end == doc
    } else {
        match source(doc.file, path) {
            Source::Missing => res == Err::<(), ErrorView>(ErrorView::PartMissing(path)) && end
                == doc,
            Source::NotText => res == Err::<(), ErrorView>(
                ErrorView::Parse { part: path, detail: NOT_TEXT@ },
            ) && end == doc,
            Source::Text(text) => exists|t: &str, out: Result<ParsedPart, String>|
                t@ == text && #[trigger] parse.ensures((kind, t), out) && (res, end) == accepted(
                    doc,
                    kind,
                    key,
                    path,
                    out,
                ),
        }
    }
}

impl Spreadsheet {
    /// Whether the cache for `kind` is filled, under `key` where it has keys.
    pub fn is_loaded(&self, kind: PartKind, key: &str) -> (res: bool)
        ensures
            res == self@.holds(kind, key@),
    {
        match kind {
            PartKind::ContentTypes => self.content_type.is_some(),
            PartKind::Workbook => self.workbook.is_some(),
            PartKind::Relationships => self.rels.contains_key(key),
            PartKind::Worksheet => self.worksheets.contains_key(key),
            PartKind::SharedStrings => self.sst.is_some(),
        }
    }

    /// The text of the part at `path`.
    pub fn part_source<'a>(&'a self, path: &str) -> (res: Result<&'a str, ExcelizeError>)
        ensures
            match source(self@.file, path@) {
                Source::Missing => res is Err && res->Err_0@ == ErrorView::PartMissing(path@),
                Source::NotText => res is Err && res->Err_0@ == (ErrorView::Parse {
                    part: path@,
                    detail: NOT_TEXT@,
                }),
                Source::Text(text) => res is Ok && res->Ok_0@ == text,
            },
    {
        match self.file.get(path) {
            None => Err(ExcelizeError::PartMissing(String::from_str(path))),
            Some(bytes) => match utf8_text(bytes.as_slice()) {
                Some(text) => Ok(text),
                None => Err(
                    ExcelizeError::Parse {
                        part: String::from_str(path),
                        detail: String::from_str(NOT_TEXT),
                    },
                ),
            },
        }
    }

    /// Takes the deserializer's answer `out` for the part at `path`, asked
    /// for as a `kind` to be cached under `key`.
    pub fn accept(&mut self, kind: PartKind, key: &str, path: &str, out: Result<
        ParsedPart,
        String,
    >) -> (res: Result<(), ExcelizeError>)
        ensures
            (outcome_view(res), final(self)@) == accepted(old(self)@, kind, key@, path@, out),
    {
        match out {
            Err(message) => Err(
                ExcelizeError::Parse { part: String::from_str(path), detail: message },
            ),
            Ok(part) => {
                match (kind, part) {
                    (PartKind::ContentTypes, ParsedPart::ContentTypes(types)) => {
                        self.content_type = Some(types);
                    },
                    (PartKind::Workbook, ParsedPart::Workbook(workbook)) => {
                        self.workbook = Some(workbook);
                    },
                    (PartKind::Relationships, ParsedPart::Relationships(rels)) => {
                        self.rels.insert(String::from_str(key), rels);
                    },
                    (PartKind::Worksheet, ParsedPart::Worksheet(sheet)) => {
                        self.worksheets.insert(String::from_str(key), sheet);
                    },
                    (PartKind::SharedStrings, ParsedPart::SharedStrings(sst)) => {
                        self.sst = Some(sst);
                    },
                    _ => {
                        return Err(
                            ExcelizeError::Parse {
                                part: String::from_str(path),
                                detail: String::from_str(WRONG_KIND),
                            },
                        );
                    },
                }
                Ok(())
            },
        }
    }

    /// Fills the cache for `kind`, under `key` where it has keys, from the
    /// part at `path`, unless it is filled already.
    pub fn load<F: Fn(PartKind, &str) -> Result<ParsedPart, String>>(
        &mut self,
        kind: PartKind,
        key: &str,
        path: &str,
        parse: &F,
    ) -> (res: Result<(), ExcelizeError>)
        requires
            forall|k: PartKind, t: &str| parse.requires((k, t)),
        ensures
            loads(*parse, kind, key@, path@, old(self)@, outcome_view(res), final(self)@),
    {
        if self.is_loaded(kind, key) {
            return Ok(());
        }
        let out = match self.part_source(path) {
            Ok(text) => parse(kind, text),
            Err(e) => {
                return Err(e);
            },
        };
        self.accept(kind, key, path, out)
    }
}

} // verus!
