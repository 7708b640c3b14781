//! The document handle: the part store and the caches of parsed parts.

use vstd::prelude::*;
use vstd::hash_map::StringHashMap;
use crate::archive::unpacked;
use crate::error::{ErrorView, ExcelizeError};
use crate::part::{
    loads, ParsedPart, PartKind, CONTENT_TYPES_PATH, SHARED_STRINGS_PATH, WORKBOOK_PATH,
    WORKBOOK_RELS_PATH,
};
use crate::rels::Rels;
use crate::sst::SST;
use crate::workbook::Workbook;
use crate::worksheet::{worksheets_loaded, Worksheet};
use crate::xml_content_types::XMLTypes;
use crate::xml_rels::XMLRelationships;
use crate::xml_sst::CTSST;
use crate::xml_workbook::XMLWorkbook;
use crate::xml_worksheet::XMLWorksheet;

verus! {

/// An open package.
///
/// `file` is the part store: every stored entry of the container under its
/// path. The other fields cache parsed parts, and a loader leaves a cache
/// that is filled as it is. `worksheets` is keyed by sheet name, `rels` by
/// the path of the relationships part.
pub struct Spreadsheet {
    pub file: StringHashMap<Vec<u8>>,
    pub content_type: Option<XMLTypes>,
    pub workbook: Option<XMLWorkbook>,
    pub worksheets: StringHashMap<XMLWorksheet>,
    pub sst: Option<CTSST>,
    pub rels: StringHashMap<XMLRelationships>,
}

/// A [`Spreadsheet`] as the library's rules read it: the part store as a
/// map from paths to bytes, and each cache with what it holds.
pub struct SpreadsheetView {
    /// The bytes of each part, by path.
    pub file: Map<Seq<char>, Seq<u8>>,
    /// The content types, once loaded.
    pub content_type: Option<XMLTypes>,
    /// The workbook, once loaded.
    pub workbook: Option<XMLWorkbook>,
    /// Each loaded worksheet, by sheet name.
    pub worksheets: Map<Seq<char>, XMLWorksheet>,
    /// The shared string table, once loaded.
    pub sst: Option<CTSST>,
    /// Each loaded relationships part, by its path.
    pub rels: Map<Seq<char>, XMLRelationships>,
}

impl View for Spreadsheet {
    type V = SpreadsheetView;

    open spec fn view(&self) -> SpreadsheetView {
        SpreadsheetView {
            file: self.file@.map_values(|bytes: Vec<u8>| bytes@),
            content_type: self.content_type,
            workbook: self.workbook,
            worksheets: self.worksheets@,
            sst: self.sst,
            rels: self.rels@,
        }
    }
}

impl SpreadsheetView {
    /// A package with no part and nothing loaded.
    pub open spec fn empty() -> SpreadsheetView {
        SpreadsheetView {
            file: Map::empty(),
            content_type: None,
            workbook: None,
            worksheets: Map::empty(),
            sst: None,
            rels: Map::empty(),
        }
    }
}

/// An opened package, or the failure to open it, as the library's rules
/// read them.
pub open spec fn opened_view(res: Result<Spreadsheet, ExcelizeError>) -> Result<
    SpreadsheetView,
    ErrorView,
> {
    match res {
        Ok(doc) => Ok(doc@),
        Err(e) => Err(e@),
    }
}

/// Whether priming the caches of the package `doc`, with the deserializer
/// `parse`, can end in `res`.
///
/// The content types, the workbook, the workbook's relationships and the
/// worksheets are loaded in this order, and the first failure is the
/// result. The shared strings are loaded last, and a failure to load them
/// is passed over.
pub open spec fn primed<F: Fn(PartKind, &str) -> Result<ParsedPart, String>>(
    parse: F,
    doc: SpreadsheetView,
    res: Result<SpreadsheetView, ErrorView>,
) -> bool {
    exists|r1: Result<(), ErrorView>, d1: SpreadsheetView|
        #[trigger] loads(
            parse,
            PartKind::ContentTypes,
            CONTENT_TYPES_PATH@,
            CONTENT_TYPES_PATH@,
            doc,
            r1,
            d1,
        ) && if r1 is Err {
            res == Err::<SpreadsheetView, ErrorView>(r1->Err_0)
        } else {
            exists|r2: Result<(), ErrorView>, d2: SpreadsheetView|
                #[trigger] loads(
                    parse,
                    PartKind::Workbook,
                    WORKBOOK_PATH@,
                    WORKBOOK_PATH@,
                    d1,
                    r2,
                    d2,
                ) && if r2 is Err {
                    res == Err::<SpreadsheetView, ErrorView>(r2->Err_0)
                } else {
                    exists|r3: Result<(), ErrorView>, d3: SpreadsheetView|
                        #[trigger] loads(
                            parse,
                            PartKind::Relationships,
                            WORKBOOK_RELS_PATH@,
                            WORKBOOK_RELS_PATH@,
                            d2,
                            r3,
                            d3,
                        ) && if r3 is Err {
                            res == Err::<SpreadsheetView, ErrorView>(r3->Err_0)
                        } else {
                            exists|r4: Result<(), ErrorView>, d4: SpreadsheetView|
                                #[trigger] worksheets_loaded(parse, d3, r4, d4) && if r4 is Err {
                                    res == Err::<SpreadsheetView, ErrorView>(r4->Err_0)
                                } else {
                                    exists|r5: Result<(), ErrorView>, d5: SpreadsheetView|
                                        #[trigger] loads(
                                            parse,
                                            PartKind::SharedStrings,
                                            SHARED_STRINGS_PATH@,
                                            SHARED_STRINGS_PATH@,
                                            d4,
                                            r5,
                                            d5,
                                        ) && res == Ok::<SpreadsheetView, ErrorView>(d5)
                                }
                        }
                }
        }
}

/// Whether opening the container `bytes`, with the deserializer `parse`,
/// can end in `res`: the container is unpacked, and the caches of the
/// package that it holds are primed.
pub open spec fn opened<F: Fn(PartKind, &str) -> Result<ParsedPart, String>>(
    parse: F,
    bytes: Seq<u8>,
    res: Result<SpreadsheetView, ErrorView>,
) -> bool {
    match unpacked(bytes) {
        Err(fault) => res == Err::<SpreadsheetView, ErrorView>(ErrorView::Container(fault)),
        Ok(parts) => primed(parse, SpreadsheetView { file: parts, ..SpreadsheetView::empty() }, res),
    }
}

impl Spreadsheet {
    /// Opens the package that the container `bytes` holds: unpacks it and
    /// loads what a cell lookup reads, so that lookups need no further
    /// parsing. `parse` turns the text of a part into its structure.
    pub fn open<F: Fn(PartKind, &str) -> Result<ParsedPart, String>>(
        bytes: Vec<u8>,
        parse: &F,
    ) -> (res: Result<Spreadsheet, ExcelizeError>)
        requires
            forall|k: PartKind, t: &str| parse.requires((k, t)),
        ensures
            opened(*parse, bytes@, opened_view(res)),
    {
        let mut doc = match Spreadsheet::unpack(bytes) {
            Ok(doc) => doc,
            Err(e) => {
                return Err(e);
            },
        };
        match doc.get_content_type(parse) {
            Ok(()) => {},
            Err(e) => {
                return Err(e);
            },
        }
        match doc.get_workbook(parse) {
            Ok(()) => {},
            Err(e) => {
                return Err(e);
            },
        }
        match doc.rels_reader(WORKBOOK_RELS_PATH, parse) {
            Ok(()) => {},
            Err(e) => {
                return Err(e);
            },
        }
        match doc.worksheet_reader(parse) {
            Ok(()) => {},
            Err(e) => {
                return Err(e);
            },
        }
        let _ = doc.get_sst(parse);
        Ok(doc)
    }

    /// Puts a part into the part store, in place of the one at its path
    /// where there is one.
    pub fn insert_part(&mut self, path: String, bytes: Vec<u8>)
        ensures
            final(self)@ == (SpreadsheetView {
                file: old(self)@.file.insert(path@, bytes@),
                ..old(self)@
            }),
    {
        self.file.insert(path, bytes);
        assert(self@.file =~= old(self)@.file.insert(path@, bytes@));
    }

    /// The bytes of the part at `path`.
    pub fn part(&self, path: &str) -> (res: Option<&Vec<u8>>)
        ensures
            match res {
                Some(bytes) => self@.file.contains_key(path@) && self@.file[path@] == bytes@,
                None => !self@.file.contains_key(path@),
            },
    {
        self.file.get(path)
    }

    /// The loaded worksheet of the sheet named `name`.
    pub fn worksheet(&self, name: &str) -> (res: Option<&XMLWorksheet>)
        ensures
            match res {
                Some(sheet) => self@.worksheets.contains_key(name@) && self@.worksheets[name@]
                    == *sheet,
                None => !self@.worksheets.contains_key(name@),
            },
    {
        self.worksheets.get(name)
    }

    /// The loaded relationships of the relationships part at `path`.
    pub fn relationships(&self, path: &str) -> (res: Option<&XMLRelationships>)
        ensures
            match res {
                Some(rels) => self@.rels.contains_key(path@) && self@.rels[path@] == *rels,
                None => !self@.rels.contains_key(path@),
            },
    {
        self.rels.get(path)
    }

    /// A package with no part and nothing loaded.
    pub fn new() -> (doc: Spreadsheet)
        ensures
            doc@ == SpreadsheetView::empty(),
    {
        let doc = Spreadsheet {
            file: StringHashMap::new(),
            content_type: None,
            workbook: None,
            worksheets: StringHashMap::new(),
            sst: None,
            rels: StringHashMap::new(),
        };
        assert(doc@.file =~= Map::empty());
        doc
    }
}

} // verus!
