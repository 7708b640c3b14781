//! The workbook part: the sheets a package declares.

use vstd::prelude::*;

verus! {

/// The workbook element.
#[derive(Debug, PartialEq)]
pub struct XMLWorkbook {
    pub file_version: XMLFileVersion,
    pub sheets: XMLSheets,
}

/// Which application wrote the package, and in which version.
#[derive(Debug, PartialEq)]
pub struct XMLFileVersion {
    pub app_name: String,
    pub last_edited: i32,
    pub lowest_edited: i32,
    pub rup_build: i32,
}

/// The declared sheets, in declaration order.
#[derive(Debug, PartialEq)]
pub struct XMLSheets {
    pub sheet: Vec<XMLSheet>,
}

/// One declared sheet. Its content lives in another part, which `id` names
/// through the workbook's relationships.
#[derive(Debug, PartialEq)]
pub struct XMLSheet {
    pub name: String,
    pub sheet_id: i32,
    pub id: String,
}

/// An [`XMLSheet`] with its texts as sequences of characters.
pub struct SheetEntryView {
    pub name: Seq<char>,
    pub sheet_id: i32,
    pub id: Seq<char>,
}

impl View for XMLSheet {
    type V = SheetEntryView;

    open spec fn view(&self) -> SheetEntryView {
        SheetEntryView { name: self.name@, sheet_id: self.sheet_id, id: self.id@ }
    }
}

/// A workbook is modelled by its declared sheets.
impl View for XMLWorkbook {
    type V = Seq<SheetEntryView>;

    open spec fn view(&self) -> Seq<SheetEntryView> {
        self.sheets.sheet@.map_values(|s: XMLSheet| s@)
    }
}

} // verus!
