//! Read-only access to spreadsheet packages: a zip container of related XML
//! parts is unpacked into a part store, the parts a cell lookup needs are
//! loaded and cached, and a cell's stored form is resolved to its text.

pub mod archive;
pub mod cell;
pub mod error;
pub mod excelize;
pub mod part;
pub mod rels;
pub mod sst;
pub mod text;
pub mod utils;
pub mod workbook;
pub mod worksheet;
pub mod xml_content_types;
pub mod xml_rels;
pub mod xml_sst;
pub mod xml_workbook;
pub mod xml_worksheet;

pub use cell::Cell;
pub use error::{ContainerFault, ExcelizeError};
pub use excelize::Spreadsheet;
pub use part::{ParsedPart, PartKind};
pub use rels::Rels;
pub use sst::SST;
pub use utils::{cell_name, column_number_to_name};
pub use workbook::Workbook;
pub use worksheet::Worksheet;
pub use xml_content_types::{XMLOverride, XMLTypes};
pub use xml_rels::{XMLRelationship, XMLRelationships};
pub use xml_sst::{
    CTPhoneticPr, CTPhoneticRun, CTRst, CTSST, RElt, RPrElt, STXBool, STXInt, STXstring,
};
pub use xml_workbook::{XMLFileVersion, XMLSheet, XMLSheets, XMLWorkbook};
pub use xml_worksheet::{
    CTAutoFilter, CTCell, CTCol, CTColor, CTColorFilter, CTCols, CTCustomFilter, CTCustomFilters,
    CTDateGroupItem, CTDynamicFilter, CTFilter, CTFilterColumn, CTFilters, CTIconFilter,
    CTOutlinePr, CTPageSetUpPr, CTRow, CTSheetData, CTSheetDimension, CTSheetFormatPr, CTSheetPr,
    CTSheetProtection, CTSheetView, CTSheetViews, CTSortCondition, CTSortState, CTTop10,
    XMLWorksheet,
};
