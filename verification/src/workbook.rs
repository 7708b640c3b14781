//! Loading the content types and the workbook.

use vstd::prelude::*;
use crate::error::{outcome_view, ExcelizeError};
use crate::excelize::Spreadsheet;
use crate::part::{loads, ParsedPart, PartKind, CONTENT_TYPES_PATH, WORKBOOK_PATH};

verus! {

/// Loading the parts that describe the package as a whole.
pub trait Workbook {
    /// Parses and caches the content-types part, unless it is cached.
    fn get_content_type<F: Fn(PartKind, &str) -> Result<ParsedPart, String>>(
        &mut self,
        parse: &F,
    ) -> Result<(), ExcelizeError> where Self: std::marker::Sized
        requires
            forall|k: PartKind, t: &str| parse.requires((k, t)),
    ;

    /// Parses and caches the workbook part, unless it is cached.
    fn get_workbook<F: Fn(PartKind, &str) -> Result<ParsedPart, String>>(
        &mut self,
        parse: &F,
    ) -> Result<(), ExcelizeError> where Self: std::marker::Sized
        requires
            forall|k: PartKind, t: &str| parse.requires((k, t)),
    ;
}

impl Workbook for Spreadsheet {
    fn get_content_type<F: Fn(PartKind, &str) -> Result<ParsedPart, String>>(
        &mut self,
        parse: &F,
    ) -> (res: Result<(), ExcelizeError>)
        ensures
            loads(
                *parse,
                PartKind::ContentTypes,
                CONTENT_TYPES_PATH@,
                CONTENT_TYPES_PATH@,
                old(self)@,
                outcome_view(res),
                final(self)@,
            ),
    {
        self.load(PartKind::ContentTypes, CONTENT_TYPES_PATH, CONTENT_TYPES_PATH, parse)
    }

    fn get_workbook<F: Fn(PartKind, &str) -> Result<ParsedPart, String>>(
        &mut self,
        parse: &F,
    ) -> (res: Result<(), ExcelizeError>)
        ensures
            loads(
                *parse,
                PartKind::Workbook,
                WORKBOOK_PATH@,
                WORKBOOK_PATH@,
                old(self)@,
                outcome_view(res),
                final(self)@,
            ),
    {
        self.load(PartKind::Workbook, WORKBOOK_PATH, WORKBOOK_PATH, parse)
    }
}

} // verus!
