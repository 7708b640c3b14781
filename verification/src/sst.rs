//! Loading the shared string table.

use vstd::prelude::*;
use crate::error::{outcome_view, ExcelizeError};
use crate::excelize::Spreadsheet;
use crate::part::{loads, ParsedPart, PartKind, SHARED_STRINGS_PATH};

verus! {

/// Loading the shared string table.
pub trait SST {
    /// Parses and caches the shared-strings part, unless it is cached. A
    /// package need not have the part: its absence is reported as a missing
    /// part, for the caller to pass over.
    fn get_sst<F: Fn(PartKind, &str) -> Result<ParsedPart, String>>(
        &mut self,
        parse: &F,
    ) -> Result<(), ExcelizeError> where Self: std::marker::Sized
        requires
            forall|k: PartKind, t: &str| parse.requires((k, t)),
    ;
}

impl SST for Spreadsheet {
    fn get_sst<F: Fn(PartKind, &str) -> Result<ParsedPart, String>>(
        &mut self,
        parse: &F,
    ) -> (res: Result<(), ExcelizeError>)
        ensures
            loads(
                *parse,
                PartKind::SharedStrings,
                SHARED_STRINGS_PATH@,
                SHARED_STRINGS_PATH@,
                old(self)@,
                outcome_view(res),
                final(self)@,
            ),
    {
        self.load(PartKind::SharedStrings, SHARED_STRINGS_PATH, SHARED_STRINGS_PATH, parse)
    }
}

} // verus!
