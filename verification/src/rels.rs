//! Loading relationships parts.

use vstd::prelude::*;
use crate::error::{outcome_view, ExcelizeError};
use crate::excelize::Spreadsheet;
use crate::part::{loads, ParsedPart, PartKind};

verus! {

/// Loading relationships parts.
pub trait Rels {
    /// Parses the relationships part at `path` and caches it under that
    /// path, unless one is cached there.
    fn rels_reader<F: Fn(PartKind, &str) -> Result<ParsedPart, String>>(
        &mut self,
        path: &str,
        parse: &F,
    ) -> Result<(), ExcelizeError> where Self: std::marker::Sized
        requires
            forall|k: PartKind, t: &str| parse.requires((k, t)),
    ;
}

impl Rels for Spreadsheet {
    fn rels_reader<F: Fn(PartKind, &str) -> Result<ParsedPart, String>>(
        &mut self,
        path: &str,
        parse: &F,
    ) -> (res: Result<(), ExcelizeError>)
        ensures
            loads(
                *parse,
                PartKind::Relationships,
                path@,
                path@,
                old(self)@,
                outcome_view(res),
                final(self)@,
            ),
    {
        self.load(PartKind::Relationships, path, path, parse)
    }
}

} // verus!
