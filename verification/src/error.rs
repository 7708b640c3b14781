//! The failures this library reports.

use vstd::prelude::*;
use vstd::string::*;
use crate::text::{decimal, decimal_string};

verus! {

/// Why a container could not be unpacked.
#[derive(Debug, PartialEq, Eq)]
pub enum ContainerFault {
    /// The bytes are not a readable zip archive.
    NotAnArchive,
    /// The entry at this position cannot be opened or decompressed.
    EntryUnreadable(usize),
    /// The entry of this name would leave the extraction root.
    UnsafeEntryName(String),
}

/// A failure of this library.
#[derive(Debug, PartialEq, Eq)]
pub enum ExcelizeError {
    /// The container is unreadable, or one of its entries is.
    Container(ContainerFault),
    /// The part at this path is needed and the package has none.
    PartMissing(String),
    /// The part at `part` is present and cannot be turned into its structure.
    Parse { part: String, detail: String },
    /// The column number is outside `1..=TOTAL_COLUMNS`.
    Argument(u32),
    /// No worksheet of this name is loaded.
    NotFound(String),
    /// Something that the request depends on was never loaded.
    NotLoaded(String),
    /// A shared-string cell with this index text has no item to point at.
    InconsistentPackage(String),
}

/// What a [`ContainerFault`] says, with its text as a sequence of characters.
pub enum ContainerFaultView {
    NotAnArchive,
    EntryUnreadable(usize),
    UnsafeEntryName(Seq<char>),
}

/// What an [`ExcelizeError`] says, with its texts as sequences of characters.
pub enum ErrorView {
    Container(ContainerFaultView),
    PartMissing(Seq<char>),
    Parse { part: Seq<char>, detail: Seq<char> },
    Argument(u32),
    NotFound(Seq<char>),
    NotLoaded(Seq<char>),
    InconsistentPackage(Seq<char>),
}

impl View for ContainerFault {
    type V = ContainerFaultView;

    open spec fn view(&self) -> ContainerFaultView {
        match *self {
            ContainerFault::NotAnArchive => ContainerFaultView::NotAnArchive,
            ContainerFault::EntryUnreadable(i) => ContainerFaultView::EntryUnreadable(i),
            ContainerFault::UnsafeEntryName(name) => ContainerFaultView::UnsafeEntryName(name@),
        }
    }
}

impl View for ExcelizeError {
    type V = ErrorView;

    open spec fn view(&self) -> ErrorView {
        match *self {
            ExcelizeError::Container(fault) => ErrorView::Container(fault@),
            ExcelizeError::PartMissing(path) => ErrorView::PartMissing(path@),
            ExcelizeError::Parse { part, detail } => ErrorView::Parse {
                part: part@,
                detail: detail@,
            },
            ExcelizeError::Argument(col) => ErrorView::Argument(col),
            ExcelizeError::NotFound(sheet) => ErrorView::NotFound(sheet@),
            ExcelizeError::NotLoaded(what) => ErrorView::NotLoaded(what@),
            ExcelizeError::InconsistentPackage(index) => ErrorView::InconsistentPackage(index@),
        }
    }
}

/// What an error says in words.
pub open spec fn message_text(e: ErrorView) -> Seq<char> {
    match e {
        ErrorView::Container(ContainerFaultView::NotAnArchive) => "read zip error"@,
        ErrorView::Container(ContainerFaultView::EntryUnreadable(index)) => "read zip entry "@
            + decimal(index as nat) + " failed"@,
        ErrorView::Container(ContainerFaultView::UnsafeEntryName(name)) => "extract zip failed: "@
            + name,
        ErrorView::PartMissing(path) => path + " is none"@,
        ErrorView::Parse { part, detail } => part + ": "@ + detail,
        ErrorView::Argument(col) => if col < 1 {
            "incorrect column number "@ + decimal(col as nat)
        } else {
            "column number exceeds maximum limit"@
        },
        ErrorView::NotFound(sheet) => "sheet "@ + sheet + " is not exist"@,
        ErrorView::NotLoaded(what) => what + " is not loaded"@,
        ErrorView::InconsistentPackage(index) => "shared string "@ + index + " is none"@,
    }
}

impl ExcelizeError {
    /// What the error says in words.
    pub fn message(&self) -> (res: String)
        ensures
            res@ == message_text(self@),
    {
        match self {
            ExcelizeError::Container(ContainerFault::NotAnArchive) => String::from_str(
                "read zip error",
            ),
            ExcelizeError::Container(ContainerFault::EntryUnreadable(index)) => String::from_str(
                "read zip entry ",
            ).concat(decimal_string(*index as u64).as_str()).concat(" failed"),
            ExcelizeError::Container(ContainerFault::UnsafeEntryName(name)) => String::from_str(
                "extract zip failed: ",
            ).concat(name.as_str()),
            ExcelizeError::PartMissing(path) => path.clone().concat(" is none"),
            ExcelizeError::Parse { part, detail } => part.clone().concat(": ").concat(
                detail.as_str(),
            ),
            ExcelizeError::Argument(col) => if *col < 1 {
                String::from_str("incorrect column number ").concat(
                    decimal_string(*col as u64).as_str(),
                )
            } else {
                String::from_str("column number exceeds maximum limit")
            },
            ExcelizeError::NotFound(sheet) => String::from_str("sheet ").concat(
                sheet.as_str(),
            ).concat(" is not exist"),
            ExcelizeError::NotLoaded(what) => what.clone().concat(" is not loaded"),
            ExcelizeError::InconsistentPackage(index) => String::from_str("shared string ").concat(
                index.as_str(),
            ).concat(" is none"),
        }
    }
}

/// A text result with its text, or its error, as sequences of characters.
pub open spec fn result_view(res: Result<String, ExcelizeError>) -> Result<Seq<char>, ErrorView> {
    match res {
        Ok(text) => Ok(text@),
        Err(e) => Err(e@),
    }
}

/// A result without a value, with its error as sequences of characters.
pub open spec fn outcome_view(res: Result<(), ExcelizeError>) -> Result<(), ErrorView> {
    match res {
        Ok(()) => Ok(()),
        Err(e) => Err(e@),
    }
}

} // verus!
