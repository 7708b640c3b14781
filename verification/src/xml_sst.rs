//! The shared-strings part: the texts that cells refer to by position.

use vstd::prelude::*;

verus! {

/// The shared string table. A cell of type `s` holds a position in `si`.
#[derive(Debug, PartialEq)]
pub struct CTSST {
    pub count: Option<i32>,
    pub unique_count: Option<i32>,
    pub si: Vec<CTRst>,
    pub ext_lst: Option<String>,
}

/// One string item: plain text fragments, or rich-text runs that together
/// spell the string.
#[derive(Debug, PartialEq)]
pub struct CTRst {
    pub t: Option<Vec<String>>,
    pub r: Option<Vec<RElt>>,
    pub r_ph: Option<Vec<CTPhoneticRun>>,
    pub phonetic_pr: Option<Vec<CTPhoneticPr>>,
}

/// A run of phonetic hint text.
#[derive(Debug, PartialEq)]
pub struct CTPhoneticRun {}

/// How phonetic hint text is displayed.
#[derive(Debug, PartialEq)]
pub struct CTPhoneticPr {}

/// A rich-text run: its text and the formatting applied to it.
#[derive(Debug, PartialEq)]
pub struct RElt {
    pub t: String,
    pub r_pr: Option<Vec<RPrElt>>,
}

/// The formatting of a rich-text run.
#[derive(Debug, PartialEq)]
pub struct RPrElt {
    pub r_font: Option<STXstring>,
    pub charset: Option<STXInt>,
    pub family: Option<STXInt>,
    pub b: Option<STXBool>,
    pub i: Option<STXBool>,
    pub strike: Option<STXBool>,
    pub outline: Option<STXBool>,
    pub shadow: Option<STXBool>,
    pub condense: Option<STXBool>,
    pub extend: Option<STXBool>,
}

/// An element whose `val` attribute is a string.
#[derive(Debug, PartialEq)]
pub struct STXstring {
    pub val: String,
}

/// An element whose `val` attribute is an integer.
#[derive(Debug, PartialEq)]
pub struct STXInt {
    pub val: i32,
}

/// An element whose `val` attribute is a boolean.
#[derive(Debug, PartialEq)]
pub struct STXBool {
    pub val: Option<bool>,
}

/// A [`CTRst`] as far as a cell's value depends on it: the plain fragments
/// and the texts of the runs.
pub struct StringItemView {
    pub fragments: Option<Seq<Seq<char>>>,
    pub runs: Option<Seq<Seq<char>>>,
}

impl View for CTRst {
    type V = StringItemView;

    open spec fn view(&self) -> StringItemView {
        StringItemView {
            fragments: match self.t {
                Some(t) => Some(t@.map_values(|s: String| s@)),
                None => None,
            },
            runs: match self.r {
                Some(r) => Some(r@.map_values(|e: RElt| e.t@)),
                None => None,
            },
        }
    }
}

impl View for CTSST {
    type V = Seq<StringItemView>;

    open spec fn view(&self) -> Seq<StringItemView> {
        self.si@.map_values(|item: CTRst| item@)
    }
}

impl RElt {
    /// A run with this text and no formatting.
    pub fn plain(t: String) -> (run: RElt)
        ensures
            run == (RElt { t, r_pr: None }),
    {
        RElt { t, r_pr: None }
    }
}

impl CTRst {
    /// An item of plain text fragments.
    pub fn with_fragments(t: Vec<String>) -> (item: CTRst)
        ensures
            item == (CTRst { t: Some(t), r: None, r_ph: None, phonetic_pr: None }),
    {
        CTRst { t: Some(t), r: None, r_ph: None, phonetic_pr: None }
    }

    /// An item of rich-text runs.
    pub fn with_runs(r: Vec<RElt>) -> (item: CTRst)
        ensures
            item == (CTRst { t: None, r: Some(r), r_ph: None, phonetic_pr: None }),
    {
        CTRst { t: None, r: Some(r), r_ph: None, phonetic_pr: None }
    }
}

impl CTSST {
    /// A table of these items.
    pub fn with_items(si: Vec<CTRst>) -> (sst: CTSST)
        ensures
            sst == (CTSST { count: None, unique_count: None, si, ext_lst: None }),
    {
        CTSST { count: None, unique_count: None, si, ext_lst: None }
    }
}

} // verus!
