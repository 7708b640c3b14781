//! The worksheet part: rows of cells, and the sheet's presentation.
//!
//! Fractional attributes (widths, heights, tints) are carried as the bits of
//! their IEEE 754 double, in fields whose names end in `_bits`.

use vstd::prelude::*;

verus! {

/// The worksheet element: one sheet of the workbook.
#[derive(Debug, PartialEq)]
pub struct XMLWorksheet {
    pub sheet_pr: Option<CTSheetPr>,
    pub dimension: Option<CTSheetDimension>,
    pub sheet_views: Option<CTSheetViews>,
    pub sheet_format_pr: Option<CTSheetFormatPr>,
    pub cols: Option<CTCols>,
    pub sheet_data: CTSheetData,
    pub sheet_protection: Option<CTSheetProtection>,
    pub auto_filter: Option<CTAutoFilter>,
    pub sort_state: Option<CTSortState>,
}

/// The widths and formats of the columns.
#[derive(Debug, PartialEq)]
pub struct CTCols {
    pub col: Vec<CTCol>,
}

/// The width and format of the columns `min..=max`.
#[derive(Debug, PartialEq)]
pub struct CTCol {
    pub min: u32,
    pub max: u32,
    pub width_bits: Option<u64>,
    pub style: Option<u32>,
    pub hidden: Option<bool>,
    pub best_fit: Option<bool>,
    pub custom_width: Option<bool>,
    pub phonetic: Option<bool>,
    pub outline_level: Option<u8>,
    pub collapsed: Option<bool>,
}

/// The range of cells that are in use.
#[derive(Debug, PartialEq)]
pub struct CTSheetDimension {
    pub ref_attr: String,
}

/// The views of the sheet.
#[derive(Debug, PartialEq)]
pub struct CTSheetViews {
    pub sheet_view: Vec<CTSheetView>,
    pub ext_lst: Option<String>,
}

/// One view of the sheet.
#[derive(Debug, PartialEq)]
pub struct CTSheetView {
    pub tab_selected: Option<bool>,
    pub workbook_view_id: i32,
}

/// The default sizes of rows and columns.
#[derive(Debug, PartialEq)]
pub struct CTSheetFormatPr {
    pub base_col_width: Option<u32>,
    pub default_col_width_bits: Option<u64>,
    pub default_row_height_bits: u64,
    pub custom_height: Option<bool>,
    pub zero_height: Option<bool>,
    pub thick_top: Option<bool>,
    pub thick_bottom: Option<bool>,
    pub outline_level_row: Option<u8>,
    pub outline_level_col: Option<u8>,
}

/// The cell table, row by row. `row` is `None` where the sheet has no rows.
#[derive(Debug, PartialEq)]
pub struct CTSheetData {
    pub row: Option<Vec<CTRow>>,
}

/// One row: its number, where it has one, its cells and its format.
#[derive(Debug, PartialEq)]
pub struct CTRow {
    pub r: Option<u32>,
    pub spans: Option<String>,
    pub s: Option<u32>,
    pub custom_format: Option<bool>,
    pub ht_bits: Option<u64>,
    pub hidden: Option<bool>,
    pub custom_height: Option<bool>,
    pub outline_level: Option<u8>,
    pub collapsed: Option<bool>,
    pub thick_top: Option<bool>,
    pub thick_bot: Option<bool>,
    pub ph: Option<bool>,
    pub c: Vec<CTCell>,
    pub ext_lst: Option<String>,
}

/// One cell as it is stored: its reference such as `B3`, its type tag and
/// its literal value.
#[derive(Debug, PartialEq)]
pub struct CTCell {
    pub r: String,
    pub t: Option<String>,
    pub v: Option<String>,
}

/// Properties of the sheet as a whole.
#[derive(Debug, PartialEq)]
pub struct CTSheetPr {
    pub sync_horizontal: Option<bool>,
    pub sync_vertical: Option<bool>,
    pub sync_ref: Option<String>,
    pub transition_evaluation: Option<bool>,
    pub transition_entry: Option<bool>,
    pub published: Option<bool>,
    pub code_name: Option<String>,
    pub filter_mode: Option<bool>,
    pub enable_format_conditions_calculation: Option<bool>,
    pub tab_color: Vec<CTColor>,
    pub outline_pr: Vec<CTOutlinePr>,
    pub page_set_up_pr: Vec<CTPageSetUpPr>,
}

/// A colour: automatic, indexed, RGB or from the theme.
#[derive(Debug, PartialEq)]
pub struct CTColor {
    pub auto: Option<bool>,
    pub indexed: Option<u32>,
    pub rgb: Option<String>,
    pub theme: Option<u32>,
    pub tint_bits: Option<u64>,
}

/// How outlines are shown.
#[derive(Debug, PartialEq)]
pub struct CTOutlinePr {
    pub apply_styles: Option<bool>,
    pub summary_below: Option<bool>,
    pub summary_right: Option<bool>,
    pub show_outline_symbols: Option<bool>,
}

/// Page set-up switches.
#[derive(Debug, PartialEq)]
pub struct CTPageSetUpPr {
    pub auto_page_breaks: Option<bool>,
    pub fit_to_page: Option<bool>,
}

/// What a protected sheet lets its user do.
#[derive(Debug, PartialEq)]
pub struct CTSheetProtection {
    pub algorithm_name: Option<String>,
    pub hash_value: Option<String>,
    pub salt_value: Option<String>,
    pub spin_count: Option<u32>,
    pub sheet: Option<bool>,
    pub objects: Option<bool>,
    pub scenarios: Option<bool>,
    pub format_cells: Option<bool>,
    pub format_columns: Option<bool>,
    pub format_rows: Option<bool>,
    pub insert_columns: Option<bool>,
    pub insert_rows: Option<bool>,
    pub insert_hyperlinks: Option<bool>,
    pub delete_columns: Option<bool>,
    pub delete_rows: Option<bool>,
    pub select_locked_cells: Option<bool>,
    pub sort: Option<bool>,
    pub auto_filter: Option<bool>,
    pub pivot_tables: Option<bool>,
    pub select_unlocked_cells: Option<bool>,
}

/// The filter over a range of the sheet.
#[derive(Debug, PartialEq)]
pub struct CTAutoFilter {
    pub ref_attr: Option<String>,
    pub filter_column: Vec<CTFilterColumn>,
    pub sort_state: Option<CTSortState>,
}

/// The filter of one column.
#[derive(Debug, PartialEq)]
pub struct CTFilterColumn {
    pub col_id: u32,
    pub hidden_button: Option<bool>,
    pub show_button: Option<bool>,
    pub filters: Option<CTFilters>,
    pub top10: Option<CTTop10>,
    pub custom_filters: Option<CTCustomFilters>,
    pub dynamic_filter: Option<CTDynamicFilter>,
    pub color_filter: Option<CTColorFilter>,
    pub icon_filter: Option<CTIconFilter>,
    pub ext_lst: Option<String>,
}

/// A filter by colour.
#[derive(Debug, PartialEq)]
pub struct CTColorFilter {
    pub dxf_id: Option<u32>,
    pub cell_color: Option<bool>,
}

/// A filter by icon.
#[derive(Debug, PartialEq)]
pub struct CTIconFilter {
    pub icon_set: String,
    pub icon_id: Option<u32>,
}

/// A filter whose criterion depends on the data or the date.
#[derive(Debug, PartialEq)]
pub struct CTDynamicFilter {
    pub type_attr: String,
    pub val_bits: Option<u64>,
    pub val_iso: Option<u8>,
    pub max_val_iso: Option<u8>,
}

/// One or two custom criteria.
#[derive(Debug, PartialEq)]
pub struct CTCustomFilters {
    pub and: Option<bool>,
    pub custom_filter: Vec<CTCustomFilter>,
}

/// One custom criterion.
#[derive(Debug, PartialEq)]
pub struct CTCustomFilter {
    pub operator: Option<String>,
    pub val: Option<String>,
}

/// A filter for the highest or lowest values.
#[derive(Debug, PartialEq)]
pub struct CTTop10 {
    pub top: Option<bool>,
    pub percent: Option<bool>,
    pub val_bits: u64,
    pub filter_val_bits: Option<u64>,
}

/// A filter by listed values.
#[derive(Debug, PartialEq)]
pub struct CTFilters {
    pub blank: Option<bool>,
    pub calendar_type: Option<String>,
    pub filter: Vec<CTFilter>,
    pub date_group_item: Vec<CTDateGroupItem>,
}

/// One listed value.
#[derive(Debug, PartialEq)]
pub struct CTFilter {
    pub val: Option<String>,
}

/// A date or time to filter by.
#[derive(Debug, PartialEq)]
pub struct CTDateGroupItem {
    pub year: u16,
    pub month: Option<u16>,
    pub day: Option<u16>,
    pub hour: Option<u16>,
    pub minute: Option<u16>,
    pub second: Option<u16>,
    pub date_time_grouping: String,
}

/// How a range is sorted.
#[derive(Debug, PartialEq)]
pub struct CTSortState {
    pub column_sort: Option<bool>,
    pub case_sensitive: Option<bool>,
    pub sort_method: Option<String>,
    pub ref_attr: String,
    pub sort_condition: Vec<CTSortCondition>,
    pub ext_lst: Option<String>,
}

/// One sort criterion.
#[derive(Debug, PartialEq)]
pub struct CTSortCondition {
    pub descending: Option<bool>,
    pub sort_by: Option<String>,
    pub ref_attr: String,
    pub custom_list: Option<String>,
    pub dxf_id: Option<u32>,
    pub icon_set: Option<String>,
    pub icon_id: Option<u32>,
}

/// A [`CTCell`] with its texts as sequences of characters.
pub struct CellView {
    pub r: Seq<char>,
    pub t: Option<Seq<char>>,
    pub v: Option<Seq<char>>,
}

/// A [`CTRow`] as far as a cell lookup reads it: its number and its cells.
pub struct RowView {
    pub r: Option<u32>,
    pub c: Seq<CellView>,
}

impl View for CTCell {
    type V = CellView;

    open spec fn view(&self) -> CellView {
        CellView {
            r: self.r@,
            t: match self.t {
                Some(t) => Some(t@),
                None => None,
            },
            v: match self.v {
                Some(v) => Some(v@),
                None => None,
            },
        }
    }
}

impl View for CTRow {
    type V = RowView;

    open spec fn view(&self) -> RowView {
        RowView { r: self.r, c: self.c@.map_values(|c: CTCell| c@) }
    }
}

/// A worksheet is modelled by its rows; a sheet without rows has none to
/// scan.
impl View for XMLWorksheet {
    type V = Seq<RowView>;

    open spec fn view(&self) -> Seq<RowView> {
        match self.sheet_data.row {
            Some(rows) => rows@.map_values(|r: CTRow| r@),
            None => Seq::empty(),
        }
    }
}

impl CTCell {
    /// A cell with this reference, type tag and literal value.
    pub fn new(r: String, t: Option<String>, v: Option<String>) -> (cell: CTCell)
        ensures
            cell == (CTCell { r, t, v }),
    {
        CTCell { r, t, v }
    }
}

impl CTRow {
    /// A row with this number and these cells, and no format of its own.
    pub fn with_cells(r: Option<u32>, c: Vec<CTCell>) -> (row: CTRow)
        ensures
            row == (CTRow {
                r,
                spans: None,
                s: None,
                custom_format: None,
                ht_bits: None,
                hidden: None,
                custom_height: None,
                outline_level: None,
                collapsed: None,
                thick_top: None,
                thick_bot: None,
                ph: None,
                c,
                ext_lst: None,
            }),
    {
        CTRow {
            r,
            spans: None,
            s: None,
            custom_format: None,
            ht_bits: None,
            hidden: None,
            custom_height: None,
            outline_level: None,
            collapsed: None,
            thick_top: None,
            thick_bot: None,
            ph: None,
            c,
            ext_lst: None,
        }
    }
}

impl XMLWorksheet {
    /// A worksheet with these rows and nothing else.
    pub fn with_rows(row: Option<Vec<CTRow>>) -> (sheet: XMLWorksheet)
        ensures
            sheet == (XMLWorksheet {
                sheet_pr: None,
                dimension: None,
                sheet_views: None,
                sheet_format_pr: None,
                cols: None,
                sheet_data: CTSheetData { row },
                sheet_protection: None,
                auto_filter: None,
                sort_state: None,
            }),
    {
        XMLWorksheet {
            sheet_pr: None,
            dimension: None,
            sheet_views: None,
            sheet_format_pr: None,
            cols: None,
            sheet_data: CTSheetData { row },
            sheet_protection: None,
            auto_filter: None,
            sort_state: None,
        }
    }
}

} // verus!
