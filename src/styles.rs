//! Table styles and the settings of a styled table, in the order in which
//! they are applied.
use vstd::prelude::*;

use tabled::Table;

use crate::grid::{
    style_ascii, style_blank, style_dots, style_markdown, style_psql, style_rounded, style_sharp,
    table_rows, table_style,
};

verus! {

/// Available table styles for CLI output.
#[derive(Debug, Clone, Copy, PartialEq, Eq, Structural, Default)]
pub enum TableStyle {
    /// Modern rounded corners (default).
    #[default]
    Modern,
    /// No borders, space-separated.
    Borderless,
    /// Markdown table syntax.
    Markdown,
    /// Sharp corners with box-drawing characters.
    Sharp,
    /// ASCII-only characters.
    Ascii,
    /// psql-style output.
    Psql,
    /// Uses dots for borders.
    Dots,
}

/// The name by which each style is chosen on a command line.
pub open spec fn style_name(style: TableStyle) -> Seq<char> {
    match style {
        TableStyle::Modern => "modern"@,
        TableStyle::Borderless => "borderless"@,
        TableStyle::Markdown => "markdown"@,
        TableStyle::Sharp => "sharp"@,
        TableStyle::Ascii => "ascii"@,
        TableStyle::Psql => "psql"@,
        TableStyle::Dots => "dots"@,
    }
}

impl TableStyle {
    /// All styles, in declaration order.
    pub fn all() -> (r: &'static [TableStyle])
        ensures
            r@ == seq![
                TableStyle::Modern,
                TableStyle::Borderless,
                TableStyle::Markdown,
                TableStyle::Sharp,
                TableStyle::Ascii,
                TableStyle::Psql,
                TableStyle::Dots,
            ],
    {
        let r: &'static [TableStyle] = &[
            TableStyle::Modern,
            TableStyle::Borderless,
            TableStyle::Markdown,
            TableStyle::Sharp,
            TableStyle::Ascii,
            TableStyle::Psql,
            TableStyle::Dots,
        ];
        proof {
            assert(r@ =~= seq![
                TableStyle::Modern,
                TableStyle::Borderless,
                TableStyle::Markdown,
                TableStyle::Sharp,
                TableStyle::Ascii,
                TableStyle::Psql,
                TableStyle::Dots,
            ]);
        }
        r
    }

    /// Applies this style's borders to a table; its rows stay as they are.
    pub fn apply(self, table: &mut Table)
        ensures
            table_rows(*final(table)) == table_rows(*old(table)),
            table_style(*final(table)) == self,
    {
        match self {
            TableStyle::Modern => style_rounded(table),
            TableStyle::Borderless => style_blank(table),
            TableStyle::Markdown => style_markdown(table),
            TableStyle::Sharp => style_sharp(table),
            TableStyle::Ascii => style_ascii(table),
            TableStyle::Psql => style_psql(table),
            TableStyle::Dots => style_dots(table),
        }
    }

    /// The name by which this style is chosen on a command line.
    pub fn name(&self) -> (r: &'static str)
        ensures
            r@ == style_name(*self),
    {
        match self {
            TableStyle::Modern => "modern",
            TableStyle::Borderless => "borderless",
            TableStyle::Markdown => "markdown",
            TableStyle::Sharp => "sharp",
            TableStyle::Ascii => "ascii",
            TableStyle::Psql => "psql",
            TableStyle::Dots => "dots",
        }
    }
}

/// Space around the content of each cell, in characters.
#[derive(Debug, Clone, Copy, PartialEq, Eq, Structural)]
pub struct Padding {
    pub left: usize,
    pub right: usize,
    pub top: usize,
    pub bottom: usize,
}

impl Padding {
    /// Padding of `left` and `right` columns and `top` and `bottom` lines.
    pub fn new(left: usize, right: usize, top: usize, bottom: usize) -> (r: Padding)
        ensures
            r == (Padding { left, right, top, bottom }),
    {
        Padding { left, right, top, bottom }
    }
}

/// One setting of a styled table.
#[derive(Debug, Clone, PartialEq, Eq)]
pub enum TableSetting {
    /// The border style.
    Style(TableStyle),
    /// Cell padding.
    Padding(Padding),
    /// Removal of the first row (the column headers).
    RemoveHeaderRow,
    /// A panel with this text above the table.
    Panel(String),
    /// Newlines in every cell replaced with this text.
    ReplaceNewlines(String),
    /// The column with this index wrapped at this width.
    WrapColumn(usize, usize),
    /// The whole table truncated to this width.
    TruncateWidth(usize),
}

/// A setting with its texts as character sequences.
pub enum SettingView {
    Style(TableStyle),
    Padding(Padding),
    RemoveHeaderRow,
    Panel(Seq<char>),
    ReplaceNewlines(Seq<char>),
    WrapColumn(usize, usize),
    TruncateWidth(usize),
}

impl View for TableSetting {
    type V = SettingView;

    open spec fn view(&self) -> SettingView {
        match self {
            TableSetting::Style(s) => SettingView::Style(*s),
            TableSetting::Padding(p) => SettingView::Padding(*p),
            TableSetting::RemoveHeaderRow => SettingView::RemoveHeaderRow,
            TableSetting::Panel(t) => SettingView::Panel(t@),
            TableSetting::ReplaceNewlines(t) => SettingView::ReplaceNewlines(t@),
            TableSetting::WrapColumn(c, w) => SettingView::WrapColumn(*c, *w),
            TableSetting::TruncateWidth(w) => SettingView::TruncateWidth(*w),
        }
    }
}

/// What a styled table builder has been told.
pub struct StyledTableView {
    pub style: TableStyle,
    pub header: Option<Seq<char>>,
    pub remove_header_row: bool,
    pub padding: Option<Padding>,
    pub newline_replacement: Option<Seq<char>>,
    pub max_width: Option<usize>,
    pub wrap_column: Option<(usize, usize)>,
}

/// A builder for styled tables.
pub struct StyledTable {
    style: TableStyle,
    header: Option<String>,
    remove_header_row: bool,
    padding: Option<Padding>,
    newline_replacement: Option<String>,
    max_width: Option<usize>,
    wrap_column: Option<(usize, usize)>,
}

/// The view of an optional text.
pub open spec fn text_view(t: Option<String>) -> Option<Seq<char>> {
    match t {
        Some(s) => Some(s@),
        None => None,
    }
}

impl View for StyledTable {
    type V = StyledTableView;

    closed spec fn view(&self) -> StyledTableView {
        StyledTableView {
            style: self.style,
            header: text_view(self.header),
            remove_header_row: self.remove_header_row,
            padding: self.padding,
            newline_replacement: text_view(self.newline_replacement),
            max_width: self.max_width,
            wrap_column: self.wrap_column,
        }
    }
}

/// The padding setting, if one was chosen.
pub open spec fn padding_part(v: StyledTableView) -> Seq<SettingView> {
    match v.padding {
        Some(p) => seq![SettingView::Padding(p)],
        None => Seq::empty(),
    }
}

/// The removal of the header row, if it was asked for.
pub open spec fn removal_part(v: StyledTableView) -> Seq<SettingView> {
    if v.remove_header_row {
        seq![SettingView::RemoveHeaderRow]
    } else {
        Seq::empty()
    }
}

/// The header panel, if one was chosen.
pub open spec fn panel_part(v: StyledTableView) -> Seq<SettingView> {
    match v.header {
        Some(h) => seq![SettingView::Panel(h)],
        None => Seq::empty(),
    }
}

/// The newline replacement, if one was chosen.
pub open spec fn newline_part(v: StyledTableView) -> Seq<SettingView> {
    match v.newline_replacement {
        Some(t) => seq![SettingView::ReplaceNewlines(t)],
        None => Seq::empty(),
    }
}

/// The column wrapping, if one was chosen.
pub open spec fn wrap_part(v: StyledTableView) -> Seq<SettingView> {
    match v.wrap_column {
        Some((c, w)) => seq![SettingView::WrapColumn(c, w)],
        None => Seq::empty(),
    }
}

/// The truncation to a maximum width, if one was chosen.
pub open spec fn width_part(v: StyledTableView) -> Seq<SettingView> {
    match v.max_width {
        Some(w) => seq![SettingView::TruncateWidth(w)],
        None => Seq::empty(),
    }
}

/// The settings to apply for a builder's choices, in order: style, then
/// padding, then removal of the header row, then the panel (so that it is
/// not removed with the header row), then newline replacement, then column
/// wrapping, then truncation to the maximum width (so that wrapping comes
/// first). Options that were not chosen are left out.
pub open spec fn settings_of(v: StyledTableView) -> Seq<SettingView> {
    seq![SettingView::Style(v.style)] + padding_part(v) + removal_part(v) + panel_part(v)
        + newline_part(v) + wrap_part(v) + width_part(v)
}

/// The views of a list of settings.
pub open spec fn settings_view(s: Seq<TableSetting>) -> Seq<SettingView> {
    s.map_values(|t: TableSetting| t@)
}

impl StyledTable {
    /// Creates a new table builder with the default style and no options.
    pub fn new() -> (r: StyledTable)
        ensures
            r@ == (StyledTableView {
                style: TableStyle::Modern,
                header: None,
                remove_header_row: false,
                padding: None,
                newline_replacement: None,
                max_width: None,
                wrap_column: None,
            }),
    {
        StyledTable {
            style: TableStyle::Modern,
            header: None,
            remove_header_row: false,
            padding: None,
            newline_replacement: None,
            max_width: None,
            wrap_column: None,
        }
    }

    /// Sets maximum width for the table.
    pub fn max_width(self, width: usize) -> (r: StyledTable)
        ensures
            r@ == (StyledTableView { max_width: Some(width), ..self@ }),
    {
        StyledTable { max_width: Some(width), ..self }
    }

    /// Sets a column (0-based) to wrap at a specific width.
    pub fn wrap_column(self, column_index: usize, width: usize) -> (r: StyledTable)
        ensures
            r@ == (StyledTableView { wrap_column: Some((column_index, width)), ..self@ }),
    {
        StyledTable { wrap_column: Some((column_index, width)), ..self }
    }

    /// Sets the table style.
    pub fn style(self, style: TableStyle) -> (r: StyledTable)
        ensures
            r@ == (StyledTableView { style, ..self@ }),
    {
        StyledTable { style, ..self }
    }

    /// Sets a header panel above the table.
    pub fn header(self, header: &str) -> (r: StyledTable)
        ensures
            r@ == (StyledTableView { header: Some(header@), ..self@ }),
    {
        StyledTable { header: Some(String::from_str(header)), ..self }
    }

    /// Removes the first row (column headers) from the table.
    pub fn remove_header_row(self) -> (r: StyledTable)
        ensures
            r@ == (StyledTableView { remove_header_row: true, ..self@ }),
    {
        StyledTable { remove_header_row: true, ..self }
    }

    /// Sets custom padding for table cells.
    pub fn padding(self, padding: Padding) -> (r: StyledTable)
        ensures
            r@ == (StyledTableView { padding: Some(padding), ..self@ }),
    {
        StyledTable { padding: Some(padding), ..self }
    }

    /// Replaces newlines in cell content with the given text.
    pub fn replace_newlines(self, replacement: &str) -> (r: StyledTable)
        ensures
            r@ == (StyledTableView { newline_replacement: Some(replacement@), ..self@ }),
    {
        StyledTable { newline_replacement: Some(String::from_str(replacement)), ..self }
    }

    /// The settings to apply to a table, in the order in which they apply.
    pub fn settings(&self) -> (r: Vec<TableSetting>)
        ensures
            settings_view(r@) == settings_of(self@),
    {
        let ghost v = self@;
        let mut out: Vec<TableSetting> = Vec::new();
        out.push(TableSetting::Style(self.style));
        if let Some(p) = self.padding {
            out.push(TableSetting::Padding(p));
        }
        proof {
            assert(settings_view(out@) =~= seq![SettingView::Style(v.style)] + padding_part(v));
        }
        if self.remove_header_row {
            out.push(TableSetting::RemoveHeaderRow);
        }
        proof {
            assert(settings_view(out@) =~= seq![SettingView::Style(v.style)] + padding_part(v)
                + removal_part(v));
        }
        match &self.header {
            Some(h) => out.push(TableSetting::Panel(h.clone())),
            None => {},
        }
        proof {
            assert(settings_view(out@) =~= seq![SettingView::Style(v.style)] + padding_part(v)
                + removal_part(v) + panel_part(v));
        }
        match &self.newline_replacement {
            Some(t) => out.push(TableSetting::ReplaceNewlines(t.clone())),
            None => {},
        }
        proof {
            assert(settings_view(out@) =~= seq![SettingView::Style(v.style)] + padding_part(v)
                + removal_part(v) + panel_part(v) + newline_part(v));
        }
        if let Some((c, w)) = self.wrap_column {
            out.push(TableSetting::WrapColumn(c, w));
        }
        proof {
            assert(settings_view(out@) =~= seq![SettingView::Style(v.style)] + padding_part(v)
                + removal_part(v) + panel_part(v) + newline_part(v) + wrap_part(v));
        }
        if let Some(w) = self.max_width {
            out.push(TableSetting::TruncateWidth(w));
        }
        proof {
            assert(settings_view(out@) =~= settings_of(v));
        }
        out
    }
}

impl Default for StyledTable {
    fn default() -> (r: StyledTable)
        ensures
            r@ == (StyledTableView {
                style: TableStyle::Modern,
                header: None,
                remove_header_row: false,
                padding: None,
                newline_replacement: None,
                max_width: None,
                wrap_column: None,
            }),
    {
        StyledTable::new()
    }
}

} // verus!
