//! Common conveniences for command-line programs: string truncation for
//! display, column selection and projection for tables, table styling
//! settings, coloured text, shell names for completion scripts, progress
//! reporter selection and exit-code helpers.
//!
//! Every function here is verified against its contract.

mod completions;
mod errors;
mod grid;
mod output;
mod progress;
mod styles;
mod tables;
mod text;
mod truncate;

pub use sysexits::ExitCode;

pub use completions::{
    CompletionShell, ParseShellError, detected_shell, shell_name, shell_named,
    unknown_shell_message,
};
pub use errors::{ArgParseError, ExitCodeExt, arg_error_text, is_sysexits_value};
pub use grid::{builder_rows, builder_width, table_rows, table_style};
pub use output::{
    format_bold, format_dimmed, format_error, format_info, format_success, format_warning,
    in_colour, in_style, painted, sgr,
};
pub use progress::{
    CompletionSummary, ProgressReporter, QuietReporter, ReporterKind, completion_summary, decimal,
    digit, reporter_for, select_reporter, summary_for, summary_line,
};
pub use styles::{
    Padding, SettingView, StyledTable, StyledTableView, TableSetting, TableStyle, newline_part,
    padding_part, panel_part, removal_part, settings_of, settings_view, style_name, text_view,
    width_part, wrap_part,
};
pub use tables::{
    all_nonempty, build_table_with_columns, column_entries, column_entry, display_option, display_option_or,
    fields_under, first_position, has_header, has_text, is_first_position, keeps_positions,
    lemma_parsed_columns_order, lemma_projection_header, lowered, matched_columns, named_pieces,
    parse_columns, parsed_columns, projected_grid, projected_row, projected_rows, records_fit,
    select_columns, split_on,
};
pub use text::{is_white_space, lower_of, trim_end, trim_start, trimmed};
pub use truncate::{
    DEFAULT_TRUNCATION_SUFFIX, ellipsis, lemma_truncate_middle_fits,
    lemma_truncate_middle_marker_unique, lemma_truncate_middle_other_markers,
    lemma_truncate_middle_shape, lemma_truncate_string_fits,
    lemma_truncate_string_shortens, marker_at, truncate_middle, truncate_string,
    truncate_with_suffix, truncated_middle, truncated_with_suffix,
};
