//! The grid type of the `tabled` crate, which renders tables, and the parts
//! of it that this crate uses.
use vstd::prelude::*;

use tabled::Table;
use tabled::builder::Builder;
use tabled::settings::Style;

use crate::styles::TableStyle;

verus! {

#[verifier::external_type_specification]
#[verifier::external_body]
pub struct ExBuilder(Builder);

#[verifier::external_type_specification]
#[verifier::external_body]
pub struct ExTable(Table);

/// The rows that a `tabled` builder holds, each a sequence of cell texts.
pub uninterp spec fn builder_rows(b: Builder) -> Seq<Seq<Seq<char>>>;

/// The number of columns that a `tabled` builder pads its rows to.
pub uninterp spec fn builder_width(b: Builder) -> nat;

/// The rows of cell texts that a `tabled` table holds.
pub uninterp spec fn table_rows(t: Table) -> Seq<Seq<Seq<char>>>;

/// The border style that a `tabled` table was last given.
pub uninterp spec fn table_style(t: Table) -> TableStyle;

/// Relies on `Builder::default`: a builder with no rows and no columns.
#[verifier::external_body]
pub(crate) fn new_builder() -> (b: Builder)
    ensures
        builder_rows(b) == Seq::<Seq<Seq<char>>>::empty(),
        builder_width(b) == 0,
{
    Builder::default()
}

/// Relies on `Builder::push_record`: a row at least as wide as the builder
/// sets its width; a row exactly that wide is added as it is; the first row
/// of an empty builder, when at least that wide, becomes its only row.
#[verifier::external_body]
pub(crate) fn push_row(b: &mut Builder, row: Vec<String>)
    ensures
        row@.len() >= builder_width(*old(b)) ==> builder_width(*final(b)) == row@.len(),
        row@.len() == builder_width(*old(b)) ==> builder_rows(*final(b)) == builder_rows(
            *old(b),
        ).push(row.deep_view()),
        builder_rows(*old(b)).len() == 0 && row@.len() >= builder_width(*old(b)) ==> builder_rows(
            *final(b),
        ) == seq![row.deep_view()],
{
    b.push_record(row);
}

/// Relies on `Builder::build`: the table holds the builder's rows.
#[verifier::external_body]
pub(crate) fn build_grid(b: Builder) -> (t: Table)
    ensures
        table_rows(t) == builder_rows(b),
{
    b.build()
}

/// Relies on `Style::rounded` applied with `Table::with`: a style sets the
/// borders in the table's configuration (clearing the ones it had) and
/// leaves its rows as they are.
#[verifier::external_body]
pub(crate) fn style_rounded(t: &mut Table)
    ensures
        table_rows(*final(t)) == table_rows(*old(t)),
        table_style(*final(t)) == TableStyle::Modern,
{
    t.with(Style::rounded());
}

/// Relies on `Style::blank` applied with `Table::with`: a style sets the
/// borders in the table's configuration (clearing the ones it had) and
/// leaves its rows as they are.
#[verifier::external_body]
pub(crate) fn style_blank(t: &mut Table)
    ensures
        table_rows(*final(t)) == table_rows(*old(t)),
        table_style(*final(t)) == TableStyle::Borderless,
{
    t.with(Style::blank());
}

/// Relies on `Style::markdown` applied with `Table::with`: a style sets the
/// borders in the table's configuration (clearing the ones it had) and
/// leaves its rows as they are.
#[verifier::external_body]
pub(crate) fn style_markdown(t: &mut Table)
    ensures
        table_rows(*final(t)) == table_rows(*old(t)),
        table_style(*final(t)) == TableStyle::Markdown,
{
    t.with(Style::markdown());
}

/// Relies on `Style::sharp` applied with `Table::with`: a style sets the
/// borders in the table's configuration (clearing the ones it had) and
/// leaves its rows as they are.
#[verifier::external_body]
pub(crate) fn style_sharp(t: &mut Table)
    ensures
        table_rows(*final(t)) == table_rows(*old(t)),
        table_style(*final(t)) == TableStyle::Sharp,
{
    t.with(Style::sharp());
}

/// Relies on `Style::ascii` applied with `Table::with`: a style sets the
/// borders in the table's configuration (clearing the ones it had) and
/// leaves its rows as they are.
#[verifier::external_body]
pub(crate) fn style_ascii(t: &mut Table)
    ensures
        table_rows(*final(t)) == table_rows(*old(t)),
        table_style(*final(t)) == TableStyle::Ascii,
{
    t.with(Style::ascii());
}

/// Relies on `Style::psql` applied with `Table::with`: a style sets the
/// borders in the table's configuration (clearing the ones it had) and
/// leaves its rows as they are.
#[verifier::external_body]
pub(crate) fn style_psql(t: &mut Table)
    ensures
        table_rows(*final(t)) == table_rows(*old(t)),
        table_style(*final(t)) == TableStyle::Psql,
{
    t.with(Style::psql());
}

/// Relies on `Style::dots` applied with `Table::with`: a style sets the
/// borders in the table's configuration (clearing the ones it had) and
/// leaves its rows as they are.
#[verifier::external_body]
pub(crate) fn style_dots(t: &mut Table)
    ensures
        table_rows(*final(t)) == table_rows(*old(t)),
        table_style(*final(t)) == TableStyle::Dots,
{
    t.with(Style::dots());
}

} // verus!
