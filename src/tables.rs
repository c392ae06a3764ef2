//! Column selection and projection for tabular output.
use vstd::prelude::*;
use vstd::string::*;

use tabled::Table;

use crate::grid::{build_grid, builder_rows, builder_width, new_builder, push_row, table_rows};
use crate::text::{lower_of, lowercase, trim, trimmed};

verus! {

/// The pieces of `s` between separators, left to right: one more piece
/// than there are separators, empty pieces included.
pub open spec fn split_on(s: Seq<char>, sep: char) -> Seq<Seq<char>>
    decreases s.len(),
{
    if s.len() == 0 {
        seq![Seq::empty()]
    } else {
        let pieces = split_on(s.drop_last(), sep);
        if s.last() == sep {
            pieces.push(Seq::empty())
        } else {
            pieces.update(pieces.len() - 1, pieces.last().push(s.last()))
        }
    }
}

/// The column name that one piece of a column list stands for.
pub open spec fn column_entry(piece: Seq<char>) -> Seq<char> {
    lower_of(trimmed(piece))
}

/// Holds of a piece that is more than white space.
pub open spec fn has_text(piece: Seq<char>) -> bool {
    trimmed(piece).len() > 0
}

/// The column name of each piece, in order.
pub open spec fn column_entries(pieces: Seq<Seq<char>>) -> Seq<Seq<char>> {
    pieces.map_values(|p: Seq<char>| column_entry(p))
}

/// The pieces that are more than white space, in order, duplicates kept.
pub open spec fn named_pieces(pieces: Seq<Seq<char>>) -> Seq<Seq<char>> {
    pieces.filter(|p: Seq<char>| has_text(p))
}

/// The column names of a comma-separated list: the pieces that are more
/// than white space, each trimmed and lowercased, order and duplicates kept.
pub open spec fn parsed_columns(s: Seq<char>) -> Seq<Seq<char>> {
    column_entries(named_pieces(split_on(s, ',')))
}

/// Every name in `names` is non-empty.
pub open spec fn all_nonempty(names: Seq<Seq<char>>) -> bool {
    forall|k: int| 0 <= k < names.len() ==> (#[trigger] names[k]).len() > 0
}

/// Appends the column name of `piece` to `out` unless the piece is only
/// white space.
fn push_column(out: &mut Vec<String>, piece: &str, Ghost(done): Ghost<Seq<Seq<char>>>)
    requires
        old(out).deep_view() == column_entries(named_pieces(done)),
        all_nonempty(old(out).deep_view()),
    ensures
        final(out).deep_view() == column_entries(named_pieces(done.push(piece@))),
        all_nonempty(final(out).deep_view()),
{
    let text = trim(piece);
    proof {
        done.lemma_filter_push(piece@, |p: Seq<char>| has_text(p));
    }
    if text.unicode_len() > 0 {
        let name = lowercase(text);
        let ghost kept = named_pieces(done);
        out.push(name);
        proof {
            let a = column_entries(kept.push(piece@));
            let b = column_entries(kept).push(column_entry(piece@));
            assert forall|k: int| 0 <= k < a.len() implies a[k] == b[k] by {
                if k < kept.len() {
                    assert(kept.push(piece@)[k] == kept[k]);
                }
            }
            assert(a =~= b);
            assert(out.deep_view() =~= old(out).deep_view().push(name@));
            assert(all_nonempty(out.deep_view())) by {
                assert forall|k: int| 0 <= k < out.deep_view().len() implies (
                #[trigger] out.deep_view()[k]).len() > 0 by {
                    if k < old(out).deep_view().len() {
                        assert(out.deep_view()[k] == old(out).deep_view()[k]);
                    }
                }
            }
        }
    }
}

/// Parses a comma-separated column list into lowercase column names.
pub fn parse_columns(columns_arg: &str) -> (r: Vec<String>)
    ensures
        r.deep_view() == parsed_columns(columns_arg@),
        all_nonempty(r.deep_view()),
{
    let ghost s = columns_arg@;
    let n = columns_arg.unicode_len();
    let mut out: Vec<String> = Vec::new();
    let ghost mut done: Seq<Seq<char>> = Seq::empty();
    let mut start: usize = 0;
    let mut i: usize = 0;
    proof {
        assert(s.take(0) =~= Seq::<char>::empty());
        assert(s.subrange(0, 0) =~= Seq::<char>::empty());
        assert(split_on(s.take(0), ',') =~= done.push(s.subrange(0, 0)));
        assert(out.deep_view() =~= column_entries(named_pieces(done)));
    }
    while i < n
        invariant
            n == s.len(),
            s == columns_arg@,
            start <= i <= n,
            split_on(s.take(i as int), ',') == done.push(s.subrange(start as int, i as int)),
            out.deep_view() == column_entries(named_pieces(done)),
            all_nonempty(out.deep_view()),
        decreases n - i,
    {
        proof {
            let t = s.take(i as int + 1);
            assert(t.drop_last() =~= s.take(i as int));
            assert(t.last() == s[i as int]);
        }
        if columns_arg.get_char(i) == ',' {
            let piece = columns_arg.substring_char(start, i);
            push_column(&mut out, piece, Ghost(done));
            proof {
                done = done.push(piece@);
                assert(s.subrange(i as int + 1, i as int + 1) =~= Seq::<char>::empty());
            }
            start = i + 1;
        } else {
            proof {
                let pieces = split_on(s.take(i as int), ',');
                assert(s.subrange(start as int, i as int + 1) =~= s.subrange(
                    start as int,
                    i as int,
                ).push(s[i as int]));
                assert(pieces.update(pieces.len() - 1, pieces.last().push(s[i as int]))
                    =~= done.push(s.subrange(start as int, i as int + 1)));
            }
        }
        i = i + 1;
    }
    let piece = columns_arg.substring_char(start, n);
    push_column(&mut out, piece, Ghost(done));
    proof {
        assert(s.take(n as int) =~= s);
    }
    out
}

/// Formats an optional value for a table cell: empty for `None`, otherwise
/// the value's `Display` text.
pub fn display_option<T: std::fmt::Display>(opt: &Option<T>) -> (r: String)
    ensures
        opt is None ==> r@ == Seq::<char>::empty(),
        opt matches Some(v) ==> to_string_from_display_ensures::<T>(&v, r),
{
    match opt {
        Some(v) => v.to_string(),
        None => String::new(),
    }
}

/// Formats an optional value for a table cell, with `default` for `None`.
pub fn display_option_or<T: std::fmt::Display>(opt: &Option<T>, default: &str) -> (r: String)
    ensures
        opt is None ==> r@ == default@,
        opt matches Some(v) ==> to_string_from_display_ensures::<T>(&v, r),
{
    match opt {
        Some(v) => v.to_string(),
        None => String::from_str(default),
    }
}

/// Holds when some entry of `headers` is `name`.
pub open spec fn has_header(headers: Seq<Seq<char>>, name: Seq<char>) -> bool {
    exists|i: int| 0 <= i < headers.len() && headers[i] == name
}

/// `i` is the first position of `name` in `headers`.
pub open spec fn is_first_position(headers: Seq<Seq<char>>, name: Seq<char>, i: int) -> bool {
    &&& 0 <= i < headers.len()
    &&& headers[i] == name
    &&& forall|j: int| 0 <= j < i ==> headers[j] != name
}

/// The first position of `name` in `headers`; meaningful where
/// `has_header(headers, name)`.
pub open spec fn first_position(headers: Seq<Seq<char>>, name: Seq<char>) -> int {
    choose|i: int| is_first_position(headers, name, i)
}

/// The header row of a projection: the requested names that match a
/// header, in the order requested, duplicates kept.
pub open spec fn matched_columns(headers: Seq<Seq<char>>, columns: Seq<Seq<char>>) -> Seq<
    Seq<char>,
> {
    columns.filter(|c: Seq<char>| has_header(headers, c))
}

/// For each of `names`, the field at the first position of that name among
/// the headers.
pub open spec fn fields_under(
    headers: Seq<Seq<char>>,
    fields: Seq<Seq<char>>,
    names: Seq<Seq<char>>,
) -> Seq<Seq<char>> {
    names.map_values(|c: Seq<char>| fields[first_position(headers, c)])
}

/// One record projected onto the matched columns.
pub open spec fn projected_row(
    headers: Seq<Seq<char>>,
    columns: Seq<Seq<char>>,
    fields: Seq<Seq<char>>,
) -> Seq<Seq<char>> {
    fields_under(headers, fields, matched_columns(headers, columns))
}

/// Each record projected onto the matched columns, in order.
pub open spec fn projected_rows(
    headers: Seq<Seq<char>>,
    records: Seq<Seq<Seq<char>>>,
    columns: Seq<Seq<char>>,
) -> Seq<Seq<Seq<char>>> {
    records.map_values(|f: Seq<Seq<char>>| projected_row(headers, columns, f))
}

/// The projected grid: the header row, then one row per record.
pub open spec fn projected_grid(
    headers: Seq<Seq<char>>,
    records: Seq<Seq<Seq<char>>>,
    columns: Seq<Seq<char>>,
) -> Seq<Seq<Seq<char>>> {
    seq![matched_columns(headers, columns)] + projected_rows(headers, records, columns)
}

/// Every record has one field per header.
pub open spec fn records_fit(headers_len: nat, records: Seq<Seq<Seq<char>>>) -> bool {
    forall|r: int| 0 <= r < records.len() ==> #[trigger] records[r].len() == headers_len
}

proof fn lemma_first_position(headers: Seq<Seq<char>>, name: Seq<char>, i: int)
    requires
        is_first_position(headers, name, i),
    ensures
        has_header(headers, name),
        first_position(headers, name) == i,
{
    let k = first_position(headers, name);
    assert(is_first_position(headers, name, k));
    if k < i {
        assert(headers[k] != name);
    } else if k > i {
        assert(headers[i] != name);
    }
}

/// The first position of `name` in `headers`, if any.
fn find_header(headers: &Vec<String>, name: &String) -> (r: Option<usize>)
    ensures
        r is None <==> !has_header(headers.deep_view(), name@),
        r matches Some(i) ==> is_first_position(headers.deep_view(), name@, i as int)
            && first_position(headers.deep_view(), name@) == i,
{
    let ghost hs = headers.deep_view();
    let mut j: usize = 0;
    while j < headers.len()
        invariant
            hs == headers.deep_view(),
            j <= headers.len(),
            forall|k: int| 0 <= k < j ==> hs[k] != name@,
        decreases headers.len() - j,
    {
        if headers[j] == *name {
            proof {
                lemma_first_position(hs, name@, j as int);
            }
            return Some(j);
        }
        j = j + 1;
    }
    None
}

/// Projects `records` onto the requested `columns`, given headers that are
/// already lowercase: a header row of the names that match a header, in the
/// order requested, then for each record the fields under those names.
/// Names that match no header are left out.
pub fn select_columns(headers: &Vec<String>, records: &Vec<Vec<String>>, columns: &Vec<String>) -> (r:
    Vec<Vec<String>>)
    requires
        records_fit(headers@.len(), records.deep_view()),
    ensures
        r.deep_view() == projected_grid(headers.deep_view(), records.deep_view(), columns.deep_view()),
{
    let ghost hs = headers.deep_view();
    let ghost cs = columns.deep_view();
    let mut names: Vec<String> = Vec::new();
    let mut positions: Vec<usize> = Vec::new();
    let mut k: usize = 0;
    while k < columns.len()
        invariant
            hs == headers.deep_view(),
            cs == columns.deep_view(),
            k <= columns.len(),
            names.deep_view() == matched_columns(hs, cs.take(k as int)),
            positions@.len() == names@.len(),
            forall|q: int|
                0 <= q < positions@.len() ==> is_first_position(
                    hs,
                    #[trigger] names.deep_view()[q],
                    positions@[q] as int,
                ),
        decreases columns.len() - k,
    {
        let found = find_header(headers, &columns[k]);
        proof {
            assert(cs.take(k as int + 1) =~= cs.take(k as int).push(cs[k as int]));
            cs.take(k as int).lemma_filter_push(cs[k as int], |c: Seq<char>| has_header(hs, c));
        }
        match found {
            Some(i) => {
                let ghost old_names = names.deep_view();
                assert(cs[k as int] == columns@[k as int]@);
                names.push(columns[k].clone());
                positions.push(i);
                proof {
                    assert(names.deep_view() =~= old_names.push(cs[k as int]));
                }
            },
            None => {},
        }
        k = k + 1;
    }
    proof {
        assert(cs.take(columns.len() as int) =~= cs);
    }
    let mut grid: Vec<Vec<String>> = Vec::new();
    grid.push(names.clone());
    let ghost header_row = names.deep_view();
    proof {
        assert(grid.deep_view() =~= seq![header_row]);
    }
    let mut r: usize = 0;
    while r < records.len()
        invariant
            hs == headers.deep_view(),
            cs == columns.deep_view(),
            header_row == names.deep_view(),
            header_row == matched_columns(hs, cs),
            records_fit(hs.len(), records.deep_view()),
            positions@.len() == names@.len(),
            forall|q: int|
                0 <= q < positions@.len() ==> is_first_position(
                    hs,
                    #[trigger] names.deep_view()[q],
                    positions@[q] as int,
                ),
            r <= records.len(),
            grid.deep_view() == seq![header_row] + projected_rows(
                hs,
                records.deep_view().take(r as int),
                cs,
            ),
        decreases records.len() - r,
    {
        let fields = &records[r];
        let ghost fv = fields.deep_view();
        assert(fv == records.deep_view()[r as int]);
        let mut row: Vec<String> = Vec::new();
        let mut m: usize = 0;
        while m < positions.len()
            invariant
                hs == headers.deep_view(),
                fv == fields.deep_view(),
                fv.len() == hs.len(),
                header_row == names.deep_view(),
                positions@.len() == names@.len(),
                forall|q: int|
                    0 <= q < positions@.len() ==> is_first_position(
                        hs,
                        #[trigger] header_row[q],
                        positions@[q] as int,
                    ),
                m <= positions.len(),
                row.deep_view() == fields_under(hs, fv, header_row.take(m as int)),
            decreases positions.len() - m,
        {
            let p = positions[m];
            let ghost old_row = row.deep_view();
            proof {
                assert(header_row.len() == names@.len());
                lemma_first_position(hs, header_row[m as int], p as int);
                assert(fields@.len() == fv.len());
            }
            row.push(fields[p].clone());
            proof {
                assert(fv[p as int] == fields@[p as int]@);
                let a = row.deep_view();
                assert(a =~= old_row.push(fv[p as int]));
                let t = header_row.take(m as int + 1);
                assert(t =~= header_row.take(m as int).push(header_row[m as int]));
                let b = fields_under(hs, fv, t);
                assert(b.len() == m + 1);
                assert forall|j: int| 0 <= j < a.len() implies a[j] == b[j] by {
                    if j < m {
                        assert(t[j] == header_row.take(m as int)[j]);
                        assert(old_row[j] == fields_under(hs, fv, header_row.take(m as int))[j]);
                    }
                }
                assert(a =~= b);
            }
            m = m + 1;
        }
        let ghost old_grid = grid.deep_view();
        grid.push(row);
        proof {
            assert(header_row.len() == names@.len());
            assert(header_row.take(positions@.len() as int) =~= header_row);
            let rs = records.deep_view();
            assert(rs.take(r as int + 1) =~= rs.take(r as int).push(rs[r as int]));
            assert(projected_rows(hs, rs.take(r as int + 1), cs) =~= projected_rows(
                hs,
                rs.take(r as int),
                cs,
            ).push(projected_row(hs, cs, fv)));
            assert(grid.deep_view() =~= old_grid.push(row.deep_view()));
            assert(grid.deep_view() =~= seq![header_row] + projected_rows(
                hs,
                rs.take(r as int + 1),
                cs,
            ));
        }
        r = r + 1;
    }
    proof {
        assert(records.deep_view().take(records.len() as int) =~= records.deep_view());
    }
    grid
}

/// Each header in lowercase.
pub open spec fn lowered(headers: Seq<Seq<char>>) -> Seq<Seq<char>> {
    headers.map_values(|h: Seq<char>| lower_of(h))
}

/// Every row of the projected grid is as wide as its header row.
proof fn lemma_grid_rows_width(
    headers: Seq<Seq<char>>,
    records: Seq<Seq<Seq<char>>>,
    columns: Seq<Seq<char>>,
)
    ensures
        forall|i: int|
            0 <= i < projected_grid(headers, records, columns).len() ==> (#[trigger] projected_grid(
                headers,
                records,
                columns,
            )[i]).len() == matched_columns(headers, columns).len(),
{
    let g = projected_grid(headers, records, columns);
    assert forall|i: int| 0 <= i < g.len() implies (#[trigger] g[i]).len() == matched_columns(
        headers,
        columns,
    ).len() by {
        if i > 0 {
            assert(g[i] == projected_row(headers, columns, records[i - 1]));
        }
    }
}

/// Builds a table of `records` with only the requested columns: the
/// headers are matched in lowercase against the (lowercase) column names,
/// names that match no header are left out, and the columns follow the
/// order of `columns`.
pub fn build_table_with_columns(
    headers: &Vec<String>,
    records: &Vec<Vec<String>>,
    columns: &Vec<String>,
) -> (t: Table)
    requires
        records_fit(headers@.len(), records.deep_view()),
    ensures
        table_rows(t) == projected_grid(
            lowered(headers.deep_view()),
            records.deep_view(),
            columns.deep_view(),
        ),
{
    let mut lower: Vec<String> = Vec::new();
    let mut h: usize = 0;
    while h < headers.len()
        invariant
            h <= headers.len(),
            lower.deep_view() == lowered(headers.deep_view().take(h as int)),
        decreases headers.len() - h,
    {
        let name = lowercase(headers[h].as_str());
        let ghost before = lower.deep_view();
        lower.push(name);
        proof {
            let hs = headers.deep_view();
            let t = hs.take(h as int + 1);
            assert(t =~= hs.take(h as int).push(hs[h as int]));
            assert(hs[h as int] == headers@[h as int]@);
            let a = lower.deep_view();
            let c = lowered(t);
            assert(a =~= before.push(lower_of(hs[h as int])));
            assert forall|j: int| 0 <= j < a.len() implies a[j] == c[j] by {
                if j < h {
                    assert(t[j] == hs.take(h as int)[j]);
                    assert(before[j] == lowered(hs.take(h as int))[j]);
                }
            }
            assert(a =~= c);
        }
        h = h + 1;
    }
    proof {
        assert(headers.deep_view().take(headers.len() as int) =~= headers.deep_view());
    }
    let grid = select_columns(&lower, records, columns);
    let ghost g = grid.deep_view();
    let ghost w = matched_columns(lower.deep_view(), columns.deep_view()).len();
    proof {
        lemma_grid_rows_width(lower.deep_view(), records.deep_view(), columns.deep_view());
    }
    let mut b = new_builder();
    let mut i: usize = 0;
    while i < grid.len()
        invariant
            g == grid.deep_view(),
            g.len() >= 1,
            forall|j: int| 0 <= j < g.len() ==> (#[trigger] g[j]).len() == w,
            i <= grid.len(),
            builder_rows(b) == g.take(i as int),
            i > 0 ==> builder_width(b) == w,
            i == 0 ==> builder_width(b) == 0,
        decreases grid.len() - i,
    {
        let row = grid[i].clone();
        proof {
            assert(row.deep_view() == g[i as int]);
            assert(g.take(i as int + 1) =~= g.take(i as int).push(g[i as int]));
            if i == 0 {
                assert(g.take(1) =~= seq![g[0]]);
            }
        }
        push_row(&mut b, row);
        i = i + 1;
    }
    proof {
        assert(g.take(grid.len() as int) =~= g);
    }
    build_grid(b)
}

/// `idx` lists, in increasing order, the positions in `a` of the elements
/// that `filtered` keeps, and `filtered` is those elements.
pub open spec fn keeps_positions<A>(a: Seq<A>, filtered: Seq<A>, idx: Seq<int>) -> bool {
    &&& idx.len() == filtered.len()
    &&& forall|k: int|
        0 <= k < idx.len() ==> 0 <= #[trigger] idx[k] < a.len() && filtered[k] == a[idx[k]]
    &&& forall|k1: int, k2: int| 0 <= k1 < k2 < idx.len() ==> idx[k1] < idx[k2]
}

proof fn lemma_filter_positions<A>(a: Seq<A>, p: spec_fn(A) -> bool) -> (idx: Seq<int>)
    ensures
        keeps_positions(a, a.filter(p), idx),
        forall|j: int| 0 <= j < a.len() && p(a[j]) ==> exists|k: int| 0 <= k < idx.len() && #[trigger] idx[k] == j,
    decreases a.len(),
{
    if a.len() == 0 {
        reveal(Seq::filter);
        Seq::empty()
    } else {
        let init = a.drop_last();
        let prev = lemma_filter_positions(init, p);
        assert(a =~= init.push(a.last()));
        init.lemma_filter_push(a.last(), p);
        if p(a.last()) {
            let idx = prev.push(a.len() - 1);
            assert forall|j: int| 0 <= j < a.len() && p(a[j]) implies exists|k: int|
                0 <= k < idx.len() && #[trigger] idx[k] == j by {
                if j < a.len() - 1 {
                    assert(init[j] == a[j]);
                    let k = choose|k: int| 0 <= k < prev.len() && #[trigger] prev[k] == j;
                    assert(idx[k] == j);
                } else {
                    assert(idx[prev.len() as int] == j);
                }
            }
            idx
        } else {
            assert forall|j: int| 0 <= j < a.len() && p(a[j]) implies exists|k: int|
                0 <= k < prev.len() && #[trigger] prev[k] == j by {
                assert(j < a.len() - 1);
                assert(init[j] == a[j]);
            }
            prev
        }
    }
}

/// The names that `parse_columns` returns are the trimmed, lowercased forms
/// of the comma-separated pieces of the input that are more than white
/// space, in the order of those pieces: `idx` gives, for each name, the
/// position of its piece, increasing, and every piece with text has a name.
pub proof fn lemma_parsed_columns_order(s: Seq<char>)
    ensures
        exists|idx: Seq<int>|
            {
                &&& keeps_positions(split_on(s, ','), named_pieces(split_on(s, ',')), idx)
                &&& forall|k: int|
                    0 <= k < idx.len() ==> #[trigger] parsed_columns(s)[k] == column_entry(
                        split_on(s, ',')[idx[k]],
                    )
                &&& forall|j: int|
                    0 <= j < split_on(s, ',').len() && has_text(#[trigger] split_on(s, ',')[j])
                        ==> exists|k: int| 0 <= k < idx.len() && idx[k] == j
            },
{
    let pieces = split_on(s, ',');
    let keep = |p: Seq<char>| has_text(p);
    let idx = lemma_filter_positions(pieces, keep);
    let named = named_pieces(pieces);
    assert forall|k: int| 0 <= k < idx.len() implies #[trigger] parsed_columns(s)[k]
        == column_entry(pieces[idx[k]]) by {
        assert(named[k] == pieces[idx[k]]);
    }
    assert forall|j: int|
        0 <= j < pieces.len() && has_text(#[trigger] pieces[j]) implies exists|k: int|
        0 <= k < idx.len() && idx[k] == j by {
        assert(keep(pieces[j]));
        let k = choose|k: int| 0 <= k < idx.len() && #[trigger] idx[k] == j;
    }
}

/// The header row of a projection holds exactly the requested names that
/// match some header case-insensitively, in the order requested and with
/// duplicates; a name that matches none is never a column. The grid has one
/// row per record below the header row.
pub proof fn lemma_projection_header(
    headers: Seq<Seq<char>>,
    records: Seq<Seq<Seq<char>>>,
    columns: Seq<Seq<char>>,
)
    ensures
        projected_grid(lowered(headers), records, columns).len() == records.len() + 1,
        projected_grid(lowered(headers), records, columns)[0] == columns.filter(
            |c: Seq<char>| has_header(lowered(headers), c),
        ),
        forall|k: int|
            0 <= k < projected_grid(lowered(headers), records, columns)[0].len() ==> {
                let c = #[trigger] projected_grid(lowered(headers), records, columns)[0][k];
                &&& columns.contains(c)
                &&& exists|i: int| 0 <= i < headers.len() && lower_of(headers[i]) == c
            },
        forall|c: Seq<char>|
            !has_header(lowered(headers), c) ==> !(#[trigger] projected_grid(
                lowered(headers),
                records,
                columns,
            )[0].contains(c)),
{
    let hs = lowered(headers);
    let g = projected_grid(hs, records, columns);
    let keep = |c: Seq<char>| has_header(hs, c);
    assert(g[0] == matched_columns(hs, columns));
    assert forall|k: int| 0 <= k < g[0].len() implies {
        let c = #[trigger] g[0][k];
        &&& columns.contains(c)
        &&& exists|i: int| 0 <= i < headers.len() && lower_of(headers[i]) == c
    } by {
        columns.lemma_filter_pred(keep, k);
        let c = g[0][k];
        assert(columns.filter(keep).contains(c));
        columns.lemma_filter_contains_rev(keep, c);
        let i = choose|i: int| 0 <= i < hs.len() && hs[i] == c;
        assert(hs[i] == lower_of(headers[i]));
    }
    assert forall|c: Seq<char>| !has_header(hs, c) implies !(#[trigger] g[0].contains(c)) by {
        if g[0].contains(c) {
            let k = choose|k: int| 0 <= k < g[0].len() && g[0][k] == c;
            columns.lemma_filter_pred(keep, k);
        }
    }
}

} // verus!
