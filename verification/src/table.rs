//! Tokenizing the console's aligned tables. A region of text is cut into
//! non-empty physical lines, each line is split at runs of two or more
//! spaces into trimmed column tokens, rows that carry fewer tokens than a
//! table's column count are folded back into the previous row's trailing
//! description column, and the merged rows become typed records.
use vstd::prelude::*;

use crate::records::{ListingEntry, ListingModel, ParamModel, Parameter};
use crate::text::{split_on, split_spec, str_eq, trim_spec, trim_ws};

verus! {

/// Trimmed, non-empty column tokens of the split pieces, in order.
pub open spec fn clean_tokens(parts: Seq<Seq<char>>) -> Seq<Seq<char>>
    decreases parts.len()
{
    if parts.len() == 0 {
        Seq::empty()
    } else {
        let rest = clean_tokens(parts.drop_last());
        let t = trim_spec(parts.last());
        if t.len() == 0 {
            rest
        } else {
            rest.push(t)
        }
    }
}

/// Column tokens of one line: split at double spaces, trimmed, blanks dropped.
pub open spec fn tokens_of(line: Seq<char>) -> Seq<Seq<char>> {
    clean_tokens(split_spec(line, "  "@))
}

/// The non-empty lines, in order.
pub open spec fn kept_lines(lines: Seq<Seq<char>>) -> Seq<Seq<char>>
    decreases lines.len()
{
    if lines.len() == 0 {
        Seq::empty()
    } else {
        let rest = kept_lines(lines.drop_last());
        if lines.last().len() == 0 {
            rest
        } else {
            rest.push(lines.last())
        }
    }
}

/// Each line tokenized, lines without any token dropped.
pub open spec fn token_rows(lines: Seq<Seq<char>>) -> Seq<Seq<Seq<char>>>
    decreases lines.len()
{
    if lines.len() == 0 {
        Seq::empty()
    } else {
        let rest = token_rows(lines.drop_last());
        let r = tokens_of(lines.last());
        if r.len() == 0 {
            rest
        } else {
            rest.push(r)
        }
    }
}

/// All tokens of a row run together.
pub open spec fn concat_tokens(row: Seq<Seq<char>>) -> Seq<char>
    decreases row.len()
{
    if row.len() == 0 {
        Seq::empty()
    } else {
        concat_tokens(row.drop_last()) + row.last()
    }
}

/// Fold one row into the accumulated table: a row with at least `min_cols`
/// tokens starts a new record; a shorter one is a wrapped continuation and
/// is appended to the previous row's trailing column.
pub open spec fn merge_step(
    acc: Seq<Seq<Seq<char>>>,
    row: Seq<Seq<char>>,
    min_cols: int,
) -> Seq<Seq<Seq<char>>> {
    if row.len() >= min_cols || acc.len() == 0 {
        acc.push(row)
    } else {
        let last_row = acc.last();
        if last_row.len() == 0 {
            acc.push(row)
        } else {
            let patched = last_row.update(
                last_row.len() - 1,
                last_row.last() + concat_tokens(row),
            );
            acc.update(acc.len() - 1, patched)
        }
    }
}

/// Merge wrapped continuation rows into their predecessors, left to right.
pub open spec fn merge_rows(rows: Seq<Seq<Seq<char>>>, min_cols: int) -> Seq<Seq<Seq<char>>>
    decreases rows.len()
{
    if rows.len() == 0 {
        Seq::empty()
    } else {
        merge_step(merge_rows(rows.drop_last(), min_cols), rows.last(), min_cols)
    }
}

/// The parameter a merged row denotes: name, optional default (an absent or
/// empty second column means no default), required flag, description.
pub open spec fn param_of_row(row: Seq<Seq<char>>) -> ParamModel
    recommends
        row.len() >= 3,
{
    if row.len() == 3 {
        ParamModel {
            name: row[0],
            default_value: None,
            required: row[1] == "yes"@,
            description: row[2],
        }
    } else {
        ParamModel {
            name: row[0],
            default_value: if row[1].len() == 0 {
                None
            } else {
                Some(row[1])
            },
            required: row[2] == "yes"@,
            description: row[3],
        }
    }
}

/// The parameters of the merged rows; rows still shorter than three tokens
/// (wrapped text with no preceding row) denote no parameter.
pub open spec fn params_of_rows(rows: Seq<Seq<Seq<char>>>) -> Seq<ParamModel>
    decreases rows.len()
{
    if rows.len() == 0 {
        Seq::empty()
    } else {
        let rest = params_of_rows(rows.drop_last());
        if rows.last().len() >= 3 {
            rest.push(param_of_row(rows.last()))
        } else {
            rest
        }
    }
}

/// The listing entry a merged row denotes. The first token is the row
/// number the console prints; it is dropped.
pub open spec fn entry_of_row(row: Seq<Seq<char>>) -> ListingModel
    recommends
        row.len() >= 5,
{
    ListingModel {
        name: row[1],
        disclosure_date: row[2],
        rank: row[3],
        check: row[4] == "Yes"@,
        description: if row.len() >= 6 {
            row[5]
        } else {
            Seq::empty()
        },
    }
}

/// The listing entries of the merged rows.
pub open spec fn entries_of_rows(rows: Seq<Seq<Seq<char>>>) -> Seq<ListingModel>
    decreases rows.len()
{
    if rows.len() == 0 {
        Seq::empty()
    } else {
        let rest = entries_of_rows(rows.drop_last());
        if rows.last().len() >= 5 {
            rest.push(entry_of_row(rows.last()))
        } else {
            rest
        }
    }
}

/// The parameters encoded by a section's rows (four-column tables).
pub open spec fn section_params(lines: Seq<Seq<char>>) -> Seq<ParamModel> {
    params_of_rows(merge_rows(token_rows(lines), 3))
}

/// The listing entries encoded by a section's rows (six-column tables).
pub open spec fn section_listing(lines: Seq<Seq<char>>) -> Seq<ListingModel> {
    entries_of_rows(merge_rows(token_rows(lines), 5))
}

/// The parameters of a raw table region.
pub open spec fn table_params(region: Seq<char>) -> Seq<ParamModel> {
    section_params(kept_lines(split_spec(region, "\n"@)))
}

/// The listing entries of a raw listing region.
pub open spec fn table_listing(region: Seq<char>) -> Seq<ListingModel> {
    section_listing(kept_lines(split_spec(region, "\n"@)))
}

/// A transient named slice of console output: a title and the non-empty
/// physical lines that follow it.
#[derive(Debug, Clone)]
pub struct Section {
    pub title: String,
    pub rows: Vec<String>,
}

impl Section {
    /// Cut `region` into its non-empty physical lines under `title`.
    pub fn of_region(title: &str, region: &str) -> (s: Section)
        ensures
            s.title@ == title@,
            s.rows.deep_view() == kept_lines(split_spec(region@, "\n"@)),
    {
        proof {
            reveal_strlit("\n");
        }
        let lines = split_on(region, "\n");
        let mut rows: Vec<String> = Vec::new();
        let mut i: usize = 0;
        while i < lines.len()
            invariant
                0 <= i <= lines@.len(),
                lines.deep_view().len() == lines@.len(),
                rows.deep_view() =~~= kept_lines(lines.deep_view().take(i as int)),
            decreases lines@.len() - i,
        {
            let ghost dv = lines.deep_view();
            let ghost pre = rows.deep_view();
            if !lines[i].as_str().is_empty() {
                rows.push(lines[i].clone());
                proof {
                    assert(rows.deep_view() =~~= pre.push(dv[i as int]));
                }
            }
            proof {
                assert(dv.take(i as int + 1).drop_last() =~~= dv.take(i as int));
                assert(dv.take(i as int + 1).last() == dv[i as int]);
            }
            i += 1;
        }
        proof {
            assert(lines.deep_view().take(lines@.len() as int) =~~= lines.deep_view());
        }
        Section { title: String::from_str(title), rows }
    }
}

/// Split one physical line into its trimmed column tokens.
pub fn tokenize_row(line: &str) -> (r: Vec<String>)
    ensures
        r.deep_view() == tokens_of(line@),
{
    proof {
        reveal_strlit("  ");
    }
    let parts = split_on(line, "  ");
    let mut out: Vec<String> = Vec::new();
    let mut i: usize = 0;
    while i < parts.len()
        invariant
            0 <= i <= parts@.len(),
            parts.deep_view().len() == parts@.len(),
            out.deep_view() =~~= clean_tokens(parts.deep_view().take(i as int)),
        decreases parts@.len() - i,
    {
        let ghost dv = parts.deep_view();
        let ghost pre = out.deep_view();
        let t = trim_ws(parts[i].as_str());
        if !t.as_str().is_empty() {
            out.push(t);
            proof {
                assert(out.deep_view() =~~= pre.push(trim_spec(dv[i as int])));
            }
        }
        proof {
            assert(dv.take(i as int + 1).drop_last() =~~= dv.take(i as int));
            assert(dv.take(i as int + 1).last() == dv[i as int]);
        }
        i += 1;
    }
    proof {
        assert(parts.deep_view().take(parts@.len() as int) =~~= parts.deep_view());
    }
    out
}

/// Tokenize every row of a section, dropping rows without tokens.
fn rows_to_token_rows(rows: &Vec<String>) -> (r: Vec<Vec<String>>)
    ensures
        r.deep_view() == token_rows(rows.deep_view()),
{
    let mut out: Vec<Vec<String>> = Vec::new();
    let mut i: usize = 0;
    while i < rows.len()
        invariant
            0 <= i <= rows@.len(),
            rows.deep_view().len() == rows@.len(),
            out.deep_view() =~~= token_rows(rows.deep_view().take(i as int)),
        decreases rows@.len() - i,
    {
        let ghost dv = rows.deep_view();
        let ghost pre = out.deep_view();
        let toks = tokenize_row(rows[i].as_str());
        if toks.len() > 0 {
            let ghost tdv = toks.deep_view();
            out.push(toks);
            proof {
                assert(out.deep_view() =~~= pre.push(tdv));
            }
        }
        proof {
            assert(dv.take(i as int + 1).drop_last() =~~= dv.take(i as int));
            assert(dv.take(i as int + 1).last() == dv[i as int]);
        }
        i += 1;
    }
    proof {
        assert(rows.deep_view().take(rows@.len() as int) =~~= rows.deep_view());
    }
    out
}

/// Append every token of `row` to `col`.
fn append_tokens(col: &mut String, row: &Vec<String>)
    ensures
        final(col)@ == old(col)@ + concat_tokens(row.deep_view()),
{
    let ghost base = col@;
    let mut j: usize = 0;
    while j < row.len()
        invariant
            0 <= j <= row@.len(),
            row.deep_view().len() == row@.len(),
            col@ =~= base + concat_tokens(row.deep_view().take(j as int)),
        decreases row@.len() - j,
    {
        let ghost dv = row.deep_view();
        col.append(row[j].as_str());
        proof {
            assert(dv.take(j as int + 1).drop_last() =~~= dv.take(j as int));
            assert(dv.take(j as int + 1).last() == dv[j as int]);
        }
        j += 1;
    }
    proof {
        assert(row.deep_view().take(row@.len() as int) =~~= row.deep_view());
    }
}

/// Merge continuation rows (fewer than `min_cols` tokens) into the trailing
/// column of the preceding row.
fn merge_token_rows(rows: Vec<Vec<String>>, min_cols: usize) -> (r: Vec<Vec<String>>)
    ensures
        r.deep_view() == merge_rows(rows.deep_view(), min_cols as int),
{
    let mut acc: Vec<Vec<String>> = Vec::new();
    let mut i: usize = 0;
    while i < rows.len()
        invariant
            0 <= i <= rows@.len(),
            rows.deep_view().len() == rows@.len(),
            acc.deep_view() =~~= merge_rows(rows.deep_view().take(i as int), min_cols as int),
        decreases rows@.len() - i,
    {
        let ghost dv = rows.deep_view();
        let ghost pre = acc.deep_view();
        let row = rows[i].clone();
        let ghost rowdv = row.deep_view();
        proof {
            assert(rowdv =~~= dv[i as int]);
        }
        if row.len() >= min_cols || acc.len() == 0 {
            acc.push(row);
            proof {
                assert(acc.deep_view() =~~= pre.push(rowdv));
            }
        } else {
            let mut last_row = acc.pop().unwrap();
            let ghost lrdv = last_row.deep_view();
            proof {
                assert(lrdv =~~= pre.last());
            }
            if last_row.len() == 0 {
                acc.push(last_row);
                acc.push(row);
                proof {
                    assert(acc.deep_view() =~~= pre.push(rowdv));
                }
            } else {
                let mut col = last_row.pop().unwrap();
                append_tokens(&mut col, &row);
                last_row.push(col);
                acc.push(last_row);
                proof {
                    let patched = lrdv.update(
                        lrdv.len() - 1,
                        lrdv.last() + concat_tokens(rowdv),
                    );
                    assert(last_row.deep_view() =~~= patched);
                    assert(acc.deep_view() =~~= pre.update(pre.len() - 1, patched));
                }
            }
        }
        proof {
            assert(dv.take(i as int + 1).drop_last() =~~= dv.take(i as int));
            assert(dv.take(i as int + 1).last() == dv[i as int]);
        }
        i += 1;
    }
    proof {
        assert(rows.deep_view().take(rows@.len() as int) =~~= rows.deep_view());
    }
    acc
}

/// Build the parameter a merged row denotes.
fn param_from_row(row: &Vec<String>) -> (p: Parameter)
    requires
        row@.len() >= 3,
    ensures
        p@ == param_of_row(row.deep_view()),
{
    if row.len() == 3 {
        let required = str_eq(row[1].as_str(), "yes");
        Parameter::new(row[0].clone(), None, required, row[2].clone())
    } else {
        let default_value = if row[1].as_str().is_empty() {
            None
        } else {
            Some(row[1].clone())
        };
        let required = str_eq(row[2].as_str(), "yes");
        Parameter::new(row[0].clone(), default_value, required, row[3].clone())
    }
}

/// Build the listing entry a merged row denotes.
fn entry_from_row(row: &Vec<String>) -> (e: ListingEntry)
    requires
        row@.len() >= 5,
    ensures
        e@ == entry_of_row(row.deep_view()),
{
    let check = str_eq(row[4].as_str(), "Yes");
    let description = if row.len() >= 6 {
        row[5].clone()
    } else {
        String::new()
    };
    ListingEntry {
        name: row[1].clone(),
        disclosure_date: row[2].clone(),
        rank: row[3].clone(),
        check,
        description,
    }
}

/// Parse a section's rows as a parameter table.
pub fn parse_param_rows(rows: &Vec<String>) -> (r: Vec<Parameter>)
    ensures
        r.deep_view() == section_params(rows.deep_view()),
{
    let tok = rows_to_token_rows(rows);
    let merged = merge_token_rows(tok, 3);
    let mut out: Vec<Parameter> = Vec::new();
    let mut i: usize = 0;
    while i < merged.len()
        invariant
            0 <= i <= merged@.len(),
            merged.deep_view().len() == merged@.len(),
            out.deep_view() =~~= params_of_rows(merged.deep_view().take(i as int)),
        decreases merged@.len() - i,
    {
        let ghost dv = merged.deep_view();
        let ghost pre = out.deep_view();
        if merged[i].len() >= 3 {
            let p = param_from_row(&merged[i]);
            out.push(p);
            proof {
                assert(out.deep_view() =~~= pre.push(param_of_row(dv[i as int])));
            }
        }
        proof {
            assert(dv.take(i as int + 1).drop_last() =~~= dv.take(i as int));
            assert(dv.take(i as int + 1).last() == dv[i as int]);
        }
        i += 1;
    }
    proof {
        assert(merged.deep_view().take(merged@.len() as int) =~~= merged.deep_view());
    }
    out
}

/// Parse a section's rows as a module listing.
pub fn parse_listing_rows(rows: &Vec<String>) -> (r: Vec<ListingEntry>)
    ensures
        r.deep_view() == section_listing(rows.deep_view()),
{
    let tok = rows_to_token_rows(rows);
    let merged = merge_token_rows(tok, 5);
    let mut out: Vec<ListingEntry> = Vec::new();
    let mut i: usize = 0;
    while i < merged.len()
        invariant
            0 <= i <= merged@.len(),
            merged.deep_view().len() == merged@.len(),
            out.deep_view() =~~= entries_of_rows(merged.deep_view().take(i as int)),
        decreases merged@.len() - i,
    {
        let ghost dv = merged.deep_view();
        let ghost pre = out.deep_view();
        if merged[i].len() >= 5 {
            let e = entry_from_row(&merged[i]);
            out.push(e);
            proof {
                assert(out.deep_view() =~~= pre.push(entry_of_row(dv[i as int])));
            }
        }
        proof {
            assert(dv.take(i as int + 1).drop_last() =~~= dv.take(i as int));
            assert(dv.take(i as int + 1).last() == dv[i as int]);
        }
        i += 1;
    }
    proof {
        assert(merged.deep_view().take(merged@.len() as int) =~~= merged.deep_view());
    }
    out
}

/// Parse a raw table region: its non-empty lines as a parameter table.
pub fn parse_param_table(region: &str) -> (r: Vec<Parameter>)
    ensures
        r.deep_view() == table_params(region@),
{
    let section = Section::of_region("", region);
    parse_param_rows(&section.rows)
}

/// Parse a raw listing region: its non-empty lines as a module listing.
pub fn parse_listing_table(region: &str) -> (r: Vec<ListingEntry>)
    ensures
        r.deep_view() == table_listing(region@),
{
    let section = Section::of_region("", region);
    parse_listing_rows(&section.rows)
}

} // verus!
