//! The ingest stage: the comma-separated text source, parsed in verified
//! code. The grammar is stated as spec functions over the byte sequence:
//! lines split at newlines (a trailing empty line and a carriage return
//! at a line's end are tolerated), cells split at commas, a header row
//! that must hold at least four columns among them `E` and `rad_stp_pow`,
//! and data rows whose every cell is a decimal floating-point literal.

use vstd::prelude::*;
use crate::Error;
use crate::fp::{double_of_text, parse_double};

verus! {

/// The line separator, `\n`.
pub const NEWLINE: u8 = 10;

/// The tolerated line terminator, `\r`.
pub const CARRIAGE: u8 = 13;

/// The cell separator, `,`.
pub const COMMA: u8 = 44;

/// The split of a byte sequence at every occurrence of `sep`: always one
/// part more than there are separators, parts free of the separator.
pub open spec fn split_at(s: Seq<u8>, sep: u8) -> Seq<Seq<u8>>
    decreases s.len(),
{
    if s.len() == 0 {
        seq![Seq::<u8>::empty()]
    } else if s[0] == sep {
        seq![Seq::<u8>::empty()].add(split_at(s.drop_first(), sep))
    } else {
        let rest = split_at(s.drop_first(), sep);
        seq![seq![s[0]].add(rest[0])].add(rest.drop_first())
    }
}

pub proof fn lemma_split_len(s: Seq<u8>, sep: u8)
    ensures
        split_at(s, sep).len() >= 1,
    decreases s.len(),
{
    if s.len() != 0 {
        lemma_split_len(s.drop_first(), sep);
    }
}

/// Appending one byte extends the last part, or opens a new empty part
/// if the byte is the separator.
pub proof fn lemma_split_snoc(s: Seq<u8>, c: u8, sep: u8)
    ensures
        c == sep ==> split_at(s.push(c), sep) == split_at(s, sep).push(Seq::<u8>::empty()),
        c != sep ==> split_at(s.push(c), sep) == split_at(s, sep).update(
            split_at(s, sep).len() - 1,
            split_at(s, sep).last().push(c),
        ),
    decreases s.len(),
{
    lemma_split_len(s, sep);
    let l = s.push(c);
    if s.len() == 0 {
        assert(l.drop_first() =~= Seq::<u8>::empty());
        assert(split_at(Seq::<u8>::empty(), sep) == seq![Seq::<u8>::empty()]);
        if c == sep {
            assert(split_at(l, sep) == seq![Seq::<u8>::empty()].add(
                split_at(l.drop_first(), sep),
            ));
            assert(split_at(l, sep) =~~= split_at(s, sep).push(Seq::<u8>::empty()));
        } else {
            assert(split_at(l, sep) == seq![seq![l[0]].add(split_at(l.drop_first(), sep)[0])].add(
                split_at(l.drop_first(), sep).drop_first(),
            ));
            assert(split_at(l, sep) =~~= split_at(s, sep).update(
                0,
                split_at(s, sep).last().push(c),
            ));
        }
    } else {
        let t = s.drop_first();
        lemma_split_len(t, sep);
        lemma_split_len(t.push(c), sep);
        assert(l.drop_first() =~= t.push(c));
        assert(l[0] == s[0]);
        lemma_split_snoc(t, c, sep);
        if s[0] == sep {
            assert(split_at(l, sep) == seq![Seq::<u8>::empty()].add(split_at(t.push(c), sep)));
            assert(split_at(s, sep) == seq![Seq::<u8>::empty()].add(split_at(t, sep)));
        } else {
            assert(split_at(l, sep) == seq![seq![s[0]].add(split_at(t.push(c), sep)[0])].add(
                split_at(t.push(c), sep).drop_first(),
            ));
            assert(split_at(s, sep) == seq![seq![s[0]].add(split_at(t, sep)[0])].add(
                split_at(t, sep).drop_first(),
            ));
        }
        if c == sep {
            assert(split_at(l, sep) =~~= split_at(s, sep).push(Seq::<u8>::empty()));
        } else {
            assert(split_at(l, sep) =~~= split_at(s, sep).update(
                split_at(s, sep).len() - 1,
                split_at(s, sep).last().push(c),
            ));
        }
    }
}

/// The views of a vector of byte vectors.
pub open spec fn views(ps: Seq<Vec<u8>>) -> Seq<Seq<u8>> {
    ps.map_values(|p: Vec<u8>| p@)
}

/// Splits a byte vector at every occurrence of `sep`.
pub fn split_bytes(s: &Vec<u8>, sep: u8) -> (parts: Vec<Vec<u8>>)
    ensures
        views(parts@) == split_at(s@, sep),
{
    let mut parts: Vec<Vec<u8>> = Vec::new();
    let mut cur: Vec<u8> = Vec::new();
    let mut i: usize = 0;
    while i < s.len()
        invariant
            i <= s@.len(),
            views(parts@).push(cur@) == split_at(s@.take(i as int), sep),
        decreases s@.len() - i,
    {
        let ghost pre = s@.take(i as int);
        proof {
            assert(s@.take(i as int + 1) =~= pre.push(s@[i as int]));
            lemma_split_snoc(pre, s@[i as int], sep);
            lemma_split_len(pre, sep);
        }
        let c = s[i];
        if c == sep {
            parts.push(cur);
            cur = Vec::new();
            proof {
                assert(views(parts@).push(cur@) =~~= split_at(s@.take(i as int + 1), sep));
            }
        } else {
            cur.push(c);
            proof {
                assert(views(parts@).push(cur@) =~~= split_at(s@.take(i as int + 1), sep));
            }
        }
        i = i + 1;
    }
    parts.push(cur);
    proof {
        assert(s@.take(s@.len() as int) =~= s@);
        assert(views(parts@) =~~= split_at(s@, sep));
    }
    parts
}

/// A line with a trailing carriage return dropped.
pub open spec fn strip_cr(l: Seq<u8>) -> Seq<u8> {
    if l.len() > 0 && l.last() == CARRIAGE {
        l.drop_last()
    } else {
        l
    }
}

fn strip_cr_exec(mut l: Vec<u8>) -> (r: Vec<u8>)
    ensures
        r@ == strip_cr(l@),
{
    if l.len() > 0 && l[l.len() - 1] == CARRIAGE {
        l.pop();
    }
    l
}

/// Whether two byte vectors hold the same bytes.
fn bytes_eq(a: &Vec<u8>, b: &Vec<u8>) -> (r: bool)
    ensures
        r <==> a@ == b@,
{
    if a.len() != b.len() {
        return false;
    }
    let mut i: usize = 0;
    while i < a.len()
        invariant
            a@.len() == b@.len(),
            i <= a@.len(),
            forall|j: int| 0 <= j < i ==> a@[j] == b@[j],
        decreases a@.len() - i,
    {
        if a[i] != b[i] {
            return false;
        }
        i = i + 1;
    }
    proof {
        assert(a@ =~= b@);
    }
    true
}

/// The first index at which `cells` holds exactly `name`; -1 if none.
pub open spec fn find_cell(cells: Seq<Seq<u8>>, name: Seq<u8>) -> int
    decreases cells.len(),
{
    if cells.len() == 0 {
        -1
    } else if cells[0] == name {
        0
    } else {
        let r = find_cell(cells.drop_first(), name);
        if r < 0 {
            -1
        } else {
            r + 1
        }
    }
}

proof fn lemma_find_cell_at(cells: Seq<Seq<u8>>, name: Seq<u8>, i: int)
    requires
        0 <= i < cells.len(),
        cells[i] == name,
        forall|j: int| 0 <= j < i ==> cells[j] != name,
    ensures
        find_cell(cells, name) == i,
    decreases i,
{
    if i > 0 {
        lemma_find_cell_at(cells.drop_first(), name, i - 1);
    }
}

proof fn lemma_find_cell_none(cells: Seq<Seq<u8>>, name: Seq<u8>)
    requires
        forall|j: int| 0 <= j < cells.len() ==> cells[j] != name,
    ensures
        find_cell(cells, name) == -1,
    decreases cells.len(),
{
    if cells.len() > 0 {
        lemma_find_cell_none(cells.drop_first(), name);
    }
}

/// The header name `E` as bytes.
pub open spec fn col_e_name() -> Seq<u8> {
    seq![69u8]
}

/// The header name `rad_stp_pow` as bytes.
pub open spec fn col_rad_name() -> Seq<u8> {
    seq![114u8, 97u8, 100u8, 95u8, 115u8, 116u8, 112u8, 95u8, 112u8, 111u8, 119u8]
}

/// The lines of the text: split at newlines, a final empty line dropped,
/// and a trailing carriage return of each line dropped.
pub open spec fn lines_of(s: Seq<u8>) -> Seq<Seq<u8>> {
    let raw = split_at(s, NEWLINE);
    let kept = if raw.last() == Seq::<u8>::empty() {
        raw.drop_last()
    } else {
        raw
    };
    kept.map_values(|l: Seq<u8>| strip_cr(l))
}

/// The cells of one line.
pub open spec fn row_cells(line: Seq<u8>) -> Seq<Seq<u8>> {
    split_at(line, COMMA)
}

/// Whether a data row matches the schema: as many cells as the header,
/// every cell a decimal floating-point literal.
pub open spec fn row_ok(line: Seq<u8>, ncols: int) -> bool {
    &&& row_cells(line).len() == ncols
    &&& forall|k: int|
        0 <= k < row_cells(line).len() ==> #[trigger] double_of_text(row_cells(line)[k]) is Some
}

/// The parsed value of cell `k` of a row.
pub open spec fn cell_val(line: Seq<u8>, k: int) -> u64 {
    double_of_text(row_cells(line)[k])->Some_0
}

/// The first row that does not match the schema; -1 if all do.
pub open spec fn first_bad_row(rows: Seq<Seq<u8>>, ncols: int) -> int
    decreases rows.len(),
{
    if rows.len() == 0 {
        -1
    } else if !row_ok(rows[0], ncols) {
        0
    } else {
        let r = first_bad_row(rows.drop_first(), ncols);
        if r < 0 {
            -1
        } else {
            r + 1
        }
    }
}

proof fn lemma_first_bad_at(rows: Seq<Seq<u8>>, ncols: int, i: int)
    requires
        0 <= i < rows.len(),
        !row_ok(rows[i], ncols),
        forall|j: int| 0 <= j < i ==> row_ok(rows[j], ncols),
    ensures
        first_bad_row(rows, ncols) == i,
    decreases i,
{
    if i > 0 {
        lemma_first_bad_at(rows.drop_first(), ncols, i - 1);
    }
}

proof fn lemma_first_bad_none(rows: Seq<Seq<u8>>, ncols: int)
    requires
        forall|j: int| 0 <= j < rows.len() ==> row_ok(rows[j], ncols),
    ensures
        first_bad_row(rows, ncols) == -1,
    decreases rows.len(),
{
    if rows.len() > 0 {
        lemma_first_bad_none(rows.drop_first(), ncols);
    }
}

/// One named column of the data rows.
pub open spec fn column(rows: Seq<Seq<u8>>, k: int) -> Seq<u64> {
    Seq::new(rows.len(), |i: int| cell_val(rows[i], k))
}

/// What parsing the text yields: the `E` and `rad_stp_pow` columns, or
/// the parse error naming the first offending row (the header is row 0).
pub open spec fn parse_table_spec(s: Seq<u8>) -> Result<(Seq<u64>, Seq<u64>), Error> {
    let ls = lines_of(s);
    if ls.len() == 0 {
        Err(Error::ParseError { row: 0 })
    } else {
        let hd = row_cells(ls[0]);
        let ie = find_cell(hd, col_e_name());
        let ir = find_cell(hd, col_rad_name());
        if hd.len() < 4 || ie < 0 || ir < 0 {
            Err(Error::ParseError { row: 0 })
        } else {
            let rows = ls.drop_first();
            let bad = first_bad_row(rows, hd.len() as int);
            if bad >= 0 {
                Err(Error::ParseError { row: (1 + bad) as usize })
            } else {
                Ok((column(rows, ie), column(rows, ir)))
            }
        }
    }
}

/// The tabulated energies and mass radiative stopping powers of the text
/// source, row by row.
#[derive(Debug)]
pub struct EnergyTable {
    /// The `E` column: kinetic energies in MeV.
    pub e_k: Vec<u64>,
    /// The `rad_stp_pow` column: mass stopping powers in MeV cm^2/g.
    pub rad: Vec<u64>,
}

/// Parses the text source: exactly [`parse_table_spec`] of the bytes.
#[verifier::loop_isolation(false)]
pub fn parse_table(text: &Vec<u8>) -> (r: Result<EnergyTable, Error>)
    ensures
        parse_table_spec(text@) is Ok ==> r is Ok && r->Ok_0.e_k@ == parse_table_spec(
            text@,
        )->Ok_0.0 && r->Ok_0.rad@ == parse_table_spec(text@)->Ok_0.1,
        parse_table_spec(text@) is Err ==> r is Err && r->Err_0 == parse_table_spec(
            text@,
        )->Err_0,
{
    let raw = split_bytes(text, NEWLINE);
    proof {
        lemma_split_len(text@, NEWLINE);
    }
    let last_empty = raw[raw.len() - 1].len() == 0;
    proof {
        if last_empty {
            assert(split_at(text@, NEWLINE).last() =~= Seq::<u8>::empty());
        }
    }
    let keep: usize = if last_empty {
        raw.len() - 1
    } else {
        raw.len()
    };
    let mut lines: Vec<Vec<u8>> = Vec::new();
    let mut i: usize = 0;
    while i < keep
        invariant
            keep <= raw@.len(),
            i <= keep,
            lines@.len() == i,
            views(raw@) == split_at(text@, NEWLINE),
            keep == lines_of(text@).len(),
            forall|j: int| 0 <= j < i ==> views(lines@)[j] == lines_of(text@)[j],
        decreases keep - i,
    {
        let line = strip_cr_exec(raw[i].clone());
        lines.push(line);
        i = i + 1;
    }
    proof {
        assert(views(lines@) =~~= lines_of(text@));
    }
    if lines.len() == 0 {
        return Err(Error::ParseError { row: 0 });
    }
    let hd = split_bytes(&lines[0], COMMA);
    let ghost hds = row_cells(lines_of(text@)[0]);
    let e_name: Vec<u8> = vec![69u8];
    let rad_name: Vec<u8> = vec![114u8, 97u8, 100u8, 95u8, 115u8, 116u8, 112u8, 95u8, 112u8, 111u8, 119u8];
    proof {
        assert(e_name@ =~= col_e_name());
        assert(rad_name@ =~= col_rad_name());
    }
    let ie_opt = position_of(&hd, &e_name);
    let ir_opt = position_of(&hd, &rad_name);
    if hd.len() < 4 || ie_opt.is_none() || ir_opt.is_none() {
        return Err(Error::ParseError { row: 0 });
    }
    let ie = ie_opt.unwrap();
    let ir = ir_opt.unwrap();
    let ncols = hd.len();
    let ghost rows = lines_of(text@).drop_first();
    let mut e_col: Vec<u64> = Vec::new();
    let mut r_col: Vec<u64> = Vec::new();
    let mut li: usize = 1;
    while li < lines.len()
        invariant
            1 <= li <= lines@.len(),
            views(lines@) == lines_of(text@),
            rows == lines_of(text@).drop_first(),
            ncols == hds.len(),
            0 <= ie < ncols,
            0 <= ir < ncols,
            hds == row_cells(lines_of(text@)[0]),
            e_col@.len() == li - 1,
            r_col@.len() == li - 1,
            forall|j: int| 0 <= j < li - 1 ==> row_ok(rows[j], ncols as int),
            forall|j: int| 0 <= j < li - 1 ==> e_col@[j] == cell_val(rows[j], ie as int),
            forall|j: int| 0 <= j < li - 1 ==> r_col@[j] == cell_val(rows[j], ir as int),
        decreases lines@.len() - li,
    {
        let cells = split_bytes(&lines[li], COMMA);
        let ghost rowv = rows[li - 1];
        proof {
            assert(rowv == lines_of(text@)[li as int]);
            assert(views(cells@) == row_cells(rowv));
        }
        if cells.len() != ncols {
            proof {
                lemma_first_bad_at(rows, ncols as int, li - 1);
            }
            return Err(Error::ParseError { row: li });
        }
        let mut e_val: u64 = 0;
        let mut r_val: u64 = 0;
        let mut k: usize = 0;
        while k < cells.len()
            invariant
                views(cells@) == row_cells(rowv),
                cells@.len() == ncols,
                0 <= ie < ncols,
                0 <= ir < ncols,
                k <= cells@.len(),
                forall|m: int|
                    0 <= m < k ==> #[trigger] double_of_text(row_cells(rowv)[m]) is Some,
                ie < k ==> e_val == cell_val(rowv, ie as int),
                ir < k ==> r_val == cell_val(rowv, ir as int),
            decreases cells@.len() - k,
        {
            match parse_double(&cells[k]) {
                None => {
                    proof {
                        assert(row_cells(rowv)[k as int] == cells@[k as int]@);
                        assert(!row_ok(rowv, ncols as int));
                        lemma_first_bad_at(rows, ncols as int, li - 1);
                    }
                    return Err(Error::ParseError { row: li });
                },
                Some(v) => {
                    if k == ie {
                        e_val = v;
                    }
                    if k == ir {
                        r_val = v;
                    }
                },
            }
            k = k + 1;
        }
        e_col.push(e_val);
        r_col.push(r_val);
        li = li + 1;
    }
    proof {
        assert(rows.len() == lines@.len() - 1);
        lemma_first_bad_none(rows, ncols as int);
        assert(e_col@ =~= column(rows, ie as int));
        assert(r_col@ =~= column(rows, ir as int));
    }
    Ok(EnergyTable { e_k: e_col, rad: r_col })
}

/// The first cell equal to `name`, if any.
fn position_of(cells: &Vec<Vec<u8>>, name: &Vec<u8>) -> (r: Option<usize>)
    ensures
        r is Some ==> find_cell(views(cells@), name@) == r->Some_0 && r->Some_0 < cells@.len(),
        r is None ==> find_cell(views(cells@), name@) < 0,
{
    let mut i: usize = 0;
    while i < cells.len()
        invariant
            i <= cells@.len(),
            forall|j: int| 0 <= j < i ==> views(cells@)[j] != name@,
        decreases cells@.len() - i,
    {
        if bytes_eq(&cells[i], name) {
            proof {
                lemma_find_cell_at(views(cells@), name@, i as int);
            }
            return Some(i);
        }
        i = i + 1;
    }
    proof {
        lemma_find_cell_none(views(cells@), name@);
    }
    None
}

} // verus!
