//! The CSV text that the harness exports: a header row naming the strategies
//! and one numbered row per iteration, with a cell per strategy.

use vstd::prelude::*;

use crate::cycles::ResetCounter;

verus! {

/// The character for one decimal digit.
pub open spec fn dec_digit(d: nat) -> char
    recommends
        d < 10,
{
    if d == 0 {
        '0'
    } else if d == 1 {
        '1'
    } else if d == 2 {
        '2'
    } else if d == 3 {
        '3'
    } else if d == 4 {
        '4'
    } else if d == 5 {
        '5'
    } else if d == 6 {
        '6'
    } else if d == 7 {
        '7'
    } else if d == 8 {
        '8'
    } else {
        '9'
    }
}

/// The decimal digits of `n`, most significant first, with no leading zero
/// except for `n == 0` itself.
pub open spec fn dec_rep(n: nat) -> Seq<char>
    decreases n,
{
    if n < 10 {
        seq![dec_digit(n)]
    } else {
        dec_rep(n / 10).push(dec_digit(n % 10))
    }
}

/// The one-character string of a decimal digit.
fn digit_str(d: u128) -> (s: &'static str)
    requires
        d < 10,
    ensures
        s@ == seq![dec_digit(d as nat)],
{
    let s: &'static str = if d == 0 {
        "0"
    } else if d == 1 {
        "1"
    } else if d == 2 {
        "2"
    } else if d == 3 {
        "3"
    } else if d == 4 {
        "4"
    } else if d == 5 {
        "5"
    } else if d == 6 {
        "6"
    } else if d == 7 {
        "7"
    } else if d == 8 {
        "8"
    } else {
        "9"
    };
    proof {
        reveal_strlit("0");
        reveal_strlit("1");
        reveal_strlit("2");
        reveal_strlit("3");
        reveal_strlit("4");
        reveal_strlit("5");
        reveal_strlit("6");
        reveal_strlit("7");
        reveal_strlit("8");
        reveal_strlit("9");
        assert(s@ =~= seq![dec_digit(d as nat)]);
    }
    s
}

/// Append the decimal digits of `n` to `s`.
fn push_dec(s: &mut String, n: u128)
    ensures
        final(s)@ == old(s)@ + dec_rep(n as nat),
    decreases n,
{
    if n >= 10 {
        push_dec(s, n / 10);
        s.append(digit_str(n % 10));
        proof {
            assert(final(s)@ =~= old(s)@ + dec_rep(n as nat));
        }
    } else {
        s.append(digit_str(n));
        proof {
            assert(final(s)@ =~= old(s)@ + dec_rep(n as nat));
        }
    }
}

/// The decimal text of `n`.
pub fn u128_to_string(n: u128) -> (s: String)
    ensures
        s@ == dec_rep(n as nat),
{
    let mut s = String::new();
    push_dec(&mut s, n);
    proof {
        assert(s@ =~= dec_rep(n as nat));
    }
    s
}

/// The cells joined by single commas, with no comma after the last.
pub open spec fn join_comma(cells: Seq<Seq<char>>) -> Seq<char>
    decreases cells.len(),
{
    if cells.len() == 0 {
        Seq::empty()
    } else if cells.len() == 1 {
        cells[0]
    } else {
        join_comma(cells.drop_last()) + ","@ + cells.last()
    }
}

/// Join the cells with commas, leaving the last cell bare.
fn join_comma_exec(cells: &Vec<String>) -> (s: String)
    ensures
        s@ == join_comma(cells@.map_values(|c: String| c@)),
{
    let ghost views = cells@.map_values(|c: String| c@);
    let mut s = String::new();
    for k in 0..cells.len()
        invariant
            views == cells@.map_values(|c: String| c@),
            s@ == join_comma(views.subrange(0, k as int)),
    {
        if k > 0 {
            s.append(",");
        }
        s.append(cells[k].as_str());
        proof {
            let sub1 = views.subrange(0, k as int + 1);
            assert(sub1.drop_last() =~= views.subrange(0, k as int));
            assert(sub1.last() == views[k as int]);
            assert(s@ =~= join_comma(sub1));
        }
    }
    proof {
        assert(views.subrange(0, views.len() as int) =~= views);
    }
    s
}

/// The strategies' display names, in their fixed order.
pub open spec fn strategy_names() -> Seq<Seq<char>> {
    ResetCounter::all_variants().map_values(|c: ResetCounter| c.name_spec())
}

/// The header row: an iteration column, then one column per strategy.
pub open spec fn csv_header() -> Seq<char> {
    "Iteration,"@ + join_comma(strategy_names()) + "\n"@
}

/// The cells of row `j`: the `j`-th entry of each strategy's series.
pub open spec fn row_cells(data: Seq<Seq<Seq<char>>>, j: int) -> Seq<Seq<char>> {
    data.map_values(|col: Seq<Seq<char>>| col[j])
}

/// Data row `j`: the one-based row number, a comma, the row's cells joined
/// by commas, and a line break.
pub open spec fn csv_row(data: Seq<Seq<Seq<char>>>, j: int) -> Seq<char> {
    dec_rep((j + 1) as nat) + ","@ + join_comma(row_cells(data, j)) + "\n"@
}

/// The first `upto` data rows, in order.
pub open spec fn csv_rows(data: Seq<Seq<Seq<char>>>, upto: int) -> Seq<char>
    decreases upto,
{
    if upto <= 0 {
        Seq::empty()
    } else {
        csv_rows(data, upto - 1) + csv_row(data, upto - 1)
    }
}

/// The whole CSV text for the series in `data`: the header, then one row for
/// each entry of the first series.
pub open spec fn csv_content(data: Seq<Seq<Seq<char>>>) -> Seq<char>
    recommends
        data.len() > 0,
{
    csv_header() + csv_rows(data, data[0].len() as int)
}

/// The text views of a grid of cells.
pub open spec fn cell_views(data: Seq<Vec<String>>) -> Seq<Seq<Seq<char>>> {
    data.map_values(|col: Vec<String>| col@.map_values(|c: String| c@))
}

/// The CSV text for the given series: one column per strategy (in the fixed
/// strategy order, matching the header), one row per entry of the first
/// series, each row numbered from one.
pub fn times_to_csv_content(data: &Vec<Vec<String>>) -> (s: String)
    requires
        data@.len() > 0,
        forall|i: int| 0 <= i < data@.len() ==> (#[trigger] data@[i])@.len() >= data@[0]@.len(),
    ensures
        s@ == csv_content(cell_views(data@)),
{
    let ghost cells = cell_views(data@);
    let names = ResetCounter::iter();
    let mut name_cells: Vec<String> = Vec::new();
    for k in 0..names.len()
        invariant
            names@ == ResetCounter::all_variants(),
            name_cells@.len() == k,
            name_cells@.map_values(|c: String| c@) =~= strategy_names().subrange(0, k as int),
    {
        name_cells.push(String::from_str(names[k].to_string()));
        proof {
            assert(name_cells@.map_values(|c: String| c@) =~= strategy_names().subrange(
                0,
                k as int + 1,
            ));
        }
    }
    proof {
        assert(strategy_names().subrange(0, strategy_names().len() as int) =~= strategy_names());
    }
    let mut s = String::new();
    s.append("Iteration,");
    let joined_names = join_comma_exec(&name_cells);
    s.append(joined_names.as_str());
    s.append("\n");
    proof {
        assert(s@ =~= csv_header());
    }
    let rows = data[0].len();
    let cols = data.len();
    for j in 0..rows
        invariant
            cells == cell_views(data@),
            cols == data@.len(),
            data@.len() > 0,
            rows == data@[0]@.len(),
            forall|i: int| 0 <= i < data@.len() ==> (#[trigger] data@[i])@.len() >= rows,
            s@ == csv_header() + csv_rows(cells, j as int),
    {
        let jn: u128 = (j as u128) + 1;
        let row_number = u128_to_string(jn);
        s.append(row_number.as_str());
        s.append(",");
        let mut row_vals: Vec<String> = Vec::new();
        for i in 0..cols
            invariant
                cells == cell_views(data@),
                cols == data@.len(),
                data@.len() > 0,
                j < rows,
                rows == data@[0]@.len(),
                forall|i2: int| 0 <= i2 < data@.len() ==> (#[trigger] data@[i2])@.len() >= rows,
                row_vals@.len() == i,
                row_vals@.map_values(|c: String| c@) =~= row_cells(cells, j as int).subrange(
                    0,
                    i as int,
                ),
        {
            row_vals.push(data[i][j].clone());
            proof {
                assert(cells[i as int] == data@[i as int]@.map_values(|c: String| c@));
                assert(row_vals@.map_values(|c: String| c@) =~= row_cells(
                    cells,
                    j as int,
                ).subrange(0, i as int + 1));
            }
        }
        proof {
            assert(row_cells(cells, j as int).subrange(
                0,
                row_cells(cells, j as int).len() as int,
            ) =~= row_cells(cells, j as int));
        }
        let joined_row = join_comma_exec(&row_vals);
        s.append(joined_row.as_str());
        s.append("\n");
        proof {
            assert(s@ =~= csv_header() + csv_rows(cells, j as int + 1));
        }
    }
    proof {
        assert(cells.len() == data@.len());
        assert(cells[0] == data@[0]@.map_values(|c: String| c@));
        assert(s@ =~= csv_content(cells));
    }
    s
}

} // verus!
