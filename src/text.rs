//! Text rendering of a density grid: three characters per counter, one line
//! per row.
use crate::grid::{grid_cells, grid_dim, grid_get, DensityGrid};
use vstd::prelude::*;

verus! {

/// The character of a decimal digit.
pub open spec fn digit_char(d: nat) -> char {
    seq!['0', '1', '2', '3', '4', '5', '6', '7', '8', '9'][d as int]
}

/// The decimal digits of a number, most significant first.
pub open spec fn decimal(n: nat) -> Seq<char>
    decreases n,
{
    if n < 10 {
        seq![digit_char(n)]
    } else {
        decimal(n / 10) + seq![digit_char(n % 10)]
    }
}

/// The glyph of one counter: blank for none, then `.`, `:` and `*`, and the
/// number itself from four on, each padded by a space on either side.
pub open spec fn glyph(v: u8) -> Seq<char> {
    if v == 0 {
        seq![' ', ' ', ' ']
    } else if v == 1 {
        seq![' ', '.', ' ']
    } else if v == 2 {
        seq![' ', ':', ' ']
    } else if v == 3 {
        seq![' ', '*', ' ']
    } else {
        seq![' '] + decimal(v as nat) + seq![' ']
    }
}

/// The glyphs of a row, left to right.
pub open spec fn row_text(row: Seq<u8>) -> Seq<char>
    decreases row.len(),
{
    if row.len() == 0 {
        Seq::empty()
    } else {
        row_text(row.drop_last()) + glyph(row.last())
    }
}

/// The rows of a grid, top to bottom, each ended by a line break.
pub open spec fn grid_text(rows: Seq<Seq<u8>>) -> Seq<char>
    decreases rows.len(),
{
    if rows.len() == 0 {
        Seq::empty()
    } else {
        grid_text(rows.drop_last()) + row_text(rows.last()) + seq!['\n']
    }
}

fn push_digit(s: &mut String, d: u8)
    requires
        d < 10,
    ensures
        final(s)@ == old(s)@ + seq![digit_char(d as nat)],
{
    let t: &str = match d {
        0 => "0",
        1 => "1",
        2 => "2",
        3 => "3",
        4 => "4",
        5 => "5",
        6 => "6",
        7 => "7",
        8 => "8",
        _ => "9",
    };
    proof {
        reveal_strlit("0");
        reveal_strlit("1");
        reveal_strlit("2");
        reveal_strlit("3");
        reveal_strlit("4");
        reveal_strlit("5");
        reveal_strlit("6");
        reveal_strlit("7");
        reveal_strlit("8");
        reveal_strlit("9");
    }
    s.append(t);
}

fn push_glyph(s: &mut String, v: u8)
    ensures
        final(s)@ == old(s)@ + glyph(v),
{
    proof {
        reveal_strlit("   ");
        reveal_strlit(" . ");
        reveal_strlit(" : ");
        reveal_strlit(" * ");
        reveal_strlit(" ");
    }
    if v == 0 {
        s.append("   ");
    } else if v == 1 {
        s.append(" . ");
    } else if v == 2 {
        s.append(" : ");
    } else if v == 3 {
        s.append(" * ");
    } else {
        let ghost start = s@;
        s.append(" ");
        if v >= 100 {
            push_digit(s, v / 100);
            push_digit(s, (v / 10) % 10);
            push_digit(s, v % 10);
            proof {
                let n = v as nat;
                assert(n / 10 / 10 == n / 100);
                assert(decimal(n / 100) == seq![digit_char(n / 100)]);
                assert(decimal(n / 10) == decimal(n / 100) + seq![digit_char((n / 10) % 10)]);
                assert(decimal(n) == decimal(n / 10) + seq![digit_char(n % 10)]);
            }
        } else if v >= 10 {
            push_digit(s, v / 10);
            push_digit(s, v % 10);
            proof {
                let n = v as nat;
                assert(decimal(n / 10) == seq![digit_char(n / 10)]);
                assert(decimal(n) == decimal(n / 10) + seq![digit_char(n % 10)]);
            }
        } else {
            push_digit(s, v);
            assert(decimal(v as nat) == seq![digit_char(v as nat)]);
        }
        s.append(" ");
        assert(s@ =~= start + glyph(v));
    }
}

/// Renders a grid as text: for each row, the glyph of each counter and a line
/// break.
pub fn format_count(grid: &DensityGrid) -> (r: String)
    ensures
        r@ == grid_text(grid_cells(*grid)),
{
    let (rows, cols) = grid_dim(grid);
    let ghost cells = grid_cells(*grid);
    let mut s = String::new();
    let mut i: usize = 0;
    assert(cells.take(0) =~= Seq::<Seq<u8>>::empty());
    while i < rows
        invariant
            i <= rows,
            rows == cells.len(),
            cells == grid_cells(*grid),
            forall|k: int| 0 <= k < rows ==> #[trigger] cells[k].len() == cols,
            s@ == grid_text(cells.take(i as int)),
        decreases rows - i,
    {
        let ghost line_start = s@;
        let mut j: usize = 0;
        assert(cells[i as int].take(0) =~= Seq::<u8>::empty());
        while j < cols
            invariant
                i < rows,
                j <= cols,
                rows == cells.len(),
                cells == grid_cells(*grid),
                cells[i as int].len() == cols,
                s@ == line_start + row_text(cells[i as int].take(j as int)),
            decreases cols - j,
        {
            let v = grid_get(grid, i, j);
            push_glyph(&mut s, v);
            proof {
                let next = cells[i as int].take(j + 1);
                assert(next.drop_last() =~= cells[i as int].take(j as int));
                assert(next.last() == v);
            }
            j += 1;
        }
        s.append("\n");
        proof {
            reveal_strlit("\n");
            assert(cells[i as int].take(cols as int) =~= cells[i as int]);
            let next = cells.take(i + 1);
            assert(next.drop_last() =~= cells.take(i as int));
            assert(next.last() == cells[i as int]);
            assert(s@ =~= grid_text(next));
        }
        i += 1;
    }
    assert(cells.take(rows as int) =~= cells);
    s
}

} // verus!
