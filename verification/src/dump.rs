//! The register file as text: a table of sixteen rows of sixteen bytes in
//! hex, each row followed by its printable characters.

use vstd::prelude::*;
use vstd::string::*;

use crate::text::push_char;

verus! {

/// The table's two header lines.
pub open spec fn header() -> Seq<char> {
    "|      | _0 _1 _2 _3 _4 _5 _6 _7 _8 _9 _A _B _C _D _E _F\n|------+------------------------------------------------\n"@
}

/// The upper-case hex digit of `n` (below 16).
pub open spec fn hex_digit(n: int) -> char {
    if n < 10 {
        (48 + n) as char
    } else {
        (55 + n) as char
    }
}

/// How a byte shows in the character column: itself where printable ASCII,
/// else a dot.
pub open spec fn shown(b: u8) -> char {
    if 0x20 <= b <= 0x7E {
        b as char
    } else {
        '.'
    }
}

/// The hex column of bytes `cells`: each byte as a space and two digits.
pub open spec fn hex_cells(cells: Seq<u8>) -> Seq<char>
    decreases cells.len(),
{
    if cells.len() == 0 {
        Seq::empty()
    } else {
        hex_cells(cells.drop_last()) + seq![' ', hex_digit((cells.last() / 16) as int), hex_digit((cells.last() % 16) as int)]
    }
}

/// Row `h` of the table, for the sixteen bytes `cells`.
pub open spec fn row(h: int, cells: Seq<u8>) -> Seq<char> {
    "| 0x"@ + seq![hex_digit(h)] + "_ |"@ + hex_cells(cells) + " |"@ + cells.map_values(|b: u8| shown(b)) + "|\n"@
}

/// The first `n` rows of the table of `mem`.
pub open spec fn rows(mem: Seq<u8>, n: nat) -> Seq<char>
    decreases n,
{
    if n == 0 {
        Seq::empty()
    } else {
        rows(mem, (n - 1) as nat) + row(n - 1, mem.subrange(16 * (n - 1), (16 * n) as int))
    }
}

/// The whole table of the 256 registers `mem`.
pub open spec fn pretty(mem: Seq<u8>) -> Seq<char> {
    header() + rows(mem, 16)
}

pub(crate) fn hex_char(n: u8) -> (c: char)
    requires
        n < 16,
    ensures
        c == hex_digit(n as int),
{
    if n < 10 {
        (48 + n) as char
    } else {
        (55 + n) as char
    }
}

fn shown_char(b: u8) -> (c: char)
    ensures
        c == shown(b),
{
    if 0x20 <= b && b <= 0x7E {
        b as char
    } else {
        '.'
    }
}

/// Appends the literal `t` to `s`.
pub(crate) fn append_str(s: &mut String, t: &str)
    ensures
        final(s)@ == old(s)@ + t@,
{
    s.append(t);
}

/// The table of the 256 registers `mem`.
pub fn pretty_dump(mem: &[u8; 256]) -> (s: String)
    ensures
        s@ == pretty(mem@),
{
    let mut s = String::new();
    let h0 = "|      | _0 _1 _2 _3 _4 _5 _6 _7 _8 _9 _A _B _C _D _E _F\n|------+------------------------------------------------\n";
    append_str(&mut s, h0);
    let mut h: u8 = 0;
    while h < 16
        invariant
            h <= 16,
            mem@.len() == 256,
            s@ == header() + rows(mem@, h as nat),
        decreases 16 - h,
    {
        let ghost before = s@;
        let ghost cells = mem@.subrange(16 * h as int, 16 * h + 16);
        append_str(&mut s, "| 0x");
        push_char(&mut s, hex_char(h));
        append_str(&mut s, "_ |");
        let ghost start = s@;
        let mut k: usize = 0;
        while k < 16
            invariant
                k <= 16,
                h < 16,
                mem@.len() == 256,
                cells == mem@.subrange(16 * h as int, 16 * h + 16),
                s@ == start + hex_cells(cells.subrange(0, k as int)),
            decreases 16 - k,
        {
            let b = mem[16 * h as usize + k];
            assert(cells.subrange(0, k + 1).drop_last() =~= cells.subrange(0, k as int));
            push_char(&mut s, ' ');
            push_char(&mut s, hex_char(b / 16));
            push_char(&mut s, hex_char(b % 16));
            k = k + 1;
        }
        append_str(&mut s, " |");
        let ghost mid = s@;
        let mut k: usize = 0;
        while k < 16
            invariant
                k <= 16,
                h < 16,
                mem@.len() == 256,
                cells == mem@.subrange(16 * h as int, 16 * h + 16),
                s@ == mid + cells.subrange(0, k as int).map_values(|b: u8| shown(b)),
            decreases 16 - k,
        {
            let b = mem[16 * h as usize + k];
            assert(cells.subrange(0, k + 1).map_values(|b: u8| shown(b)) =~= cells.subrange(0, k as int).map_values(|b: u8| shown(b)).push(shown(b)));
            push_char(&mut s, shown_char(b));
            k = k + 1;
        }
        append_str(&mut s, "|\n");
        proof {
            reveal_strlit("| 0x");
            reveal_strlit("_ |");
            reveal_strlit(" |");
            reveal_strlit("|\n");
            assert(cells.subrange(0, 16) =~= cells);
            assert(s@ =~= before + row(h as int, cells));
        }
        h = h + 1;
    }
    s
}


/// The hex column of `cells` has three characters per byte: a space, then
/// the byte's high and low digit.
proof fn lemma_hex_cells(cells: Seq<u8>)
    ensures
        hex_cells(cells).len() == 3 * cells.len(),
        forall|j: int| 0 <= j < cells.len() ==> {
            &&& #[trigger] hex_cells(cells)[3 * j] == ' '
            &&& hex_cells(cells)[3 * j + 1] == hex_digit((cells[j] / 16) as int)
            &&& hex_cells(cells)[3 * j + 2] == hex_digit((cells[j] % 16) as int)
        },
    decreases cells.len(),
{
    if cells.len() > 0 {
        let init = cells.drop_last();
        lemma_hex_cells(init);
        assert forall|j: int| 0 <= j < cells.len() implies {
            &&& #[trigger] hex_cells(cells)[3 * j] == ' '
            &&& hex_cells(cells)[3 * j + 1] == hex_digit((cells[j] / 16) as int)
            &&& hex_cells(cells)[3 * j + 2] == hex_digit((cells[j] % 16) as int)
        } by {
            if j < init.len() {
                assert(init[j] == cells[j]);
                assert(hex_cells(init)[3 * j] == ' ');
            }
        }
    }
}

/// A row of sixteen bytes is 76 characters long: the row label in the first
/// eight, the hex column from 8 on and the character column from 58 on.
proof fn lemma_row(h: int, cells: Seq<u8>)
    requires
        cells.len() == 16,
    ensures
        row(h, cells).len() == 76,
        forall|k: int| 0 <= k < 16 ==> #[trigger] row(h, cells)[58 + k] == shown(cells[k]),
        forall|k: int| 0 <= k < 16 ==> {
            &&& #[trigger] row(h, cells)[8 + 3 * k] == ' '
            &&& row(h, cells)[8 + 3 * k + 1] == hex_digit((cells[k] / 16) as int)
            &&& row(h, cells)[8 + 3 * k + 2] == hex_digit((cells[k] % 16) as int)
        },
{
    reveal_strlit("| 0x");
    reveal_strlit("_ |");
    reveal_strlit(" |");
    reveal_strlit("|\n");
    lemma_hex_cells(cells);
    let a = "| 0x"@ + seq![hex_digit(h)] + "_ |"@;
    let b = hex_cells(cells);
    let c = " |"@;
    let d = cells.map_values(|x: u8| shown(x));
    let e = "|\n"@;
    assert(a.len() == 8);
    assert(row(h, cells) == a + b + c + d + e);
    assert forall|k: int| 0 <= k < 16 implies #[trigger] row(h, cells)[58 + k] == shown(cells[k]) by {
        assert((a + b + c + d + e)[58 + k] == d[k]);
    }
    assert forall|k: int| 0 <= k < 16 implies {
        &&& #[trigger] row(h, cells)[8 + 3 * k] == ' '
        &&& row(h, cells)[8 + 3 * k + 1] == hex_digit((cells[k] / 16) as int)
        &&& row(h, cells)[8 + 3 * k + 2] == hex_digit((cells[k] % 16) as int)
    } by {
        assert((a + b + c + d + e)[8 + 3 * k] == b[3 * k]);
        assert((a + b + c + d + e)[8 + 3 * k + 1] == b[3 * k + 1]);
        assert((a + b + c + d + e)[8 + 3 * k + 2] == b[3 * k + 2]);
    }
}

/// The first `n` rows are 76 characters each, row `h` from `76 * h` on.
proof fn lemma_rows(mem: Seq<u8>, n: nat)
    requires
        mem.len() == 256,
        n <= 16,
    ensures
        rows(mem, n).len() == 76 * n,
        forall|h: int, i: int| 0 <= h < n && 0 <= i < 76 ==> #[trigger] rows(mem, n)[76 * h + i] == row(
            h,
            mem.subrange(16 * h, 16 * h + 16),
        )[i],
    decreases n,
{
    if n > 0 {
        let m: int = n - 1;
        lemma_rows(mem, m as nat);
        let last = row(m, mem.subrange(16 * m, 16 * m + 16));
        lemma_row(m, mem.subrange(16 * m, 16 * m + 16));
        assert(rows(mem, n) == rows(mem, m as nat) + last);
        assert forall|h: int, i: int| 0 <= h < n && 0 <= i < 76 implies #[trigger] rows(mem, n)[76 * h + i] == row(
            h,
            mem.subrange(16 * h, 16 * h + 16),
        )[i] by {
            if h < m {
                assert(rows(mem, m as nat)[76 * h + i] == row(h, mem.subrange(16 * h, 16 * h + 16))[i]);
            } else {
                assert(rows(mem, n)[76 * h + i] == last[i]);
            }
        }
    }
}

/// In the table of the registers `mem`, after the two header lines (114
/// characters), row `h` takes 76 characters. Its character column shows the
/// register `16 * h + k` as the byte itself where that is printable ASCII
/// (0x20 to 0x7E), and as a dot otherwise; its hex column shows the same
/// register as a space and its two upper-case hex digits.
pub proof fn lemma_pretty_cells(mem: Seq<u8>, h: int, k: int)
    requires
        mem.len() == 256,
        0 <= h < 16,
        0 <= k < 16,
    ensures
        pretty(mem).len() == 114 + 16 * 76,
        pretty(mem)[114 + 76 * h + 58 + k] == (if 0x20 <= mem[16 * h + k] <= 0x7E {
            mem[16 * h + k] as char
        } else {
            '.'
        }),
        pretty(mem)[114 + 76 * h + 8 + 3 * k] == ' ',
        pretty(mem)[114 + 76 * h + 8 + 3 * k + 1] == "0123456789ABCDEF"@[(mem[16 * h + k] / 16) as int],
        pretty(mem)[114 + 76 * h + 8 + 3 * k + 2] == "0123456789ABCDEF"@[(mem[16 * h + k] % 16) as int],
{
    reveal_strlit("|      | _0 _1 _2 _3 _4 _5 _6 _7 _8 _9 _A _B _C _D _E _F\n|------+------------------------------------------------\n");
    reveal_strlit("0123456789ABCDEF");
    lemma_rows(mem, 16);
    let cells = mem.subrange(16 * h, 16 * h + 16);
    lemma_row(h, cells);
    assert(header().len() == 114);
    assert(pretty(mem)[114 + 76 * h + 58 + k] == rows(mem, 16)[76 * h + (58 + k)]);
    assert(rows(mem, 16)[76 * h + (58 + k)] == row(h, cells)[58 + k]);
    assert(pretty(mem)[114 + 76 * h + 8 + 3 * k] == rows(mem, 16)[76 * h + (8 + 3 * k)]);
    assert(rows(mem, 16)[76 * h + (8 + 3 * k)] == row(h, cells)[8 + 3 * k]);
    assert(pretty(mem)[114 + 76 * h + 8 + 3 * k + 1] == rows(mem, 16)[76 * h + (8 + 3 * k + 1)]);
    assert(rows(mem, 16)[76 * h + (8 + 3 * k + 1)] == row(h, cells)[8 + 3 * k + 1]);
    assert(pretty(mem)[114 + 76 * h + 8 + 3 * k + 2] == rows(mem, 16)[76 * h + (8 + 3 * k + 2)]);
    assert(rows(mem, 16)[76 * h + (8 + 3 * k + 2)] == row(h, cells)[8 + 3 * k + 2]);
    assert(cells[k] == mem[16 * h + k]);
    lemma_hex_digit(cells[k] / 16);
    lemma_hex_digit(cells[k] % 16);
}

/// `hex_digit` gives the upper-case hex digits.
proof fn lemma_hex_digit(n: u8)
    requires
        n < 16,
    ensures
        hex_digit(n as int) == "0123456789ABCDEF"@[n as int],
{
    reveal_strlit("0123456789ABCDEF");
    assert(hex_digit(n as int) == "0123456789ABCDEF"@[n as int]) by {
        if n == 0 { assert((48int) as char == '0'); }
        else if n == 1 { assert((49int) as char == '1'); }
        else if n == 2 { assert((50int) as char == '2'); }
        else if n == 3 { assert((51int) as char == '3'); }
        else if n == 4 { assert((52int) as char == '4'); }
        else if n == 5 { assert((53int) as char == '5'); }
        else if n == 6 { assert((54int) as char == '6'); }
        else if n == 7 { assert((55int) as char == '7'); }
        else if n == 8 { assert((56int) as char == '8'); }
        else if n == 9 { assert((57int) as char == '9'); }
        else if n == 10 { assert((65int) as char == 'A'); }
        else if n == 11 { assert((66int) as char == 'B'); }
        else if n == 12 { assert((67int) as char == 'C'); }
        else if n == 13 { assert((68int) as char == 'D'); }
        else if n == 14 { assert((69int) as char == 'E'); }
        else { assert((70int) as char == 'F'); }
    }
}

} // verus!
