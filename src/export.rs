use vstd::prelude::*;
use crate::tile::{ChunkType, code_of, is_passthrough};
use crate::world::{COLS, ROWS, CELLS};

verus! {

/// The ASCII code of the digit 0.
pub const ASCII_ZERO: u8 = 48;
/// The ASCII code of a line feed.
pub const NEWLINE: u8 = 10;

/// The character of a tile in a map file: its code as one ASCII digit.
pub open spec fn digit_of(t: ChunkType) -> u8 {
    (ASCII_ZERO + code_of(t)) as u8
}

/// Row `r` of a layer: one digit per cell, then a line feed.
pub open spec fn row_text(cells: Seq<ChunkType>, r: int) -> Seq<u8> {
    Seq::new(COLS as nat, |c: int| digit_of(cells[r * COLS + c])).push(NEWLINE)
}

/// The first `n` rows of a layer, top to bottom.
pub open spec fn rows_text(cells: Seq<ChunkType>, n: nat) -> Seq<u8>
    decreases n,
{
    if n == 0 {
        Seq::empty()
    } else {
        rows_text(cells, (n - 1) as nat) + row_text(cells, n - 1)
    }
}

/// A whole layer as a map file.
pub open spec fn layer_text_of(cells: Seq<ChunkType>) -> Seq<u8> {
    rows_text(cells, ROWS as nat)
}

/// The background as it is saved: Air wherever the foreground occludes it.
pub open spec fn shown_background(fg: Seq<ChunkType>, bg: Seq<ChunkType>) -> Seq<ChunkType> {
    Seq::new(bg.len(), |i: int| if is_passthrough(fg[i]) { bg[i] } else { ChunkType::Air })
}

/// The decimal digits of `n`, most significant first.
pub open spec fn decimal(n: nat) -> Seq<u8>
    decreases n,
{
    if n < 10 {
        seq![(ASCII_ZERO + n) as u8]
    } else {
        decimal(n / 10).push((ASCII_ZERO + n % 10) as u8)
    }
}

/// The text before the x field of the spawn record: `{`, a line feed, a tab, `"x": `.
pub open spec fn json_head() -> Seq<u8> {
    seq![123, 10, 9, 34, 120, 34, 58, 32]
}

/// The text between the x and the y fields: `,`, a line feed, a tab, `"y": `.
pub open spec fn json_middle() -> Seq<u8> {
    seq![44, 10, 9, 34, 121, 34, 58, 32]
}

/// The text after the y field: `,`, a line feed, a tab, `"depth": 750`, a line
/// feed, `}`, a line feed.
pub open spec fn json_tail() -> Seq<u8> {
    seq![
        44, 10, 9, 34, 100, 101, 112, 116, 104, 34, 58, 32, 55, 53,
        48, 10, 125, 10,
    ]
}

/// The spawn record for column `x` and row `y`.
pub open spec fn json_text(x: nat, y: nat) -> Seq<u8> {
    json_head() + decimal(x) + json_middle() + decimal(y) + json_tail()
}

/// The map file of a layer: one line per row, one digit per cell.
pub fn layer_text(cells: &Vec<ChunkType>) -> (r: Vec<u8>)
    requires
        cells@.len() == CELLS,
    ensures
        r@ == layer_text_of(cells@),
{
    let mut out: Vec<u8> = Vec::new();
    let mut r: usize = 0;
    while r < ROWS
        invariant
            cells@.len() == CELLS,
            r <= ROWS,
            out@ == rows_text(cells@, r as nat),
        decreases ROWS - r,
    {
        let mut c: usize = 0;
        while c < COLS
            invariant
                cells@.len() == CELLS,
                r < ROWS,
                c <= COLS,
                out@ == rows_text(cells@, r as nat) + Seq::new(
                    c as nat,
                    |j: int| digit_of(cells@[r * COLS + j]),
                ),
            decreases COLS - c,
        {
            assert(r * COLS + c < CELLS) by (nonlinear_arith)
                requires
                    r < ROWS,
                    c < COLS,
            ;
            let code = cells[r * COLS + c].code();
            out.push(ASCII_ZERO + code);
            assert(out@ =~= rows_text(cells@, r as nat) + Seq::new(
                (c + 1) as nat,
                |j: int| digit_of(cells@[r * COLS + j]),
            ));
            c = c + 1;
        }
        out.push(NEWLINE);
        assert(out@ =~= rows_text(cells@, (r + 1) as nat));
        r = r + 1;
    }
    out
}

/// The background cells with Air wherever the foreground occludes them.
pub fn shown_cells(fg: &Vec<ChunkType>, bg: &Vec<ChunkType>) -> (r: Vec<ChunkType>)
    requires
        fg@.len() == bg@.len(),
    ensures
        r@ == shown_background(fg@, bg@),
{
    let mut out: Vec<ChunkType> = Vec::new();
    let mut i: usize = 0;
    while i < bg.len()
        invariant
            fg@.len() == bg@.len(),
            i <= bg@.len(),
            out@ == shown_background(fg@, bg@).subrange(0, i as int),
        decreases bg@.len() - i,
    {
        if fg[i].is_passthrough() {
            out.push(bg[i]);
        } else {
            out.push(ChunkType::Air);
        }
        assert(out@ =~= shown_background(fg@, bg@).subrange(0, i + 1));
        i = i + 1;
    }
    assert(out@ =~= shown_background(fg@, bg@));
    out
}

/// Appends the decimal digits of `n`.
fn push_decimal(out: &mut Vec<u8>, n: usize)
    ensures
        final(out)@ == old(out)@ + decimal(n as nat),
    decreases n,
{
    if n >= 10 {
        push_decimal(out, n / 10);
    }
    out.push(ASCII_ZERO + (n % 10) as u8);
    assert(final(out)@ =~= old(out)@ + decimal(n as nat));
}

/// The spawn record: the spawn column as x, its row as y, and depth 750.
pub fn spawn_json(x: usize, y: usize) -> (r: Vec<u8>)
    ensures
        r@ == json_text(x as nat, y as nat),
{
    let mut out: Vec<u8> = vec![123, 10, 9, 34, 120, 34, 58, 32];
    push_decimal(&mut out, x);
    let mut middle: Vec<u8> = vec![44, 10, 9, 34, 121, 34, 58, 32];
    out.append(&mut middle);
    push_decimal(&mut out, y);
    let mut tail: Vec<u8> = vec![
        44, 10, 9, 34, 100, 101, 112, 116, 104, 34, 58, 32, 55, 53,
        48, 10, 125, 10,
    ];
    out.append(&mut tail);
    assert(out@ =~= json_text(x as nat, y as nat));
    out
}

} // verus!

verus! {

/// A map file of `n` rows in which every cell is Air.
pub open spec fn blank_rows(n: nat) -> Seq<u8>
    decreases n,
{
    if n == 0 {
        Seq::empty()
    } else {
        blank_rows((n - 1) as nat) + Seq::new(COLS as nat, |c: int| ASCII_ZERO).push(NEWLINE)
    }
}

proof fn lemma_rows_of_air(cells: Seq<ChunkType>, n: nat)
    requires
        n <= ROWS,
        cells.len() == CELLS,
        forall|i: int| 0 <= i < CELLS ==> cells[i] == ChunkType::Air,
    ensures
        rows_text(cells, n) == blank_rows(n),
    decreases n,
{
    if n > 0 {
        lemma_rows_of_air(cells, (n - 1) as nat);
        let r = n - 1;
        let digits = Seq::new(COLS as nat, |c: int| digit_of(cells[r * COLS + c]));
        assert forall|c: int| 0 <= c < COLS implies #[trigger] digits[c] == ASCII_ZERO by {
            assert(0 <= r * COLS + c < CELLS) by (nonlinear_arith)
                requires
                    0 <= r < ROWS,
                    0 <= c < COLS,
            ;
        }
        assert(row_text(cells, r) =~= Seq::new(COLS as nat, |c: int| ASCII_ZERO).push(NEWLINE));
    }
}

/// Exporting a world whose cells are all Air and whose spawn is at (0, 0) gives
/// map files of one line of zeros per row, and the record with x 0, y 0 and
/// depth 750.
pub proof fn lemma_blank_export(fg: Seq<ChunkType>, bg: Seq<ChunkType>)
    requires
        fg.len() == CELLS,
        bg.len() == CELLS,
        forall|i: int| 0 <= i < CELLS ==> fg[i] == ChunkType::Air,
        forall|i: int| 0 <= i < CELLS ==> bg[i] == ChunkType::Air,
    ensures
        layer_text_of(fg) == blank_rows(ROWS as nat),
        layer_text_of(shown_background(fg, bg)) == blank_rows(ROWS as nat),
        json_text(0, 0) == seq![
            123u8, 10, 9, 34, 120, 34, 58, 32, 48, 44, 10, 9, 34, 121, 34, 58, 32, 48, 44, 10, 9,
            34, 100, 101, 112, 116, 104, 34, 58, 32, 55, 53, 48, 10, 125, 10,
        ],
{
    lemma_rows_of_air(fg, ROWS as nat);
    lemma_rows_of_air(shown_background(fg, bg), ROWS as nat);
    assert(decimal(0) =~= seq![48u8]);
    assert(json_text(0, 0) =~= seq![
        123u8, 10, 9, 34, 120, 34, 58, 32, 48, 44, 10, 9, 34, 121, 34, 58, 32, 48, 44, 10, 9,
        34, 100, 101, 112, 116, 104, 34, 58, 32, 55, 53, 48, 10, 125, 10,
    ]);
}

} // verus!
