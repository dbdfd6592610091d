//! Console rendering of a QR code for the login URL: the module grid comes
//! from the QR encoder, the character grid that is printed is built here.

use vstd::prelude::*;

verus! {

/// The module grid that `qrcodegen::QrCode::encode_text` produces for a
/// text at the low error-correction level, row by row, `None` when the text
/// cannot be encoded: a function of the text alone.
pub uninterp spec fn qr_modules_of(text: Seq<u8>) -> Option<Seq<Seq<bool>>>;

/// Relies on `qrcodegen::QrCode::encode_text` (low error correction) for
/// the module grid; encoding fails only on texts that are too long or not
/// UTF-8, and a produced grid is square.
#[verifier::external_body]
fn qr_module_grid(text: &[u8]) -> (r: Option<Vec<Vec<bool>>>)
    ensures
        match r {
            Some(g) => {
                &&& qr_modules_of(text@) matches Some(m) && g@.len() == m.len() && (forall|
                    i: int,
                |
                    0 <= i < g@.len() ==> (#[trigger] g@[i])@ == m[i])
            },
            None => qr_modules_of(text@) is None,
        },
{
    let t = match std::str::from_utf8(text) {
        Ok(t) => t,
        Err(_) => return None,
    };
    match qrcodegen::QrCode::encode_text(t, qrcodegen::QrCodeEcc::Low) {
        Ok(qr) => Some(
            (0..qr.size())
                .map(|y| (0..qr.size()).map(|x| qr.get_module(x, y)).collect())
                .collect(),
        ),
        Err(_) => None,
    }
}

/// The two console characters of one module: a full block doubled for a
/// dark module (UTF-8 `e2 96 88`, twice), two spaces for a light one.
pub open spec fn spec_qr_cell(b: bool) -> Seq<u8> {
    if b {
        seq![0xe2u8, 0x96u8, 0x88u8, 0xe2u8, 0x96u8, 0x88u8]
    } else {
        seq![0x20u8, 0x20u8]
    }
}

/// The cells of the first `j` modules of a row.
pub open spec fn spec_qr_row_prefix(row: Seq<bool>, j: int) -> Seq<u8>
    recommends
        0 <= j <= row.len(),
    decreases j,
{
    if j <= 0 {
        Seq::empty()
    } else {
        spec_qr_row_prefix(row, j - 1) + spec_qr_cell(row[j - 1])
    }
}

/// One rendered row: a leading space, the cells, a newline.
pub open spec fn spec_qr_row(row: Seq<bool>) -> Seq<u8> {
    seq![0x20u8] + spec_qr_row_prefix(row, row.len() as int) + seq![0x0au8]
}

/// The first `i` rendered rows.
pub open spec fn spec_qr_rows_prefix(grid: Seq<Seq<bool>>, i: int) -> Seq<u8>
    recommends
        0 <= i <= grid.len(),
    decreases i,
{
    if i <= 0 {
        Seq::empty()
    } else {
        spec_qr_rows_prefix(grid, i - 1) + spec_qr_row(grid[i - 1])
    }
}

/// The whole rendering: an empty line, the rows, an empty line.
pub open spec fn spec_qr_text(grid: Seq<Seq<bool>>) -> Seq<u8> {
    seq![0x0au8] + spec_qr_rows_prefix(grid, grid.len() as int) + seq![0x0au8]
}

/// Render a module grid as console text.
fn render_qr(grid: &Vec<Vec<bool>>) -> (r: Vec<u8>)
    ensures
        r@ == spec_qr_text(grid@.map_values(|row: Vec<bool>| row@)),
{
    let ghost gv = grid@.map_values(|row: Vec<bool>| row@);
    let mut out: Vec<u8> = Vec::new();
    out.push(0x0a);
    let n = grid.len();
    let mut i: usize = 0;
    while i < n
        invariant
            n == grid@.len(),
            gv == grid@.map_values(|row: Vec<bool>| row@),
            n == gv.len(),
            0 <= i <= n,
            out@ == seq![0x0au8] + spec_qr_rows_prefix(gv, i as int),
        decreases n - i,
    {
        proof {
            assert(gv[i as int] == grid@[i as int]@);
        }
        out.push(0x20);
        let row = &grid[i];
        let m = row.len();
        let mut j: usize = 0;
        while j < m
            invariant
                m == row@.len(),
                0 <= j <= m,
                out@ == seq![0x0au8] + spec_qr_rows_prefix(gv, i as int) + seq![0x20u8]
                    + spec_qr_row_prefix(row@, j as int),
            decreases m - j,
        {
            if row[j] {
                out.push(0xe2);
                out.push(0x96);
                out.push(0x88);
                out.push(0xe2);
                out.push(0x96);
                out.push(0x88);
            } else {
                out.push(0x20);
                out.push(0x20);
            }
            proof {
                assert(out@ =~= seq![0x0au8] + spec_qr_rows_prefix(gv, i as int) + seq![0x20u8]
                    + spec_qr_row_prefix(row@, j + 1));
            }
            j += 1;
        }
        out.push(0x0a);
        proof {
            assert(gv[i as int] == row@);
            assert(out@ =~= seq![0x0au8] + spec_qr_rows_prefix(gv, i + 1));
        }
        i += 1;
    }
    out.push(0x0a);
    proof {
        assert(out@ =~= spec_qr_text(gv));
    }
    out
}

/// The console rendering of the QR code for a text, `None` when the text
/// cannot be encoded.
pub fn qr_text(text: &[u8]) -> (r: Option<Vec<u8>>)
    ensures
        match qr_modules_of(text@) {
            Some(m) => r matches Some(t) && t@ == spec_qr_text(m),
            None => r is None,
        },
{
    match qr_module_grid(text) {
        Some(grid) => {
            let t = render_qr(&grid);
            proof {
                assert(grid@.map_values(|row: Vec<bool>| row@) =~= qr_modules_of(
                    text@,
                ).unwrap());
            }
            Some(t)
        },
        None => None,
    }
}

} // verus!
