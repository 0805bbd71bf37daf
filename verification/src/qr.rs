//! QR codes for the terminal. Each character shows two modules, one above the other.
use vstd::prelude::*;

verus! {

/// The modules of a QR code, row by row.
#[derive(Debug, PartialEq, Eq)]
pub struct QrModules {
    pub width: usize,
    /// Whether a module is dark.
    pub dark: Vec<bool>,
}

/// The width and the modules of the smallest QR code for a text, at the lowest level of
/// error correction, if the text is not too long.
pub uninterp spec fn qr_code(data: Seq<char>) -> Option<(nat, Seq<bool>)>;

/// Calls `QrCode::with_error_correction_level` with the level `L`, and hands out the width
/// and the colors of the code that comes back. It is a function of the text. The code is a
/// square, of 21 to 177 modules on a side. There is none for a text that is too long.
#[verifier::external_body]
fn encode_qr(data: &str) -> (code: Option<QrModules>)
    ensures
        match code {
            Some(code) => {
                &&& qr_code(data@) == Some((code.width as nat, code.dark@))
                &&& 21 <= code.width <= 177
                &&& code.dark@.len() == code.width * code.width
            },
            None => qr_code(data@) is None,
        },
{
    let code = qrcode::QrCode::with_error_correction_level(data.as_bytes(), qrcode::EcLevel::L);
    let code = code.ok()?;
    let width = code.width();
    let colors = code.into_colors();
    let dark = colors.into_iter().map(|color| color.select(true, false)).collect();
    Some(QrModules { width, dark })
}

/// The character for two modules.
pub open spec fn cell(top_dark: bool, bottom_dark: bool) -> char {
    if top_dark && bottom_dark {
        '\u{2588}'
    } else if top_dark {
        '\u{2580}'
    } else if bottom_dark {
        '\u{2584}'
    } else {
        ' '
    }
}

/// The number of rows of a code.
pub open spec fn rows(width: nat, dark: Seq<bool>) -> nat {
    dark.len() / width
}

/// The module in a row and a column is dark. Below the last row there is none.
pub open spec fn is_dark(width: nat, dark: Seq<bool>, row: nat, col: nat) -> bool {
    row < rows(width, dark) && dark[(row * width + col) as int]
}

/// The line for a row and the one below it: a margin, the cells, and the end of the line.
pub open spec fn line(width: nat, dark: Seq<bool>, row: nat) -> Seq<char> {
    seq![' '] + Seq::new(
        width,
        |col: int|
            cell(
                is_dark(width, dark, row, col as nat),
                is_dark(width, dark, row + 1, col as nat),
            ),
    ) + seq!['\n']
}

/// The lines from a row on.
pub open spec fn lines(width: nat, dark: Seq<bool>, row: nat) -> Seq<char>
    decreases rows(width, dark) + 2 - row,
{
    if row < rows(width, dark) {
        line(width, dark, row) + lines(width, dark, row + 2)
    } else {
        Seq::empty()
    }
}

fn module_is_dark(code: &QrModules, total_rows: usize, row: usize, col: usize) -> (yes: bool)
    requires
        code.width > 0,
        total_rows == rows(code.width as nat, code.dark@),
        col < code.width,
    ensures
        yes == is_dark(code.width as nat, code.dark@, row as nat, col as nat),
{
    if row < total_rows {
        proof {
            let len = code.dark.len() as int;
            assert(row * code.width + code.width <= len) by (nonlinear_arith)
                requires
                    code.width > 0,
                    len >= 0,
                    row + 1 <= total_rows,
                    total_rows as int == len / (code.width as int),
            ;
            assert(0 <= row * code.width) by (nonlinear_arith);
        }
        code.dark[row * code.width + col]
    } else {
        false
    }
}

/// Shows a QR code, two rows in a line.
pub fn render_modules(code: &QrModules) -> (output: String)
    requires
        code.width > 0,
        code.dark@.len() < usize::MAX,
    ensures
        output@ == lines(code.width as nat, code.dark@, 0),
{
    let width: usize = code.width;
    let total_rows: usize = code.dark.len() / width;
    let ghost w = width as nat;
    let mut output = String::new();
    assert(output@ =~= Seq::<char>::empty());
    proof {
        assert(code.dark@.len() as int / width as int <= code.dark@.len()) by (nonlinear_arith)
            requires
                width > 0,
        ;
    }
    assert(output@ + lines(w, code.dark@, 0) =~= lines(w, code.dark@, 0));
    let mut row: usize = 0;
    while row < total_rows
        invariant
            width == code.width,
            width > 0,
            w == width as nat,
            total_rows == rows(w, code.dark@),
            total_rows < usize::MAX,
            output@ + lines(w, code.dark@, row as nat) == lines(w, code.dark@, 0),
        decreases total_rows + 2 - row,
    {
        let ghost before = output@;
        output.push(' ');
        let mut col: usize = 0;
        while col < width
            invariant
                width == code.width,
                width > 0,
                w == width as nat,
                total_rows == rows(w, code.dark@),
                total_rows < usize::MAX,
                row < total_rows,
                col <= width,
                output@ == before + line(w, code.dark@, row as nat).subrange(0, 1 + col),
            decreases width - col,
        {
            let top_dark = module_is_dark(code, total_rows, row, col);
            let bottom_dark = module_is_dark(code, total_rows, row + 1, col);
            let ch = match (top_dark, bottom_dark) {
                (true, true) => '\u{2588}',
                (true, false) => '\u{2580}',
                (false, true) => '\u{2584}',
                (false, false) => ' ',
            };
            output.push(ch);
            proof {
                let all = line(w, code.dark@, row as nat);
                assert(all[1 + col] == ch);
                assert(all.subrange(0, 2 + col) =~= all.subrange(0, 1 + col).push(ch));
                assert(output@ =~= before + all.subrange(0, 2 + col));
            }
            col = col + 1;
        }
        output.push('\n');
        proof {
            let all = line(w, code.dark@, row as nat);
            let rest = lines(w, code.dark@, (row + 2) as nat);
            assert(all.subrange(0, 2 + width) =~= all);
            assert(all.subrange(0, 1 + width).push('\n') =~= all);
            assert(output@ =~= before + all);
            assert(lines(w, code.dark@, row as nat) == all + rest);
            assert(output@ + rest =~= before + (all + rest));
        }
        row = row + 2;
    }
    assert(output@ =~= output@ + lines(w, code.dark@, row as nat));
    output
}

/// Shows a text as a QR code, if it is not too long for one.
pub fn render_to_terminal(data: &str) -> (output: Option<String>)
    ensures
        match (qr_code(data@), output) {
            (Some((width, dark)), Some(output)) => output@ == lines(width, dark, 0),
            (None, None) => true,
            _ => false,
        },
{
    match encode_qr(data) {
        Some(code) => {
            proof {
                assert(code.width * code.width <= 177 * 177) by (nonlinear_arith)
                    requires
                        code.width <= 177,
                ;
            }
            Some(render_modules(&code))
        },
        None => None,
    }
}

/// Different pairs of modules are shown by different characters, so that the code can be
/// read off.
pub proof fn law_cells_differ(a: bool, b: bool, c: bool, d: bool)
    requires
        cell(a, b) == cell(c, d),
    ensures
        a == c,
        b == d,
{
}

/// Every line has a margin, one character for each column, and the end of the line.
pub proof fn law_lines_have_equal_length(width: nat, dark: Seq<bool>, row: nat)
    ensures
        line(width, dark, row).len() == width + 2,
        line(width, dark, row)[0] == ' ',
        line(width, dark, row).last() == '\n',
{
}

/// A cell shows two modules, one above the other: a full block, a half, or a blank.
pub proof fn law_cells_show_two_modules()
    ensures
        cell(true, true) == '\u{2588}',
        cell(true, false) == '\u{2580}',
        cell(false, true) == '\u{2584}',
        cell(false, false) == ' ',
{
}

/// A line shows two rows of modules, column by column, behind a blank; the rows of a code of
/// so many modules are as many as full rows there are.
pub proof fn law_lines_show_two_rows(width: nat, dark: Seq<bool>, row: nat, col: nat)
    requires
        col < width,
    ensures
        line(width, dark, row)[1 + col as int] == cell(
            row < dark.len() / width && dark[(row * width + col) as int],
            row + 1 < dark.len() / width && dark[((row + 1) * width + col) as int],
        ),
        rows(width, dark) == dark.len() / width,
{
}

/// The lines of a code follow each other from its first row to its last, two rows at a time.
pub proof fn law_lines_follow_each_other(width: nat, dark: Seq<bool>, row: nat)
    ensures
        row < dark.len() / width ==> lines(width, dark, row) == line(width, dark, row) + lines(
            width,
            dark,
            row + 2,
        ),
        row >= dark.len() / width ==> lines(width, dark, row).len() == 0,
{
}

} // verus!
