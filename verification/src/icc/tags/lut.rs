//! LUT tag types (ICC.1:2022 sections 10.10 to 10.13): `mft1`, `mft2`, `mAB `, `mBA `.

use vstd::prelude::*;
use vstd::arithmetic::power::pow;
use crate::math::gamma::{parametric_curve_type_of, parametric_param_count};

use super::curves::{be_u16_table, read_u16_table};
use super::{corrupted, result_is, settles, SpecParse};
use crate::icc::bytes::{be_i32, be_u16, be_u32, read_i32_be, read_u16_be, read_u32_be};
use crate::icc::error::IccError;
use crate::icc::header::slice_range;
use crate::icc::types::S15Fixed16;
use crate::numfmt::{hex8, push_hex8};

verus! {

// ----------------------------------------------------------------------------------------------
// Shared pieces
// ----------------------------------------------------------------------------------------------

/// `g` to the power `n`, multiplied up from 1 one factor at a time.
pub open spec fn grid_pow(g: nat, n: nat) -> nat
    decreases n,
{
    if n == 0 {
        1
    } else {
        grid_pow(g, (n - 1) as nat) * g
    }
}

proof fn lemma_grid_pow_monotone(g: nat, k: nat, n: nat)
    requires
        g >= 1,
        k <= n,
    ensures
        grid_pow(g, k) <= grid_pow(g, n),
    decreases n,
{
    if k < n {
        lemma_grid_pow_monotone(g, k, (n - 1) as nat);
        let a = grid_pow(g, (n - 1) as nat);
        assert(a <= a * g) by (nonlinear_arith)
            requires
                g >= 1,
        ;
    }
}

/// `g` to the power `n`, or `None` when that exceeds `usize::MAX`.
fn checked_grid_pow(g: u8, n: u8) -> (r: Option<usize>)
    ensures
        match r {
            Some(v) => v == grid_pow(g as nat, n as nat),
            None => grid_pow(g as nat, n as nat) > usize::MAX,
        },
{
    let mut p: usize = 1;
    let mut k: u8 = 0;
    while k < n
        invariant
            k <= n,
            p == grid_pow(g as nat, k as nat),
        decreases n - k,
    {
        match p.checked_mul(g as usize) {
            Some(q) => {
                p = q;
            },
            None => {
                proof {
                    assert(grid_pow(g as nat, (k + 1) as nat) > usize::MAX);
                    assert(g >= 1) by (nonlinear_arith)
                        requires
                            p * g > usize::MAX,
                            p <= usize::MAX,
                    ;
                    lemma_grid_pow_monotone(g as nat, (k + 1) as nat, n as nat);
                }
                return None;
            },
        }
        k = k + 1;
    }
    Some(p)
}

/// The 3x3 s15Fixed16 matrix stored row by row from `data[base]`.
pub open spec fn matrix3_at(data: Seq<u8>, base: int) -> Seq<Seq<S15Fixed16>> {
    Seq::new(
        3,
        |r: int| Seq::new(3, |c: int| S15Fixed16(be_i32(data, base + 4 * (3 * r + c)))),
    )
}

/// The rows of a 3x3 matrix as sequences.
pub open spec fn matrix3_view(m: [[S15Fixed16; 3]; 3]) -> Seq<Seq<S15Fixed16>> {
    m@.map_values(|row: [S15Fixed16; 3]| row@)
}

fn read_row3(data: &[u8], base: usize) -> (r: [S15Fixed16; 3])
    requires
        base + 12 <= data@.len(),
    ensures
        r@ =~= Seq::new(3, |c: int| S15Fixed16(be_i32(data@, base + 4 * c))),
{
    let _len = data.len();
    [
        S15Fixed16(read_i32_be(data, base)),
        S15Fixed16(read_i32_be(data, base + 4)),
        S15Fixed16(read_i32_be(data, base + 8)),
    ]
}

/// Reads the 3x3 s15Fixed16 matrix stored row by row from `data[base]`.
pub fn read_matrix3(data: &[u8], base: usize) -> (r: [[S15Fixed16; 3]; 3])
    requires
        base + 36 <= data@.len(),
    ensures
        matrix3_view(r) == matrix3_at(data@, base as int),
{
    let _len = data.len();
    let m = [read_row3(data, base), read_row3(data, base + 12), read_row3(data, base + 24)];
    assert(matrix3_view(m) =~= matrix3_at(data@, base as int)) by {
        assert forall|r: int| 0 <= r < 3 implies matrix3_view(m)[r] =~= matrix3_at(
            data@,
            base as int,
        )[r] by {
            assert(m@[r]@ =~= Seq::new(
                3,
                |c: int| S15Fixed16(be_i32(data@, base + 12 * r + 4 * c)),
            ));
        }
    }
    m
}

/// Consecutive slices of `n` bytes each, `count` of them, starting at `data[start]`.
pub open spec fn byte_tables(data: Seq<u8>, start: int, count: nat, n: int) -> Seq<Seq<u8>> {
    Seq::new(count, |i: int| data.subrange(start + n * i, start + n * i + n))
}

/// Consecutive tables of `n` big-endian u16 each, `count` of them, starting at `data[start]`.
pub open spec fn u16_tables(data: Seq<u8>, start: int, count: nat, n: nat) -> Seq<Seq<u16>> {
    Seq::new(count, |i: int| be_u16_table(data, start + 2 * n * i, n))
}

fn read_byte_tables(data: &[u8], start: usize, count: usize) -> (r: Vec<Vec<u8>>)
    requires
        start + 256 * count <= data@.len(),
    ensures
        r@.len() == count,
        forall|i: int| 0 <= i < count ==> #[trigger] r@[i]@ == data@.subrange(
            start + 256 * i,
            start + 256 * i + 256,
        ),
{
    let len = data.len();
    let mut tables: Vec<Vec<u8>> = Vec::new();
    let mut i: usize = 0;
    while i < count
        invariant
            len == data@.len(),
            start + 256 * count <= len,
            i <= count,
            tables@.len() == i,
            forall|j: int| 0 <= j < i ==> #[trigger] tables@[j]@ == data@.subrange(
                start + 256 * j,
                start + 256 * j + 256,
            ),
        decreases count - i,
    {
        let s = start + 256 * i;
        let t = vstd::slice::slice_to_vec(slice_range(data, s, s + 256));
        tables.push(t);
        i = i + 1;
    }
    tables
}

fn read_u16_tables(data: &[u8], start: usize, count: usize, n: usize) -> (r: Vec<Vec<u16>>)
    requires
        start + 2 * n * count <= data@.len(),
    ensures
        r@.len() == count,
        forall|i: int| 0 <= i < count ==> #[trigger] r@[i]@ == be_u16_table(
            data@,
            start + 2 * n * i,
            n as nat,
        ),
{
    let len = data.len();
    let mut tables: Vec<Vec<u16>> = Vec::new();
    let mut i: usize = 0;
    while i < count
        invariant
            len == data@.len(),
            start + 2 * n * count <= len,
            i <= count,
            tables@.len() == i,
            forall|j: int| 0 <= j < i ==> #[trigger] tables@[j]@ == be_u16_table(
                data@,
                start + 2 * n * j,
                n as nat,
            ),
        decreases count - i,
    {
        assert(2 * n * i + 2 * n <= 2 * n * count) by (nonlinear_arith)
            requires
                i < count,
        ;
        let t = read_u16_table(data, start + 2 * n * i, n);
        tables.push(t);
        i = i + 1;
    }
    tables
}

// ----------------------------------------------------------------------------------------------
// mft1 (Lut8Type)
// ----------------------------------------------------------------------------------------------

/// 8-bit LUT data (mft1 / Lut8Type)
#[derive(Debug, Clone)]
pub struct Lut8Data {
    /// Number of input channels
    pub input_channels: u8,
    /// Number of output channels
    pub output_channels: u8,
    /// Number of CLUT grid points
    pub grid_points: u8,
    /// 3x3 matrix (stored row-major)
    pub matrix: [[S15Fixed16; 3]; 3],
    /// Input curves (one per input channel, 256 entries each)
    pub input_curves: Vec<Vec<u8>>,
    /// CLUT data
    pub clut: Vec<u8>,
    /// Output curves (one per output channel, 256 entries each)
    pub output_curves: Vec<Vec<u8>>,
}

/// The model of `mft1` data.
pub ghost struct Lut8Model {
    pub input_channels: u8,
    pub output_channels: u8,
    pub grid_points: u8,
    pub matrix: Seq<Seq<S15Fixed16>>,
    pub input_curves: Seq<Seq<u8>>,
    pub clut: Seq<u8>,
    pub output_curves: Seq<Seq<u8>>,
}

impl View for Lut8Data {
    type V = Lut8Model;

    open spec fn view(&self) -> Lut8Model {
        Lut8Model {
            input_channels: self.input_channels,
            output_channels: self.output_channels,
            grid_points: self.grid_points,
            matrix: matrix3_view(self.matrix),
            input_curves: self.input_curves@.map_values(|c: Vec<u8>| c@),
            clut: self.clut@,
            output_curves: self.output_curves@.map_values(|c: Vec<u8>| c@),
        }
    }
}

/// Parsing an `mft1` body: channel counts and grid size, a 3x3 matrix, then the input tables
/// (256 bytes per input channel), the CLUT (grid^inputs * outputs bytes) and the output
/// tables (256 bytes per output channel). It aborts where the CLUT size overflows `usize`.
pub open spec fn lut8_spec(data: Seq<u8>) -> SpecParse<Lut8Model> {
    if data.len() < 48 {
        SpecParse::Failed("Lut8 tag too small"@)
    } else {
        let i = data[0] as nat;
        let o = data[1] as nat;
        let g = data[2] as nat;
        let clut_offset = 40 + 256 * i;
        let p = grid_pow(g, i);
        let clut_size = p * o;
        let output_offset = clut_offset + clut_size;
        if data.len() < clut_offset {
            SpecParse::Failed("Lut8 input tables truncated"@)
        } else if p > usize::MAX || clut_size > usize::MAX || output_offset > usize::MAX {
            SpecParse::Aborted
        } else if data.len() < output_offset {
            SpecParse::Failed("Lut8 CLUT truncated"@)
        } else if data.len() < output_offset + 256 * o {
            SpecParse::Failed("Lut8 output tables truncated"@)
        } else {
            SpecParse::Parsed(
                Lut8Model {
                    input_channels: data[0],
                    output_channels: data[1],
                    grid_points: data[2],
                    matrix: matrix3_at(data, 4),
                    input_curves: byte_tables(data, 40, i, 256),
                    clut: data.subrange(clut_offset as int, output_offset as int),
                    output_curves: byte_tables(data, output_offset as int, o, 256),
                },
            )
        }
    }
}

/// The matrix is the identity: 1.0 on the diagonal and 0.0 elsewhere, within 1e-6 (which for
/// s15Fixed16 values means exactly).
pub open spec fn is_identity_matrix(m: Seq<Seq<S15Fixed16>>) -> bool {
    forall|r: int, c: int|
        0 <= r < 3 && 0 <= c < 3 ==> (#[trigger] m[r][c]).0 == (if r == c {
            65536int
        } else {
            0int
        })
}

impl Lut8Data {
    /// Parses `mft1` data; `None` where the parse aborts.
    pub fn parse_checked(data: &[u8]) -> (r: Option<Result<Self, IccError>>)
        ensures
            match r {
                None => lut8_spec(data@) is Aborted,
                Some(res) => result_is(res, lut8_spec(data@)),
            },
    {
        let len = data.len();
        if len < 48 {
            return Some(Err(corrupted("Lut8 tag too small")));
        }
        let input_channels = data[0];
        let output_channels = data[1];
        let grid_points = data[2];
        let matrix = read_matrix3(data, 4);
        let clut_offset: usize = 40 + 256 * (input_channels as usize);
        if len < clut_offset {
            return Some(Err(corrupted("Lut8 input tables truncated")));
        }
        let p = match checked_grid_pow(grid_points, input_channels) {
            Some(p) => p,
            None => return None,
        };
        let clut_size = match p.checked_mul(output_channels as usize) {
            Some(s) => s,
            None => return None,
        };
        let output_offset = match clut_offset.checked_add(clut_size) {
            Some(s) => s,
            None => return None,
        };
        if len < output_offset {
            return Some(Err(corrupted("Lut8 CLUT truncated")));
        }
        if len - output_offset < 256 * (output_channels as usize) {
            return Some(Err(corrupted("Lut8 output tables truncated")));
        }
        let input_curves = read_byte_tables(data, 40, input_channels as usize);
        let clut = vstd::slice::slice_to_vec(slice_range(data, clut_offset, output_offset));
        let output_curves = read_byte_tables(data, output_offset, output_channels as usize);
        let r = Lut8Data {
            input_channels,
            output_channels,
            grid_points,
            matrix,
            input_curves,
            clut,
            output_curves,
        };
        assert(r@.input_curves =~= byte_tables(data@, 40, input_channels as nat, 256));
        assert(r@.output_curves =~= byte_tables(
            data@,
            output_offset as int,
            output_channels as nat,
            256,
        ));
        Some(Ok(r))
    }

    /// Parses `mft1` data from the tag body (after type signature and reserved bytes).
    pub fn parse(data: &[u8]) -> (r: Result<Self, IccError>)
        ensures
            settles(r, lut8_spec(data@), "Lut8 CLUT size overflows"@),
    {
        match Lut8Data::parse_checked(data) {
            Some(r) => r,
            None => Err(corrupted("Lut8 CLUT size overflows")),
        }
    }

    /// Whether the matrix is the identity.
    pub fn matrix_is_identity(&self) -> (r: bool)
        ensures
            r == is_identity_matrix(matrix3_view(self.matrix)),
    {
        let mut row: usize = 0;
        while row < 3
            invariant
                row <= 3,
                forall|r: int, c: int|
                    0 <= r < row && 0 <= c < 3 ==> (#[trigger] matrix3_view(self.matrix)[r][c]).0
                        == (if r == c {
                        65536int
                    } else {
                        0int
                    }),
            decreases 3 - row,
        {
            let mut col: usize = 0;
            while col < 3
                invariant
                    row < 3,
                    col <= 3,
                    forall|r: int, c: int|
                        0 <= r < row && 0 <= c < 3 ==> (#[trigger] matrix3_view(
                            self.matrix,
                        )[r][c]).0 == (if r == c {
                            65536int
                        } else {
                            0int
                        }),
                    forall|c: int|
                        0 <= c < col ==> (#[trigger] matrix3_view(self.matrix)[row as int][c]).0
                            == (if row == c {
                            65536int
                        } else {
                            0int
                        }),
                decreases 3 - col,
            {
                let expected: i32 = if row == col {
                    65536
                } else {
                    0
                };
                assert(matrix3_view(self.matrix)[row as int][col as int] == self.matrix[row as int][col as int]);
                if self.matrix[row][col].0 != expected {
                    return false;
                }
                col = col + 1;
            }
            row = row + 1;
        }
        true
    }
}

// ----------------------------------------------------------------------------------------------
// mft2 (Lut16Type)
// ----------------------------------------------------------------------------------------------

/// 16-bit LUT data (mft2 / Lut16Type)
#[derive(Debug, Clone)]
pub struct Lut16Data {
    /// Number of input channels
    pub input_channels: u8,
    /// Number of output channels
    pub output_channels: u8,
    /// Number of CLUT grid points
    pub grid_points: u8,
    /// 3x3 matrix (stored row-major)
    pub matrix: [[S15Fixed16; 3]; 3],
    /// Number of input table entries
    pub input_entries: u16,
    /// Number of output table entries
    pub output_entries: u16,
    /// Input curves (one per input channel)
    pub input_curves: Vec<Vec<u16>>,
    /// CLUT data
    pub clut: Vec<u16>,
    /// Output curves (one per output channel)
    pub output_curves: Vec<Vec<u16>>,
}

/// The model of `mft2` data.
pub ghost struct Lut16Model {
    pub input_channels: u8,
    pub output_channels: u8,
    pub grid_points: u8,
    pub matrix: Seq<Seq<S15Fixed16>>,
    pub input_entries: u16,
    pub output_entries: u16,
    pub input_curves: Seq<Seq<u16>>,
    pub clut: Seq<u16>,
    pub output_curves: Seq<Seq<u16>>,
}

impl View for Lut16Data {
    type V = Lut16Model;

    open spec fn view(&self) -> Lut16Model {
        Lut16Model {
            input_channels: self.input_channels,
            output_channels: self.output_channels,
            grid_points: self.grid_points,
            matrix: matrix3_view(self.matrix),
            input_entries: self.input_entries,
            output_entries: self.output_entries,
            input_curves: self.input_curves@.map_values(|c: Vec<u16>| c@),
            clut: self.clut@,
            output_curves: self.output_curves@.map_values(|c: Vec<u16>| c@),
        }
    }
}

/// Parsing an `mft2` body: channel counts and grid size, a 3x3 matrix, the input and output
/// table sizes, then the input tables, the CLUT (grid^inputs * outputs u16 values) and the
/// output tables. It aborts where the CLUT size overflows `usize`.
pub open spec fn lut16_spec(data: Seq<u8>) -> SpecParse<Lut16Model> {
    if data.len() < 52 {
        SpecParse::Failed("Lut16 tag too small"@)
    } else {
        let i = data[0] as nat;
        let o = data[1] as nat;
        let g = data[2] as nat;
        let ie = be_u16(data, 40) as nat;
        let oe = be_u16(data, 42) as nat;
        let clut_offset = 44 + 2 * ie * i;
        let p = grid_pow(g, i);
        let clut_entries = p * o;
        let output_offset = clut_offset + 2 * clut_entries;
        if data.len() < clut_offset {
            SpecParse::Failed("Lut16 input tables truncated"@)
        } else if p > usize::MAX || clut_entries > usize::MAX || 2 * clut_entries > usize::MAX
            || output_offset > usize::MAX {
            SpecParse::Aborted
        } else if data.len() < output_offset {
            SpecParse::Failed("Lut16 CLUT truncated"@)
        } else if data.len() < output_offset + 2 * oe * o {
            SpecParse::Failed("Lut16 output tables truncated"@)
        } else {
            SpecParse::Parsed(
                Lut16Model {
                    input_channels: data[0],
                    output_channels: data[1],
                    grid_points: data[2],
                    matrix: matrix3_at(data, 4),
                    input_entries: be_u16(data, 40),
                    output_entries: be_u16(data, 42),
                    input_curves: u16_tables(data, 44, i, ie),
                    clut: be_u16_table(data, clut_offset as int, clut_entries),
                    output_curves: u16_tables(data, output_offset as int, o, oe),
                },
            )
        }
    }
}

impl Lut16Data {
    /// Parses `mft2` data; `None` where the parse aborts.
    pub fn parse_checked(data: &[u8]) -> (r: Option<Result<Self, IccError>>)
        ensures
            match r {
                None => lut16_spec(data@) is Aborted,
                Some(res) => result_is(res, lut16_spec(data@)),
            },
    {
        let len = data.len();
        if len < 52 {
            return Some(Err(corrupted("Lut16 tag too small")));
        }
        let input_channels = data[0];
        let output_channels = data[1];
        let grid_points = data[2];
        let matrix = read_matrix3(data, 4);
        let input_entries = read_u16_be(data, 40);
        let output_entries = read_u16_be(data, 42);
        assert(2 * (input_entries as nat) * (input_channels as nat) <= 2 * 65535 * 255)
            by (nonlinear_arith)
            requires
                input_entries <= 65535,
                input_channels <= 255,
        ;
        let input_table_size: usize = 2 * (input_entries as usize) * (input_channels as usize);
        let clut_offset: usize = 44 + input_table_size;
        if len < clut_offset {
            return Some(Err(corrupted("Lut16 input tables truncated")));
        }
        let p = match checked_grid_pow(grid_points, input_channels) {
            Some(p) => p,
            None => return None,
        };
        let clut_entries = match p.checked_mul(output_channels as usize) {
            Some(s) => s,
            None => return None,
        };
        let clut_size = match clut_entries.checked_mul(2) {
            Some(s) => s,
            None => return None,
        };
        let output_offset = match clut_offset.checked_add(clut_size) {
            Some(s) => s,
            None => return None,
        };
        if len < output_offset {
            return Some(Err(corrupted("Lut16 CLUT truncated")));
        }
        assert(2 * (output_entries as nat) * (output_channels as nat) <= 2 * 65535 * 255)
            by (nonlinear_arith)
            requires
                output_entries <= 65535,
                output_channels <= 255,
        ;
        let output_table_size: usize = 2 * (output_entries as usize) * (output_channels as usize);
        if len - output_offset < output_table_size {
            return Some(Err(corrupted("Lut16 output tables truncated")));
        }
        assert(2 * (input_entries as usize) * (input_channels as usize) == 2 * (
        input_entries as usize) * (input_channels as usize));
        let input_curves = read_u16_tables(
            data,
            44,
            input_channels as usize,
            input_entries as usize,
        );
        let clut = read_u16_table(data, clut_offset, clut_entries);
        let output_curves = read_u16_tables(
            data,
            output_offset,
            output_channels as usize,
            output_entries as usize,
        );
        let r = Lut16Data {
            input_channels,
            output_channels,
            grid_points,
            matrix,
            input_entries,
            output_entries,
            input_curves,
            clut,
            output_curves,
        };
        assert(r@.input_curves =~= u16_tables(
            data@,
            44,
            input_channels as nat,
            input_entries as nat,
        ));
        assert(r@.output_curves =~= u16_tables(
            data@,
            output_offset as int,
            output_channels as nat,
            output_entries as nat,
        ));
        Some(Ok(r))
    }

    /// Parses `mft2` data from the tag body (after type signature and reserved bytes).
    pub fn parse(data: &[u8]) -> (r: Result<Self, IccError>)
        ensures
            settles(r, lut16_spec(data@), "Lut16 CLUT size overflows"@),
    {
        match Lut16Data::parse_checked(data) {
            Some(r) => r,
            None => Err(corrupted("Lut16 CLUT size overflows")),
        }
    }
}


// ----------------------------------------------------------------------------------------------
// Elements of mAB / mBA
// ----------------------------------------------------------------------------------------------

/// Matrix element in LUT (3x3 + 3 offset), as s15Fixed16 numbers.
#[derive(Debug, Clone)]
pub struct LutMatrix {
    /// 3x3 matrix
    pub matrix: [[S15Fixed16; 3]; 3],
    /// 3 offset values
    pub offset: [S15Fixed16; 3],
}

/// The model of a LUT matrix element.
pub ghost struct LutMatrixModel {
    pub matrix: Seq<Seq<S15Fixed16>>,
    pub offset: Seq<S15Fixed16>,
}

impl View for LutMatrix {
    type V = LutMatrixModel;

    open spec fn view(&self) -> LutMatrixModel {
        LutMatrixModel { matrix: matrix3_view(self.matrix), offset: self.offset@ }
    }
}

/// Parsing a LUT matrix element: nine s15Fixed16 matrix entries, then three offsets.
pub open spec fn lut_matrix_spec(data: Seq<u8>) -> SpecParse<LutMatrixModel> {
    if data.len() < 48 {
        SpecParse::Failed("LUT matrix too small"@)
    } else {
        SpecParse::Parsed(
            LutMatrixModel {
                matrix: matrix3_at(data, 0),
                offset: Seq::new(3, |i: int| S15Fixed16(be_i32(data, 36 + 4 * i))),
            },
        )
    }
}

impl LutMatrix {
    /// Parses a LUT matrix element.
    pub fn parse(data: &[u8]) -> (r: Result<Self, IccError>)
        ensures
            result_is(r, lut_matrix_spec(data@)),
    {
        if data.len() < 48 {
            return Err(corrupted("LUT matrix too small"));
        }
        let matrix = read_matrix3(data, 0);
        let offset = read_row3(data, 36);
        Ok(LutMatrix { matrix, offset })
    }
}

/// CLUT element in LUT. Entries are held as read: a byte for precision 1, else a big-endian
/// u16 (normalising them to 0.0 to 1.0 divides by 255 or 65535).
#[derive(Debug, Clone)]
pub struct LutClut {
    /// Grid points per dimension (up to 16 dimensions supported by ICC)
    pub grid_points: Vec<u8>,
    /// Precision: 1 for u8, 2 for u16
    pub precision: u8,
    /// CLUT entries
    pub data: Vec<u16>,
    /// Number of output channels
    pub output_channels: u8,
}

/// The model of a CLUT element.
pub ghost struct ClutModel {
    pub grid_points: Seq<u8>,
    pub precision: u8,
    pub data: Seq<u16>,
    pub output_channels: u8,
}

impl View for LutClut {
    type V = ClutModel;

    open spec fn view(&self) -> ClutModel {
        ClutModel {
            grid_points: self.grid_points@,
            precision: self.precision,
            data: self.data@,
            output_channels: self.output_channels,
        }
    }
}

/// The product of the grid sizes, one factor at a time.
pub open spec fn grid_product(g: Seq<u8>) -> nat
    decreases g.len(),
{
    if g.len() == 0 {
        1
    } else {
        grid_product(g.drop_last()) * (g.last() as nat)
    }
}

/// Some running product of the grid sizes exceeds `usize::MAX`.
pub open spec fn grid_product_overflows(g: Seq<u8>) -> bool {
    exists|k: int| 0 <= k <= g.len() && #[trigger] grid_product(g.take(k)) > usize::MAX
}

/// CLUT entry `i`: the byte for precision 1, else the big-endian u16 at its place.
pub open spec fn clut_entry(data: Seq<u8>, precision: u8, i: int) -> u16 {
    if precision == 1 {
        data[20 + i] as u16
    } else {
        be_u16(data, 20 + i * precision)
    }
}

/// Parsing a CLUT element: grid sizes (16 bytes, one per input channel used), precision, three
/// reserved bytes, then grid-product * outputs entries of `precision` bytes. It aborts where a
/// grid size lies past the data, where the sizes overflow `usize`, and where precision 0
/// leaves fewer than 22 bytes to read entries from.
pub open spec fn lut_clut_spec(data: Seq<u8>, input_channels: u8, output_channels: u8) -> SpecParse<
    ClutModel,
> {
    if data.len() < 20 {
        SpecParse::Failed("LUT CLUT too small"@)
    } else if input_channels > data.len() {
        SpecParse::Aborted
    } else {
        let grid = data.take(input_channels as int);
        let precision = data[16];
        let total = (grid_product(grid) * output_channels) as nat;
        if grid_product_overflows(grid) || total > usize::MAX || total * precision > usize::MAX
            || 20 + total * precision > usize::MAX {
            SpecParse::Aborted
        } else if data.len() < 20 + total * precision {
            SpecParse::Failed("LUT CLUT data truncated"@)
        } else if precision == 0 && total > 0 && data.len() < 22 {
            SpecParse::Aborted
        } else {
            SpecParse::Parsed(
                ClutModel {
                    grid_points: grid,
                    precision,
                    data: Seq::new(total, |i: int| clut_entry(data, precision, i)),
                    output_channels,
                },
            )
        }
    }
}

impl LutClut {
    /// Parses a CLUT element; `None` where the parse aborts.
    pub fn parse_checked(data: &[u8], input_channels: u8, output_channels: u8) -> (r: Option<
        Result<Self, IccError>,
    >)
        ensures
            match r {
                None => lut_clut_spec(data@, input_channels, output_channels) is Aborted,
                Some(res) => result_is(res, lut_clut_spec(data@, input_channels, output_channels)),
            },
    {
        let len = data.len();
        if len < 20 {
            return Some(Err(corrupted("LUT CLUT too small")));
        }
        if input_channels as usize > len {
            return None;
        }
        let ghost grid = data@.take(input_channels as int);
        let mut grid_points: Vec<u8> = Vec::new();
        let mut total: usize = 1;
        let mut i: usize = 0;
        while i < input_channels as usize
            invariant
                len == data@.len(),
                len >= 20,
                input_channels <= len,
                grid == data@.take(input_channels as int),
                i <= input_channels,
                grid_points@ == grid.take(i as int),
                total == grid_product(grid.take(i as int)),
                forall|k: int| 0 <= k <= i ==> #[trigger] grid_product(grid.take(k)) <= usize::MAX,
            decreases input_channels - i,
        {
            let g = data[i];
            assert(grid.take(i as int + 1).drop_last() =~= grid.take(i as int));
            assert(grid.take(i as int + 1).last() == g);
            assert(grid_product(grid.take(i as int + 1)) == grid_product(grid.take(i as int)) * (
            g as nat));
            match total.checked_mul(g as usize) {
                Some(t) => {
                    total = t;
                },
                None => {
                    assert(grid_product(grid.take(i as int + 1)) > usize::MAX);
                    assert(grid_product_overflows(grid));
                    return None;
                },
            }
            grid_points.push(g);
            i = i + 1;
            assert(grid_points@ =~= grid.take(i as int));
        }
        assert(grid.take(input_channels as int) =~= grid);
        assert(!grid_product_overflows(grid));
        let precision = data[16];
        let total = match total.checked_mul(output_channels as usize) {
            Some(t) => t,
            None => return None,
        };
        let required = match total.checked_mul(precision as usize) {
            Some(t) => t,
            None => return None,
        };
        let end = match required.checked_add(20) {
            Some(t) => t,
            None => return None,
        };
        if len < end {
            return Some(Err(corrupted("LUT CLUT data truncated")));
        }
        if precision == 0 && total > 0 && len < 22 {
            return None;
        }
        let mut values: Vec<u16> = Vec::new();
        let mut j: usize = 0;
        while j < total
            invariant
                len == data@.len(),
                20 + total * precision <= len,
                precision == data@[16],
                precision == 0 && total > 0 ==> len >= 22,
                j <= total,
                values@.len() == j,
                forall|k: int| 0 <= k < j ==> values@[k] == clut_entry(data@, precision, k),
            decreases total - j,
        {
            assert(j * precision <= total * precision) by (nonlinear_arith)
                requires
                    j < total,
            ;
            let offset = 20 + j * (precision as usize);
            let v = if precision == 1 {
                data[offset] as u16
            } else {
                assert(offset + 2 <= len) by (nonlinear_arith)
                    requires
                        offset == 20 + j * precision,
                        20 + total * precision <= len,
                        j < total,
                        precision != 1,
                        precision == 0 ==> len >= 22,
                ;
                read_u16_be(data, offset)
            };
            values.push(v);
            j = j + 1;
        }
        let r = LutClut { grid_points, precision, data: values, output_channels };
        assert(r@.data =~= Seq::new(total as nat, |i: int| clut_entry(data@, precision, i)));
        Some(Ok(r))
    }

    /// Parses a CLUT element.
    pub fn parse(data: &[u8], input_channels: u8, output_channels: u8) -> (r: Result<
        Self,
        IccError,
    >)
        ensures
            settles(r, lut_clut_spec(data@, input_channels, output_channels), "LUT CLUT size overflows"@),
    {
        match LutClut::parse_checked(data, input_channels, output_channels) {
            Some(r) => r,
            None => Err(corrupted("LUT CLUT size overflows")),
        }
    }
}

/// Curve segment in v4 LUTs (curv or para type). A one-entry `curv` gamma is held as a type 0
/// parametric curve whose parameter is the u8Fixed8 gamma in s15Fixed16 form; table entries
/// are held as read (normalising divides by 65535).
#[derive(Debug, Clone)]
pub enum CurveSegment {
    /// Identity curve
    Identity,
    /// Table curve
    Table(Vec<u16>),
    /// Parametric curve
    Parametric { curve_type: u16, params: Vec<S15Fixed16> },
}

/// The model of a curve segment.
pub ghost enum CurveSegmentModel {
    Identity,
    Table(Seq<u16>),
    Parametric { curve_type: u16, params: Seq<S15Fixed16> },
}

impl View for CurveSegment {
    type V = CurveSegmentModel;

    open spec fn view(&self) -> CurveSegmentModel {
        match self {
            CurveSegment::Identity => CurveSegmentModel::Identity,
            CurveSegment::Table(t) => CurveSegmentModel::Table(t@),
            CurveSegment::Parametric { curve_type, params } => CurveSegmentModel::Parametric {
                curve_type: *curve_type,
                params: params@,
            },
        }
    }
}

/// The models of a sequence of curve segments.
pub open spec fn segments_view(v: Seq<CurveSegment>) -> Seq<CurveSegmentModel> {
    v.map_values(|c: CurveSegment| c@)
}

/// The number of parameters of a `para` function type (0 for unknown types).
pub open spec fn para_count(t: u16) -> nat {
    if t == 0 {
        1
    } else if t == 1 {
        3
    } else if t == 2 {
        4
    } else if t == 3 {
        5
    } else if t == 4 {
        7
    } else {
        0
    }
}

/// The `n` s15Fixed16 values starting at `data[start]`.
pub open spec fn s15_table(data: Seq<u8>, start: int, n: nat) -> Seq<S15Fixed16> {
    Seq::new(n, |i: int| S15Fixed16(be_i32(data, start + 4 * i)))
}

/// Parsing one curve of a curve set at `pos`: the curve and the position after it.
pub open spec fn curve_at(data: Seq<u8>, pos: int) -> Result<(CurveSegmentModel, int), Seq<char>> {
    if pos + 8 > data.len() {
        Err("Curve set truncated"@)
    } else {
        let sig = be_u32(data, pos);
        let p = pos + 8;
        if sig == 0x63757276 {
            // 'curv'
            if p + 4 > data.len() {
                Err("curv header truncated"@)
            } else {
                let n = be_u32(data, p) as nat;
                let q = p + 4;
                if n == 0 {
                    Ok((CurveSegmentModel::Identity, q))
                } else if n == 1 {
                    if q + 2 > data.len() {
                        Err("curv gamma truncated"@)
                    } else {
                        Ok(
                            (
                                CurveSegmentModel::Parametric {
                                    curve_type: 0,
                                    params: seq![S15Fixed16((be_u16(data, q) * 256) as i32)],
                                },
                                q + 2,
                            ),
                        )
                    }
                } else if q + 2 * n > data.len() {
                    Err("curv table truncated"@)
                } else {
                    Ok((CurveSegmentModel::Table(be_u16_table(data, q, n)), q + 2 * n))
                }
            }
        } else if sig == 0x70617261 {
            // 'para'
            if p + 4 > data.len() {
                Err("para header truncated"@)
            } else {
                let t = be_u16(data, p);
                let q = p + 4;
                let k = para_count(t);
                if q + 4 * k > data.len() {
                    Err("para params truncated"@)
                } else {
                    Ok(
                        (
                            CurveSegmentModel::Parametric {
                                curve_type: t,
                                params: s15_table(data, q, k),
                            },
                            q + 4 * k,
                        ),
                    )
                }
            }
        } else {
            Err("Unknown curve type in set: "@ + hex8(sig))
        }
    }
}

/// `p` rounded up to a multiple of four.
pub open spec fn align4(p: int) -> int {
    (p + 3) / 4 * 4
}

/// Parsing `count` curves from `pos` on, each starting on a four-byte boundary after the
/// previous one.
pub open spec fn curve_set(data: Seq<u8>, pos: int, count: nat) -> Result<
    Seq<CurveSegmentModel>,
    Seq<char>,
>
    decreases count,
{
    if count == 0 {
        Ok(Seq::empty())
    } else {
        match curve_at(data, pos) {
            Err(m) => Err(m),
            Ok((c, p)) => match curve_set(data, align4(p), (count - 1) as nat) {
                Ok(rest) => Ok(seq![c] + rest),
                Err(m) => Err(m),
            },
        }
    }
}

/// `prefix` followed by the curves of `r`, or the failure of `r`.
pub open spec fn prepend_curves(
    prefix: Seq<CurveSegmentModel>,
    r: Result<Seq<CurveSegmentModel>, Seq<char>>,
) -> Result<Seq<CurveSegmentModel>, Seq<char>> {
    match r {
        Ok(rest) => Ok(prefix + rest),
        Err(m) => Err(m),
    }
}

fn read_s15_table(data: &[u8], start: usize, n: usize) -> (r: Vec<S15Fixed16>)
    requires
        start + 4 * n <= data@.len(),
    ensures
        r@ == s15_table(data@, start as int, n as nat),
{
    let len = data.len();
    let mut v: Vec<S15Fixed16> = Vec::new();
    let mut i: usize = 0;
    while i < n
        invariant
            len == data@.len(),
            start + 4 * n <= len,
            i <= n,
            v@.len() == i,
            forall|j: int| 0 <= j < i ==> v@[j] == S15Fixed16(be_i32(data@, start + 4 * j)),
        decreases n - i,
    {
        v.push(S15Fixed16(read_i32_be(data, start + 4 * i)));
        i = i + 1;
    }
    assert(v@ =~= s15_table(data@, start as int, n as nat));
    v
}

/// A curve that parses ends within the data.
proof fn lemma_curve_at_within(data: Seq<u8>, pos: int)
    ensures
        curve_at(data, pos) matches Ok((c, p)) ==> p <= data.len(),
{
}

fn parse_curve_at(data: &[u8], pos: u128) -> (r: Result<(CurveSegment, usize), IccError>)
    ensures
        match r {
            Ok((c, p)) => curve_at(data@, pos as int) == Ok::<(CurveSegmentModel, int), Seq<char>>(
                (c@, p as int),
            ),
            Err(e) => e matches IccError::CorruptedData(m) && curve_at(data@, pos as int)
                == Err::<(CurveSegmentModel, int), Seq<char>>(m@),
        },
{
    let len = data.len();
    if pos > len as u128 || (len as u128) - pos < 8 {
        return Err(corrupted("Curve set truncated"));
    }
    let pos = pos as usize;
    let sig = read_u32_be(data, pos);
    let p = pos + 8;
    if sig == 0x63757276 {
        if len - p < 4 {
            return Err(corrupted("curv header truncated"));
        }
        let n = read_u32_be(data, p) as usize;
        let q = p + 4;
        if n == 0 {
            Ok((CurveSegment::Identity, q))
        } else if n == 1 {
            if len - q < 2 {
                return Err(corrupted("curv gamma truncated"));
            }
            let raw = read_u16_be(data, q);
            let mut params: Vec<S15Fixed16> = Vec::new();
            params.push(S15Fixed16((raw as i32) * 256));
            let c = CurveSegment::Parametric { curve_type: 0, params };
            assert(c@ == CurveSegmentModel::Parametric {
                curve_type: 0,
                params: seq![S15Fixed16((be_u16(data@, q as int) * 256) as i32)],
            });
            Ok((c, q + 2))
        } else {
            if (len - q) / 2 < n {
                return Err(corrupted("curv table truncated"));
            }
            let table = read_u16_table(data, q, n);
            Ok((CurveSegment::Table(table), q + 2 * n))
        }
    } else if sig == 0x70617261 {
        if len - p < 4 {
            return Err(corrupted("para header truncated"));
        }
        let t = read_u16_be(data, p);
        let q = p + 4;
        let k: usize = if t == 0 {
            1
        } else if t == 1 {
            3
        } else if t == 2 {
            4
        } else if t == 3 {
            5
        } else if t == 4 {
            7
        } else {
            0
        };
        if len - q < 4 * k {
            return Err(corrupted("para params truncated"));
        }
        let params = read_s15_table(data, q, k);
        Ok((CurveSegment::Parametric { curve_type: t, params }, q + 4 * k))
    } else {
        let mut msg = String::new();
        msg.append("Unknown curve type in set: ");
        push_hex8(&mut msg, sig);
        Err(IccError::CorruptedData(msg))
    }
}

/// Parses `count` curves of a curve set starting at `data[offset]`.
pub fn parse_curve_set(data: &[u8], offset: usize, count: usize) -> (r: Result<
    Vec<CurveSegment>,
    IccError,
>)
    ensures
        match r {
            Ok(v) => curve_set(data@, offset as int, count as nat) == Ok::<
                Seq<CurveSegmentModel>,
                Seq<char>,
            >(segments_view(v@)),
            Err(e) => e matches IccError::CorruptedData(m) && curve_set(
                data@,
                offset as int,
                count as nat,
            ) == Err::<Seq<CurveSegmentModel>, Seq<char>>(m@),
        },
{
    let len = data.len();
    let mut curves: Vec<CurveSegment> = Vec::new();
    let mut pos: u128 = offset as u128;
    let mut i: usize = 0;
    while i < count
        invariant
            len == data@.len(),
            i <= count,
            pos <= usize::MAX + 4,
            curve_set(data@, offset as int, count as nat) == prepend_curves(
                segments_view(curves@),
                curve_set(data@, pos as int, (count - i) as nat),
            ),
        decreases count - i,
    {
        match parse_curve_at(data, pos) {
            Err(e) => {
                proof {
                    assert(curve_set(data@, pos as int, (count - i) as nat) == Err::<
                        Seq<CurveSegmentModel>,
                        Seq<char>,
                    >(e->CorruptedData_0@));
                }
                return Err(e);
            },
            Ok((c, p)) => {
                proof {
                    lemma_curve_at_within(data@, pos as int);
                }
                let next: u128 = ((p as u128) + 3) / 4 * 4;
                let ghost before = segments_view(curves@);
                let ghost rest = curve_set(data@, next as int, (count - i - 1) as nat);
                assert(next == align4(p as int));
                assert(segments_view(curves@.push(c)) =~= before.push(c@));
                proof {
                    match rest {
                        Ok(r) => {
                            assert(before.push(c@) + r =~= before + (seq![c@] + r));
                        },
                        Err(_) => {},
                    }
                }
                curves.push(c);
                pos = next;
            },
        }
        i = i + 1;
    }
    assert(segments_view(curves@) + Seq::<CurveSegmentModel>::empty() =~= segments_view(curves@));
    Ok(curves)
}

// ----------------------------------------------------------------------------------------------
// mAB / mBA (lutAToBType, lutBToAType)
// ----------------------------------------------------------------------------------------------

/// LUT A to B data (mAB / lutAToBType) - v4 profiles
#[derive(Debug, Clone)]
pub struct LutAToBData {
    /// Number of input channels
    pub input_channels: u8,
    /// Number of output channels
    pub output_channels: u8,
    /// B curves (output side)
    pub b_curves: Option<Vec<CurveSegment>>,
    /// Matrix (optional)
    pub matrix: Option<LutMatrix>,
    /// M curves (after matrix)
    pub m_curves: Option<Vec<CurveSegment>>,
    /// CLUT (optional)
    pub clut: Option<LutClut>,
    /// A curves (input side)
    pub a_curves: Option<Vec<CurveSegment>>,
}

/// LUT B to A data (mBA / lutBToAType) - v4 profiles
#[derive(Debug, Clone)]
pub struct LutBToAData {
    /// Number of input channels
    pub input_channels: u8,
    /// Number of output channels
    pub output_channels: u8,
    /// B curves (input side)
    pub b_curves: Option<Vec<CurveSegment>>,
    /// Matrix (optional)
    pub matrix: Option<LutMatrix>,
    /// M curves (after matrix)
    pub m_curves: Option<Vec<CurveSegment>>,
    /// CLUT (optional)
    pub clut: Option<LutClut>,
    /// A curves (output side)
    pub a_curves: Option<Vec<CurveSegment>>,
}

/// The model of `mAB ` and `mBA ` data.
pub ghost struct LutABModel {
    pub input_channels: u8,
    pub output_channels: u8,
    pub b_curves: Option<Seq<CurveSegmentModel>>,
    pub matrix: Option<LutMatrixModel>,
    pub m_curves: Option<Seq<CurveSegmentModel>>,
    pub clut: Option<ClutModel>,
    pub a_curves: Option<Seq<CurveSegmentModel>>,
}

/// The models of an optional curve set.
pub open spec fn opt_segments_view(o: Option<Vec<CurveSegment>>) -> Option<Seq<CurveSegmentModel>> {
    match o {
        Some(v) => Some(segments_view(v@)),
        None => None,
    }
}

/// The model of an optional matrix element.
pub open spec fn opt_matrix_view(o: Option<LutMatrix>) -> Option<LutMatrixModel> {
    match o {
        Some(m) => Some(m@),
        None => None,
    }
}

/// The model of an optional CLUT element.
pub open spec fn opt_clut_view(o: Option<LutClut>) -> Option<ClutModel> {
    match o {
        Some(c) => Some(c@),
        None => None,
    }
}

impl View for LutAToBData {
    type V = LutABModel;

    open spec fn view(&self) -> LutABModel {
        LutABModel {
            input_channels: self.input_channels,
            output_channels: self.output_channels,
            b_curves: opt_segments_view(self.b_curves),
            matrix: opt_matrix_view(self.matrix),
            m_curves: opt_segments_view(self.m_curves),
            clut: opt_clut_view(self.clut),
            a_curves: opt_segments_view(self.a_curves),
        }
    }
}

impl View for LutBToAData {
    type V = LutABModel;

    open spec fn view(&self) -> LutABModel {
        LutABModel {
            input_channels: self.input_channels,
            output_channels: self.output_channels,
            b_curves: opt_segments_view(self.b_curves),
            matrix: opt_matrix_view(self.matrix),
            m_curves: opt_segments_view(self.m_curves),
            clut: opt_clut_view(self.clut),
            a_curves: opt_segments_view(self.a_curves),
        }
    }
}

/// The curve set at `off` (none when `off` is 0).
pub open spec fn opt_curve_set(data: Seq<u8>, off: u32, count: nat) -> Result<
    Option<Seq<CurveSegmentModel>>,
    Seq<char>,
> {
    if off == 0 {
        Ok(None)
    } else {
        match curve_set(data, off as int, count) {
            Ok(c) => Ok(Some(c)),
            Err(m) => Err(m),
        }
    }
}

/// The matrix element at `off` (none when `off` is 0; an offset past the data aborts).
pub open spec fn opt_lut_matrix(data: Seq<u8>, off: u32) -> SpecParse<Option<LutMatrixModel>> {
    if off == 0 {
        SpecParse::Parsed(None)
    } else if off > data.len() {
        SpecParse::Aborted
    } else {
        match lut_matrix_spec(data.skip(off as int)) {
            SpecParse::Parsed(m) => SpecParse::Parsed(Some(m)),
            SpecParse::Failed(m) => SpecParse::Failed(m),
            SpecParse::Aborted => SpecParse::Aborted,
        }
    }
}

/// The CLUT element at `off` (none when `off` is 0; an offset past the data aborts).
pub open spec fn opt_lut_clut(data: Seq<u8>, off: u32, i: u8, o: u8) -> SpecParse<
    Option<ClutModel>,
> {
    if off == 0 {
        SpecParse::Parsed(None)
    } else if off > data.len() {
        SpecParse::Aborted
    } else {
        match lut_clut_spec(data.skip(off as int), i, o) {
            SpecParse::Parsed(c) => SpecParse::Parsed(Some(c)),
            SpecParse::Failed(m) => SpecParse::Failed(m),
            SpecParse::Aborted => SpecParse::Aborted,
        }
    }
}

/// Parsing an `mAB ` (`a_to_b`) or `mBA ` body: channel counts, then the offsets of the B
/// curves, matrix, M curves, CLUT and A curves (0 for absent), each element parsed in that
/// order. The B and M curves have one curve per output channel for `mAB ` and per input
/// channel for `mBA `; the A curves the other count.
pub open spec fn lut_ab_spec(data: Seq<u8>, a_to_b: bool) -> SpecParse<LutABModel> {
    if data.len() < 32 {
        if a_to_b {
            SpecParse::Failed("lutAToB tag too small"@)
        } else {
            SpecParse::Failed("lutBToA tag too small"@)
        }
    } else {
        let i = data[0];
        let o = data[1];
        let bm_count = if a_to_b {
            o as nat
        } else {
            i as nat
        };
        let a_count = if a_to_b {
            i as nat
        } else {
            o as nat
        };
        match opt_curve_set(data, be_u32(data, 4), bm_count) {
            Err(m) => SpecParse::Failed(m),
            Ok(b) => match opt_lut_matrix(data, be_u32(data, 8)) {
                SpecParse::Aborted => SpecParse::Aborted,
                SpecParse::Failed(m) => SpecParse::Failed(m),
                SpecParse::Parsed(mx) => match opt_curve_set(data, be_u32(data, 12), bm_count) {
                    Err(m) => SpecParse::Failed(m),
                    Ok(mc) => match opt_lut_clut(data, be_u32(data, 16), i, o) {
                        SpecParse::Aborted => SpecParse::Aborted,
                        SpecParse::Failed(m) => SpecParse::Failed(m),
                        SpecParse::Parsed(cl) => match opt_curve_set(
                            data,
                            be_u32(data, 20),
                            a_count,
                        ) {
                            Err(m) => SpecParse::Failed(m),
                            Ok(a) => SpecParse::Parsed(
                                LutABModel {
                                    input_channels: i,
                                    output_channels: o,
                                    b_curves: b,
                                    matrix: mx,
                                    m_curves: mc,
                                    clut: cl,
                                    a_curves: a,
                                },
                            ),
                        },
                    },
                },
            },
        }
    }
}

fn parse_opt_curve_set(data: &[u8], off: u32, count: usize) -> (r: Result<
    Option<Vec<CurveSegment>>,
    IccError,
>)
    ensures
        match r {
            Ok(o) => opt_curve_set(data@, off, count as nat) == Ok::<
                Option<Seq<CurveSegmentModel>>,
                Seq<char>,
            >(opt_segments_view(o)),
            Err(e) => e matches IccError::CorruptedData(m) && opt_curve_set(
                data@,
                off,
                count as nat,
            ) == Err::<Option<Seq<CurveSegmentModel>>, Seq<char>>(m@),
        },
{
    if off == 0 {
        Ok(None)
    } else {
        match parse_curve_set(data, off as usize, count) {
            Ok(v) => Ok(Some(v)),
            Err(e) => Err(e),
        }
    }
}

/// Parses the elements shared by `mAB ` and `mBA `; `None` where the parse aborts.
fn parse_lut_ab(data: &[u8], a_to_b: bool) -> (r: Option<Result<LutAToBData, IccError>>)
    ensures
        match r {
            None => lut_ab_spec(data@, a_to_b) is Aborted,
            Some(res) => result_is(res, lut_ab_spec(data@, a_to_b)),
        },
{
    let len = data.len();
    if len < 32 {
        if a_to_b {
            return Some(Err(corrupted("lutAToB tag too small")));
        } else {
            return Some(Err(corrupted("lutBToA tag too small")));
        }
    }
    let input_channels = data[0];
    let output_channels = data[1];
    let bm_count: usize = if a_to_b {
        output_channels as usize
    } else {
        input_channels as usize
    };
    let a_count: usize = if a_to_b {
        input_channels as usize
    } else {
        output_channels as usize
    };
    let b_offset = read_u32_be(data, 4);
    let matrix_offset = read_u32_be(data, 8);
    let m_offset = read_u32_be(data, 12);
    let clut_offset = read_u32_be(data, 16);
    let a_offset = read_u32_be(data, 20);
    let b_curves = match parse_opt_curve_set(data, b_offset, bm_count) {
        Ok(b) => b,
        Err(e) => return Some(Err(e)),
    };
    let matrix = if matrix_offset == 0 {
        None
    } else {
        if matrix_offset as usize > len {
            return None;
        }
        let tail = slice_range(data, matrix_offset as usize, len);
        assert(tail@ =~= data@.skip(matrix_offset as int));
        match LutMatrix::parse(tail) {
            Ok(m) => Some(m),
            Err(e) => return Some(Err(e)),
        }
    };
    let m_curves = match parse_opt_curve_set(data, m_offset, bm_count) {
        Ok(m) => m,
        Err(e) => return Some(Err(e)),
    };
    let clut = if clut_offset == 0 {
        None
    } else {
        if clut_offset as usize > len {
            return None;
        }
        let tail = slice_range(data, clut_offset as usize, len);
        assert(tail@ =~= data@.skip(clut_offset as int));
        match LutClut::parse_checked(tail, input_channels, output_channels) {
            None => return None,
            Some(Ok(c)) => Some(c),
            Some(Err(e)) => return Some(Err(e)),
        }
    };
    let a_curves = match parse_opt_curve_set(data, a_offset, a_count) {
        Ok(a) => a,
        Err(e) => return Some(Err(e)),
    };
    Some(
        Ok(
            LutAToBData {
                input_channels,
                output_channels,
                b_curves,
                matrix,
                m_curves,
                clut,
                a_curves,
            },
        ),
    )
}

impl LutAToBData {
    /// Parses `mAB ` data; `None` where the parse aborts.
    pub fn parse_checked(data: &[u8]) -> (r: Option<Result<Self, IccError>>)
        ensures
            match r {
                None => lut_ab_spec(data@, true) is Aborted,
                Some(res) => result_is(res, lut_ab_spec(data@, true)),
            },
    {
        parse_lut_ab(data, true)
    }

    /// Parses lutAToB data from the tag body (after type signature and reserved bytes).
    pub fn parse(data: &[u8]) -> (r: Result<Self, IccError>)
        ensures
            settles(r, lut_ab_spec(data@, true), "lutAToB element offset out of range"@),
    {
        match parse_lut_ab(data, true) {
            Some(r) => r,
            None => Err(corrupted("lutAToB element offset out of range")),
        }
    }
}

impl LutBToAData {
    /// Parses `mBA ` data; `None` where the parse aborts.
    pub fn parse_checked(data: &[u8]) -> (r: Option<Result<Self, IccError>>)
        ensures
            match r {
                None => lut_ab_spec(data@, false) is Aborted,
                Some(res) => result_is(res, lut_ab_spec(data@, false)),
            },
    {
        match parse_lut_ab(data, false) {
            None => None,
            Some(Err(e)) => Some(Err(e)),
            Some(Ok(x)) => Some(
                Ok(
                    LutBToAData {
                        input_channels: x.input_channels,
                        output_channels: x.output_channels,
                        b_curves: x.b_curves,
                        matrix: x.matrix,
                        m_curves: x.m_curves,
                        clut: x.clut,
                        a_curves: x.a_curves,
                    },
                ),
            ),
        }
    }

    /// Parses lutBToA data from the tag body (after type signature and reserved bytes).
    pub fn parse(data: &[u8]) -> (r: Result<Self, IccError>)
        ensures
            settles(r, lut_ab_spec(data@, false), "lutBToA element offset out of range"@),
    {
        match LutBToAData::parse_checked(data) {
            Some(r) => r,
            None => Err(corrupted("lutBToA element offset out of range")),
        }
    }
}

// ----------------------------------------------------------------------------------------------
// Laws of the LUT layouts
// ----------------------------------------------------------------------------------------------

/// The grid size multiplied up is the power `g^n`.
pub proof fn grid_pow_is_power(g: nat, n: nat)
    ensures
        grid_pow(g, n) == pow(g as int, n),
    decreases n,
{
    reveal(pow);
    if n > 0 {
        grid_pow_is_power(g, (n - 1) as nat);
        let a = grid_pow(g, (n - 1) as nat);
        reveal(pow);
        assert(pow(g as int, n) == g * pow(g as int, (n - 1) as nat));
        assert(a * g == g * a) by (nonlinear_arith);
    }
}

/// In an `mft1` body with `i` input channels, `o` output channels and `g` grid points, the
/// input tables are the 256-byte runs from offset 40, the CLUT is the `g^i * o` bytes right
/// after them, and the output tables are the 256-byte runs right after the CLUT. Every body at
/// least that long parses, into exactly those slices.
pub proof fn lut8_layout(data: Seq<u8>)
    requires
        data.len() >= 48,
        data.len() <= usize::MAX,
        pow(data[2] as int, data[0] as nat) <= usize::MAX,
        data.len() >= 40 + 256 * data[0] + pow(data[2] as int, data[0] as nat) * data[1] + 256
            * data[1],
    ensures
        lut8_spec(data) is Parsed,
        lut8_spec(data)->Parsed_0.input_channels == data[0],
        lut8_spec(data)->Parsed_0.output_channels == data[1],
        lut8_spec(data)->Parsed_0.grid_points == data[2],
        lut8_spec(data)->Parsed_0.clut == data.subrange(
            40 + 256 * data[0],
            40 + 256 * data[0] + pow(data[2] as int, data[0] as nat) * data[1],
        ),
        lut8_spec(data)->Parsed_0.input_curves.len() == data[0],
        forall|k: int|
            0 <= k < data[0] ==> #[trigger] lut8_spec(data)->Parsed_0.input_curves[k]
                == data.subrange(40 + 256 * k, 40 + 256 * k + 256),
        lut8_spec(data)->Parsed_0.output_curves.len() == data[1],
        forall|k: int|
            0 <= k < data[1] ==> #[trigger] lut8_spec(data)->Parsed_0.output_curves[k]
                == data.subrange(
                40 + 256 * data[0] + pow(data[2] as int, data[0] as nat) * data[1] + 256 * k,
                40 + 256 * data[0] + pow(data[2] as int, data[0] as nat) * data[1] + 256 * k
                    + 256,
            ),
{
    grid_pow_is_power(data[2] as nat, data[0] as nat);
    let p = pow(data[2] as int, data[0] as nat);
    let o = data[1] as int;
    assert(0 <= p * o <= usize::MAX) by (nonlinear_arith)
        requires
            0 <= p <= usize::MAX,
            0 <= o,
            40 + p * o <= usize::MAX,
    {
        if o > 0 {
            assert(p * o >= 0);
        }
    }
    assert(p >= 0);
    assert(p * o >= 0) by (nonlinear_arith)
        requires
            p >= 0,
            o >= 0,
    ;
}

/// In an `mft2` body with `i` input channels, `o` output channels, `g` grid points and `n`
/// input table entries, the CLUT is the `g^i * o` big-endian 16-bit values right after the
/// input tables (which end at 44 + 2 * n * i), and the output tables start right after it.
pub proof fn lut16_clut_layout(data: Seq<u8>)
    requires
        data.len() >= 52,
        data.len() <= usize::MAX,
        pow(data[2] as int, data[0] as nat) <= usize::MAX,
        data.len() >= 44 + 2 * be_u16(data, 40) * data[0] + 2 * pow(data[2] as int, data[0] as nat)
            * data[1] + 2 * be_u16(data, 42) * data[1],
    ensures
        lut16_spec(data) is Parsed,
        lut16_spec(data)->Parsed_0.clut.len() == pow(data[2] as int, data[0] as nat) * data[1],
        forall|k: int|
            0 <= k < lut16_spec(data)->Parsed_0.clut.len() ==> #[trigger] lut16_spec(
                data,
            )->Parsed_0.clut[k] as int == data[44 + 2 * be_u16(data, 40) * data[0] + 2 * k] as int
                * 256 + data[44 + 2 * be_u16(data, 40) * data[0] + 2 * k + 1] as int,
        lut16_spec(data)->Parsed_0.output_curves.len() == data[1],
        forall|k: int|
            0 <= k < data[1] ==> #[trigger] lut16_spec(data)->Parsed_0.output_curves[k]
                == be_u16_table(
                data,
                44 + 2 * be_u16(data, 40) * data[0] + 2 * pow(data[2] as int, data[0] as nat)
                    * data[1] + 2 * be_u16(data, 42) * k,
                be_u16(data, 42) as nat,
            ),
{
    grid_pow_is_power(data[2] as nat, data[0] as nat);
    let p = pow(data[2] as int, data[0] as nat);
    let o = data[1] as int;
    let i = data[0] as int;
    let ie = be_u16(data, 40) as int;
    let oe = be_u16(data, 42) as int;
    assert(p >= 0);
    assert(p * o >= 0 && 2 * p * o == 2 * (p * o) && p * o <= 2 * (p * o)) by (nonlinear_arith)
        requires
            p >= 0,
            o >= 0,
    ;
    assert(2 * ie * i >= 0) by (nonlinear_arith)
        requires
            ie >= 0,
            i >= 0,
    ;
    assert(2 * oe * o >= 0) by (nonlinear_arith)
        requires
            oe >= 0,
            o >= 0,
    ;
    let clut_offset = 44 + 2 * ie * i;
    assert(lut16_spec(data) is Parsed);
    let m = lut16_spec(data)->Parsed_0;
    assert forall|k: int| 0 <= k < p * o implies (#[trigger] m.clut[k]) as int == data[clut_offset
        + 2 * k] as int * 256 + data[clut_offset + 2 * k + 1] as int by {
        let a = data[clut_offset + 2 * k] as int;
        let b = data[clut_offset + 2 * k + 1] as int;
        assert(0 <= a * 256 + b <= 65535);
    }
    assert forall|k: int| 0 <= k < o implies #[trigger] m.output_curves[k] == be_u16_table(
        data,
        clut_offset + 2 * p * o + 2 * oe * k,
        oe as nat,
    ) by {
        assert(2 * oe * k == 2 * oe * k);
    }
}

/// A CLUT element's entries, in order: with precision 1 each is one byte from offset 20; with
/// precision 2 each is the big-endian 16-bit value of two bytes from offset 20. There are
/// (product of the grid sizes) * outputs of them.
pub proof fn clut_entries_are_read_in_order(data: Seq<u8>, input_channels: u8, output_channels: u8, k: int)
    requires
        lut_clut_spec(data, input_channels, output_channels) is Parsed,
        0 <= k < lut_clut_spec(data, input_channels, output_channels)->Parsed_0.data.len(),
    ensures
        lut_clut_spec(data, input_channels, output_channels)->Parsed_0.data.len() == grid_product(
            data.take(input_channels as int),
        ) * output_channels,
        lut_clut_spec(data, input_channels, output_channels)->Parsed_0.precision == data[16],
        data[16] == 1 ==> lut_clut_spec(data, input_channels, output_channels)->Parsed_0.data[k]
            == data[20 + k] as u16,
        data[16] == 2 ==> lut_clut_spec(data, input_channels, output_channels)->Parsed_0.data[k]
            as int == data[20 + 2 * k] as int * 256 + data[20 + 2 * k + 1] as int,
{
    let total = (grid_product(data.take(input_channels as int)) * output_channels) as nat;
    if data[16] == 2 {
        assert(20 + total * 2 <= data.len());
        assert(k * 2 + 2 <= total * 2) by (nonlinear_arith)
            requires
                0 <= k < total,
        ;
        let a = data[20 + 2 * k] as int;
        let b = data[20 + 2 * k + 1] as int;
        assert(0 <= a * 256 + b <= 65535);
        assert(k * 2 == 2 * k);
    }
}

/// Rounding up to four bytes gives the first multiple of four at or after the position.
pub proof fn align4_is_the_next_multiple_of_four(p: int)
    requires
        p >= 0,
    ensures
        align4(p) % 4 == 0,
        p <= align4(p) < p + 4,
{
}

/// A curve set read for `count` curves holds `count` curves.
pub proof fn curve_set_holds_count_curves(data: Seq<u8>, pos: int, count: nat)
    requires
        curve_set(data, pos, count) is Ok,
    ensures
        curve_set(data, pos, count)->Ok_0.len() == count,
    decreases count,
{
    if count > 0 {
        let (c, p) = curve_at(data, pos)->Ok_0;
        curve_set_holds_count_curves(data, align4(p), (count - 1) as nat);
    }
}

/// A LUT matrix element is nine s15Fixed16 entries stored row by row (entry (r, c) at byte
/// 12 * r + 4 * c), then the three offsets at bytes 36, 40 and 44; 48 bytes are enough.
pub proof fn lut_matrix_layout(data: Seq<u8>, r: int, c: int, k: int)
    requires
        data.len() >= 48,
        0 <= r < 3,
        0 <= c < 3,
        0 <= k < 3,
    ensures
        lut_matrix_spec(data) is Parsed,
        lut_matrix_spec(data)->Parsed_0.matrix[r][c] == S15Fixed16(be_i32(data, 12 * r + 4 * c)),
        lut_matrix_spec(data)->Parsed_0.offset[k] == S15Fixed16(be_i32(data, 36 + 4 * k)),
{
    assert(4 * (3 * r + c) == 12 * r + 4 * c);
}

/// The matrix of an `mft1` body is stored row by row from byte 4 (entry (r, c) at byte
/// 4 + 12 * r + 4 * c).
pub proof fn lut8_matrix_layout(data: Seq<u8>, r: int, c: int)
    requires
        lut8_spec(data) is Parsed,
        0 <= r < 3,
        0 <= c < 3,
    ensures
        lut8_spec(data)->Parsed_0.matrix[r][c] == S15Fixed16(be_i32(data, 4 + 12 * r + 4 * c)),
{
    assert(4 + 4 * (3 * r + c) == 4 + 12 * r + 4 * c);
}

/// Each element of an `mAB ` (`a_to_b`) or `mBA ` body is read from the offset in its own
/// header slot: B curves at bytes 4..8, matrix 8..12, M curves 12..16, CLUT 16..20, A curves
/// 20..24, an offset of 0 meaning the element is absent. The B and M curve sets hold one
/// curve per output channel for `mAB ` and per input channel for `mBA `; the A curves the
/// other count.
pub proof fn lut_ab_elements(data: Seq<u8>, a_to_b: bool)
    requires
        lut_ab_spec(data, a_to_b) is Parsed,
    ensures
        ({
            let m = lut_ab_spec(data, a_to_b)->Parsed_0;
            let bm: nat = if a_to_b { data[1] as nat } else { data[0] as nat };
            let ac: nat = if a_to_b { data[0] as nat } else { data[1] as nat };
            &&& m.input_channels == data[0]
            &&& m.output_channels == data[1]
            &&& (m.b_curves is None <==> be_u32(data, 4) == 0)
            &&& (m.b_curves matches Some(b) ==> b == curve_set(data, be_u32(data, 4) as int, bm)->Ok_0
                && b.len() == bm)
            &&& (m.matrix is None <==> be_u32(data, 8) == 0)
            &&& (m.matrix matches Some(x) ==> lut_matrix_spec(data.skip(be_u32(data, 8) as int))
                == SpecParse::Parsed(x))
            &&& (m.m_curves is None <==> be_u32(data, 12) == 0)
            &&& (m.m_curves matches Some(c) ==> c == curve_set(data, be_u32(data, 12) as int, bm)->Ok_0
                && c.len() == bm)
            &&& (m.clut is None <==> be_u32(data, 16) == 0)
            &&& (m.clut matches Some(c) ==> lut_clut_spec(
                data.skip(be_u32(data, 16) as int),
                data[0],
                data[1],
            ) == SpecParse::Parsed(c))
            &&& (m.a_curves is None <==> be_u32(data, 20) == 0)
            &&& (m.a_curves matches Some(c) ==> c == curve_set(data, be_u32(data, 20) as int, ac)->Ok_0
                && c.len() == ac)
        }),
{
    let bm: nat = if a_to_b { data[1] as nat } else { data[0] as nat };
    let ac: nat = if a_to_b { data[0] as nat } else { data[1] as nat };
    if be_u32(data, 4) != 0 {
        curve_set_holds_count_curves(data, be_u32(data, 4) as int, bm);
    }
    if be_u32(data, 12) != 0 {
        curve_set_holds_count_curves(data, be_u32(data, 12) as int, bm);
    }
    if be_u32(data, 20) != 0 {
        curve_set_holds_count_curves(data, be_u32(data, 20) as int, ac);
    }
}

/// A `para` curve inside a curve set takes as many parameters as its function type uses:
/// 1, 3, 4, 5 and 7 for types 0 to 4.
pub proof fn para_parameters_match_the_curve_type(t: u16)
    ensures
        parametric_curve_type_of(t) matches Some(c) ==> para_count(t) == parametric_param_count(c),
        t == 0 ==> para_count(t) == 1,
        t == 1 ==> para_count(t) == 3,
        t == 2 ==> para_count(t) == 4,
        t == 3 ==> para_count(t) == 5,
        t == 4 ==> para_count(t) == 7,
{
}

/// The fixed part of an `mft2` body: channel counts and grid size in bytes 0, 1 and 2, the
/// matrix row by row from byte 4 (entry (r, c) at 4 + 12r + 4c), the input and output table
/// sizes as big-endian u16 at bytes 40 and 42, then the input tables, `n` big-endian u16
/// entries each, from byte 44 (entry `j` of table `k` at 44 + 2nk + 2j).
pub proof fn lut16_header_and_input_tables(data: Seq<u8>, r: int, c: int, k: int, j: int)
    requires
        lut16_spec(data) is Parsed,
        0 <= r < 3,
        0 <= c < 3,
    ensures
        lut16_spec(data)->Parsed_0.input_channels == data[0],
        lut16_spec(data)->Parsed_0.output_channels == data[1],
        lut16_spec(data)->Parsed_0.grid_points == data[2],
        lut16_spec(data)->Parsed_0.matrix[r][c] == S15Fixed16(be_i32(data, 4 + 12 * r + 4 * c)),
        lut16_spec(data)->Parsed_0.input_entries as int == data[40] as int * 256 + data[41] as int,
        lut16_spec(data)->Parsed_0.output_entries as int == data[42] as int * 256 + data[43] as int,
        lut16_spec(data)->Parsed_0.input_curves.len() == data[0],
        0 <= k < data[0] && 0 <= j < be_u16(data, 40) ==> (lut16_spec(data)->Parsed_0.input_curves[k].len()
            == be_u16(data, 40) && lut16_spec(data)->Parsed_0.input_curves[k][j] as int
            == data[44 + 2 * be_u16(data, 40) * k + 2 * j] as int * 256 + data[44 + 2 * be_u16(
            data,
            40,
        ) * k + 2 * j + 1] as int),
{
    assert(4 + 4 * (3 * r + c) == 4 + 12 * r + 4 * c);
    let a = data[40] as int;
    let b = data[41] as int;
    assert(0 <= a * 256 + b <= 65535);
    let a2 = data[42] as int;
    let b2 = data[43] as int;
    assert(0 <= a2 * 256 + b2 <= 65535);
    if 0 <= k < data[0] && 0 <= j < be_u16(data, 40) {
        let n = be_u16(data, 40) as int;
        let x = data[44 + 2 * n * k + 2 * j] as int;
        let y = data[44 + 2 * n * k + 2 * j + 1] as int;
        assert(0 <= x * 256 + y <= 65535);
    }
}

/// One curve of a v4 curve set at `pos`: a 'curv' with a count of 0 is the identity, with 1
/// the u8Fixed8 gamma at pos + 12 (as s15Fixed16, shifted by 8 bits), with more that many
/// big-endian u16 entries from pos + 12; a 'para' of function type `t` (u16 at pos + 8) has
/// its parameters as s15Fixed16 values from pos + 12. Each ends right after its data.
pub proof fn curve_in_a_set_layout(data: Seq<u8>, pos: int, j: int)
    requires
        curve_at(data, pos) is Ok,
        pos >= 0,
    ensures
        ({
            let (c, end) = curve_at(data, pos)->Ok_0;
            let n = be_u32(data, pos + 8);
            &&& be_u32(data, pos) == 0x63757276 && n == 0 ==> c == CurveSegmentModel::Identity
                && end == pos + 12
            &&& be_u32(data, pos) == 0x63757276 && n == 1 ==> c == CurveSegmentModel::Parametric {
                curve_type: 0,
                params: seq![S15Fixed16((be_u16(data, pos + 12) * 256) as i32)],
            } && end == pos + 14
            &&& be_u32(data, pos) == 0x63757276 && n >= 2 ==> (c matches CurveSegmentModel::Table(
                t,
            ) && t.len() == n && end == pos + 12 + 2 * n && (0 <= j < n ==> t[j] as int
                == data[pos + 12 + 2 * j] as int * 256 + data[pos + 13 + 2 * j] as int))
            &&& be_u32(data, pos) == 0x70617261 ==> (c matches CurveSegmentModel::Parametric {
                curve_type,
                params,
            } && curve_type == be_u16(data, pos + 8) && params.len() == para_count(curve_type) && end
                == pos + 12 + 4 * params.len() && (0 <= j < params.len() ==> params[j] == S15Fixed16(
                be_i32(data, pos + 12 + 4 * j),
            )))
            &&& be_u32(data, pos) == 0x63757276 || be_u32(data, pos) == 0x70617261
        }),
{
    let n = be_u32(data, pos + 8);
    if be_u32(data, pos) == 0x63757276 && n >= 2 && 0 <= j < n {
        let x = data[pos + 12 + 2 * j] as int;
        let y = data[pos + 13 + 2 * j] as int;
        assert(0 <= x * 256 + y <= 65535);
    }
}

} // verus!
