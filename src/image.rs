//! The colour-ramp image: per-pixel colours and the PPM text that carries them.
//!
//! The image is `width` by `height` pixels. Rows are emitted from `height - 1`
//! down to `0`, and within a row columns go from `0` up to `width - 1`. The
//! pixel in row `i`, column `j` has the colour
//! `(j / (width - 1), i / (height - 1), 1 / 4)` of full intensity, and each
//! channel is written as `floor(255.999 * fraction)`.
use vstd::prelude::*;
use crate::decimal::{decimal_spec, digit_byte, push_decimal};

verus! {

/// Width of the image the program emits.
pub const IMAGE_WIDTH: u32 = 256;

/// Height of the image the program emits.
pub const IMAGE_HEIGHT: u32 = 256;

/// One pixel's channel values, red, green and blue.
#[derive(Clone, Copy, Debug, PartialEq, Eq, Structural)]
pub struct Rgb {
    pub r: u64,
    pub g: u64,
    pub b: u64,
}

/// `floor(255.999 * num / den)`: the channel value for the fraction
/// `num / den` of full intensity.
pub open spec fn channel_spec(num: nat, den: nat) -> nat
    recommends
        den > 0,
{
    (255999 * num) / (1000 * den)
}

/// The colour of the pixel in row `i`, column `j`.
pub open spec fn color_spec(i: nat, j: nat, width: nat, height: nat) -> Rgb {
    Rgb {
        r: channel_spec(j, (width - 1) as nat) as u64,
        g: channel_spec(i, (height - 1) as nat) as u64,
        b: channel_spec(1, 4) as u64,
    }
}

/// Computes `floor(255.999 * num / den)`.
pub fn channel(num: u32, den: u32) -> (r: u64)
    requires
        den > 0,
    ensures
        r == channel_spec(num as nat, den as nat),
{
    assert(255999 * (num as int) <= 255999 * 0xffff_ffff) by (nonlinear_arith);
    (255999 * num as u64) / (1000 * den as u64)
}

/// The colour of the pixel in row `i`, column `j` of a `width` by `height`
/// image.
pub fn pixel_color(i: u32, j: u32, width: u32, height: u32) -> (c: Rgb)
    requires
        width > 1,
        height > 1,
    ensures
        c == color_spec(i as nat, j as nat, width as nat, height as nat),
        i < height ==> c.g <= 255,
        j < width ==> c.r <= 255,
        c.b == 63,
{
    proof {
        if i < height {
            lemma_channel_in_range(i as nat, (height - 1) as nat);
        }
        if j < width {
            lemma_channel_in_range(j as nat, (width - 1) as nat);
        }
        lemma_channel_quarter();
    }
    Rgb { r: channel(j, width - 1), g: channel(i, height - 1), b: channel(1, 4) }
}

/// A fraction of at most full intensity gives a channel value of at most 255.
pub proof fn lemma_channel_in_range(num: nat, den: nat)
    requires
        0 < den,
        num <= den,
    ensures
        channel_spec(num, den) <= 255,
{
    assert(255999 * num < 256 * (1000 * den)) by (nonlinear_arith)
        requires
            0 < den,
            num <= den,
    ;
    let x = (255999 * num) as int;
    let d = (1000 * den) as int;
    vstd::arithmetic::div_mod::lemma_fundamental_div_mod(x, d);
    assert(x / d < 256) by (nonlinear_arith)
        requires
            x == d * (x / d) + (x % d),
            0 <= x % d,
            x < 256 * d,
            d > 0,
    ;
}

/// A zero fraction gives 0 and a full one gives 255.
pub proof fn lemma_channel_full(den: nat)
    requires
        0 < den,
    ensures
        channel_spec(0, den) == 0,
        channel_spec(den, den) == 255,
{
    let d = (1000 * den) as int;
    vstd::arithmetic::div_mod::lemma_fundamental_div_mod_converse(0, d, 0, 0);
    vstd::arithmetic::div_mod::lemma_fundamental_div_mod_converse(
        (255999 * den) as int,
        d,
        255,
        (999 * den) as int,
    );
}

/// A quarter of full intensity gives 63.
pub proof fn lemma_channel_quarter()
    ensures
        channel_spec(1, 4) == 63,
{
    vstd::arithmetic::div_mod::lemma_fundamental_div_mod_converse(255999, 4000, 63, 3999);
}

/// Whatever the size, the first pixel emitted (top row, first column) has
/// no red, full green and blue 63, and the last one (bottom row, last
/// column) full red, no green and blue 63.
pub proof fn lemma_ramp_corners(width: nat, height: nat)
    requires
        width > 1,
        height > 1,
    ensures
        color_spec((height - 1) as nat, 0, width, height) == (Rgb { r: 0, g: 255, b: 63 }),
        color_spec(0, (width - 1) as nat, width, height) == (Rgb { r: 255, g: 0, b: 63 }),
{
    lemma_channel_full((width - 1) as nat);
    lemma_channel_full((height - 1) as nat);
    lemma_channel_quarter();
}

/// The text `"r g b\n"` of one pixel.
pub open spec fn pixel_line_spec(c: Rgb) -> Seq<u8> {
    decimal_spec(c.r as nat) + seq![32u8] + decimal_spec(c.g as nat) + seq![32u8]
        + decimal_spec(c.b as nat) + seq![10u8]
}

/// The header `"P3\n<width> <height>\n255\n\n"`: format tag, size, maximum
/// channel value and a blank separator line.
pub open spec fn header_spec(width: nat, height: nat) -> Seq<u8> {
    seq![80u8, 51u8, 10u8] + decimal_spec(width) + seq![32u8] + decimal_spec(height)
        + seq![10u8, 50u8, 53u8, 53u8, 10u8, 10u8]
}

/// The pixel lines of the first `n` columns of row `i`.
pub open spec fn row_spec(i: nat, width: nat, height: nat, n: nat) -> Seq<u8>
    decreases n,
{
    if n == 0 {
        Seq::empty()
    } else {
        row_spec(i, width, height, (n - 1) as nat) + pixel_line_spec(
            color_spec(i, (n - 1) as nat, width, height),
        )
    }
}

/// The pixel lines of the first `m` rows emitted: rows `height - 1` down to
/// `height - m`.
pub open spec fn rows_spec(width: nat, height: nat, m: nat) -> Seq<u8>
    decreases m,
{
    if m == 0 {
        Seq::empty()
    } else {
        rows_spec(width, height, (m - 1) as nat) + row_spec(
            (height - m) as nat,
            width,
            height,
            width,
        )
    }
}

/// The whole image text: header, then every row from the top one down.
pub open spec fn image_spec(width: nat, height: nat) -> Seq<u8> {
    header_spec(width, height) + rows_spec(width, height, height)
}

/// Appends the text of pixel `c` to `out`.
pub fn push_pixel(out: &mut Vec<u8>, c: Rgb)
    ensures
        final(out)@ == old(out)@ + pixel_line_spec(c),
{
    push_decimal(out, c.r);
    out.push(32u8);
    push_decimal(out, c.g);
    out.push(32u8);
    push_decimal(out, c.b);
    out.push(10u8);
    assert(final(out)@ =~= old(out)@ + pixel_line_spec(c));
}

/// The image header for a `width` by `height` image.
pub fn header(width: u32, height: u32) -> (r: Vec<u8>)
    ensures
        r@ == header_spec(width as nat, height as nat),
{
    let mut out: Vec<u8> = Vec::new();
    out.push(80u8);
    out.push(51u8);
    out.push(10u8);
    push_decimal(&mut out, width as u64);
    out.push(32u8);
    push_decimal(&mut out, height as u64);
    out.push(10u8);
    out.push(50u8);
    out.push(53u8);
    out.push(53u8);
    out.push(10u8);
    out.push(10u8);
    assert(out@ =~= header_spec(width as nat, height as nat));
    out
}

/// Appends the pixel lines of row `i`, columns `0` to `width - 1`, to `out`.
pub fn push_row(out: &mut Vec<u8>, i: u32, width: u32, height: u32)
    requires
        width > 1,
        height > 1,
    ensures
        final(out)@ == old(out)@ + row_spec(i as nat, width as nat, height as nat, width as nat),
{
    let mut j: u32 = 0;
    while j < width
        invariant
            width > 1,
            height > 1,
            j <= width,
            out@ == old(out)@ + row_spec(i as nat, width as nat, height as nat, j as nat),
        decreases width - j,
    {
        let c = pixel_color(i, j, width, height);
        push_pixel(out, c);
        proof {
            assert(row_spec(i as nat, width as nat, height as nat, (j + 1) as nat)
                == row_spec(i as nat, width as nat, height as nat, j as nat) + pixel_line_spec(c));
        }
        j = j + 1;
    }
}

/// The pixel lines of row `i`.
pub fn row(i: u32, width: u32, height: u32) -> (r: Vec<u8>)
    requires
        width > 1,
        height > 1,
    ensures
        r@ == row_spec(i as nat, width as nat, height as nat, width as nat),
{
    let mut out: Vec<u8> = Vec::new();
    push_row(&mut out, i, width, height);
    assert(out@ =~= row_spec(i as nat, width as nat, height as nat, width as nat));
    out
}

/// The whole text of a `width` by `height` image.
pub fn render(width: u32, height: u32) -> (r: Vec<u8>)
    requires
        width > 1,
        height > 1,
    ensures
        r@ == image_spec(width as nat, height as nat),
        line_breaks(r@) == 4 + width * height,
{
    proof {
        lemma_image_line_count(width as nat, height as nat);
    }
    let mut out = header(width, height);
    let mut i: u32 = height;
    while i > 0
        invariant
            width > 1,
            height > 1,
            i <= height,
            out@ == header_spec(width as nat, height as nat) + rows_spec(
                width as nat,
                height as nat,
                (height - i) as nat,
            ),
        decreases i,
    {
        i = i - 1;
        push_row(&mut out, i, width, height);
        proof {
            assert(height - (height - i) as nat == i);
            assert(out@ =~= header_spec(width as nat, height as nat) + rows_spec(
                width as nat,
                height as nat,
                (height - i) as nat,
            ));
        }
    }
    out
}

/// The number of line breaks in `s`.
pub open spec fn line_breaks(s: Seq<u8>) -> nat
    decreases s.len(),
{
    if s.len() == 0 {
        0
    } else {
        line_breaks(s.drop_last()) + if s.last() == 10u8 {
            1nat
        } else {
            0nat
        }
    }
}

/// Line breaks of a concatenation add up.
pub proof fn lemma_line_breaks_concat(a: Seq<u8>, b: Seq<u8>)
    ensures
        line_breaks(a + b) == line_breaks(a) + line_breaks(b),
    decreases b.len(),
{
    if b.len() == 0 {
        assert(a + b =~= a);
    } else {
        assert((a + b).drop_last() =~= a + b.drop_last());
        lemma_line_breaks_concat(a, b.drop_last());
    }
}

/// A decimal number holds no line break.
pub proof fn lemma_decimal_no_line_break(n: nat)
    ensures
        line_breaks(decimal_spec(n)) == 0,
    decreases n,
{
    reveal_with_fuel(line_breaks, 2);
    assert(decimal_spec(n).last() == digit_byte(n % 10));
    assert(digit_byte(n % 10) != 10u8);
    if n < 10 {
        assert(decimal_spec(n).drop_last() =~= Seq::<u8>::empty());
    } else {
        lemma_decimal_no_line_break(n / 10);
        assert(decimal_spec(n).drop_last() =~= decimal_spec(n / 10));
    }
}

/// Each pixel takes exactly one line.
pub proof fn lemma_pixel_line_breaks(c: Rgb)
    ensures
        line_breaks(pixel_line_spec(c)) == 1,
{
    let sp = seq![32u8];
    let nl = seq![10u8];
    reveal_with_fuel(line_breaks, 2);
    let (dr, dg, db) = (decimal_spec(c.r as nat), decimal_spec(c.g as nat), decimal_spec(c.b as nat));
    lemma_decimal_no_line_break(c.r as nat);
    lemma_decimal_no_line_break(c.g as nat);
    lemma_decimal_no_line_break(c.b as nat);
    assert(line_breaks(sp) == 0) by {
        assert(sp.drop_last() =~= Seq::<u8>::empty());
    }
    assert(line_breaks(nl) == 1) by {
        assert(nl.drop_last() =~= Seq::<u8>::empty());
    }
    lemma_line_breaks_concat(dr, sp);
    lemma_line_breaks_concat(dr + sp, dg);
    lemma_line_breaks_concat(dr + sp + dg, sp);
    lemma_line_breaks_concat(dr + sp + dg + sp, db);
    lemma_line_breaks_concat(dr + sp + dg + sp + db, nl);
}

/// The header takes four lines, the last of them blank.
pub proof fn lemma_header_line_breaks(width: nat, height: nat)
    ensures
        line_breaks(header_spec(width, height)) == 4,
{
    let a = seq![80u8, 51u8, 10u8];
    let sp = seq![32u8];
    let z = seq![10u8, 50u8, 53u8, 53u8, 10u8, 10u8];
    reveal_with_fuel(line_breaks, 7);
    let (dw, dh) = (decimal_spec(width), decimal_spec(height));
    lemma_decimal_no_line_break(width);
    lemma_decimal_no_line_break(height);
    assert(line_breaks(a) == 1) by {
        assert(a.drop_last() =~= seq![80u8, 51u8]);
        assert(a.drop_last().drop_last() =~= seq![80u8]);
        assert(a.drop_last().drop_last().drop_last() =~= Seq::<u8>::empty());
    }
    assert(line_breaks(sp) == 0) by {
        assert(sp.drop_last() =~= Seq::<u8>::empty());
    }
    assert(line_breaks(z) == 3) by {
        assert(z.drop_last() =~= seq![10u8, 50u8, 53u8, 53u8, 10u8]);
        assert(z.drop_last().drop_last() =~= seq![10u8, 50u8, 53u8, 53u8]);
        assert(z.drop_last().drop_last().drop_last() =~= seq![10u8, 50u8, 53u8]);
        assert(z.drop_last().drop_last().drop_last().drop_last() =~= seq![10u8, 50u8]);
        assert(z.drop_last().drop_last().drop_last().drop_last().drop_last() =~= seq![10u8]);
        assert(z.drop_last().drop_last().drop_last().drop_last().drop_last().drop_last()
            =~= Seq::<u8>::empty());
    }
    lemma_line_breaks_concat(a, dw);
    lemma_line_breaks_concat(a + dw, sp);
    lemma_line_breaks_concat(a + dw + sp, dh);
    lemma_line_breaks_concat(a + dw + sp + dh, z);
}

/// The first `n` columns of a row take `n` lines.
pub proof fn lemma_row_line_breaks(i: nat, width: nat, height: nat, n: nat)
    ensures
        line_breaks(row_spec(i, width, height, n)) == n,
    decreases n,
{
    if n > 0 {
        let c = color_spec(i, (n - 1) as nat, width, height);
        lemma_row_line_breaks(i, width, height, (n - 1) as nat);
        lemma_pixel_line_breaks(c);
        lemma_line_breaks_concat(row_spec(i, width, height, (n - 1) as nat), pixel_line_spec(c));
    }
}

/// The first `m` rows take `m * width` lines.
pub proof fn lemma_rows_line_breaks(width: nat, height: nat, m: nat)
    ensures
        line_breaks(rows_spec(width, height, m)) == m * width,
    decreases m,
{
    if m > 0 {
        let r = row_spec((height - m) as nat, width, height, width);
        lemma_rows_line_breaks(width, height, (m - 1) as nat);
        lemma_row_line_breaks((height - m) as nat, width, height, width);
        let k = (m - 1) as nat;
        lemma_line_breaks_concat(rows_spec(width, height, k), r);
        assert(rows_spec(width, height, m) == rows_spec(width, height, k) + r);
        assert(k * width + width == m * width) by (nonlinear_arith)
            requires
                k + 1 == m,
        ;
    } else {
        assert(line_breaks(rows_spec(width, height, 0)) == 0);
        assert(0 * width == 0);
    }
}

/// A `width` by `height` image is its four header lines followed by exactly
/// `width * height` pixel lines.
pub proof fn lemma_image_line_count(width: nat, height: nat)
    ensures
        line_breaks(image_spec(width, height)) == 4 + width * height,
{
    lemma_header_line_breaks(width, height);
    lemma_rows_line_breaks(width, height, height);
    lemma_line_breaks_concat(header_spec(width, height), rows_spec(width, height, height));
    assert(height * width == width * height) by (nonlinear_arith);
}

} // verus!
