use vstd::prelude::*;

use super::layout::CellRect;
use crate::text::{dec_chars, int_chars, push_char, push_i64, push_u64};


verus! {

/// A Kitty graphics image and the placement that shows it.
#[derive(Debug, Clone, Copy, PartialEq, Eq, Structural)]
pub struct KittyImage {
    pub image_id: u32,
    pub placement_id: u32,
}

/// The standard base64 alphabet.
pub open spec fn b64_digit(v: nat) -> char {
    if v < 26 {
        (65 + v) as char
    } else if v < 52 {
        (97 + (v - 26)) as char
    } else if v < 62 {
        (48 + (v - 52)) as char
    } else if v == 62 {
        '+'
    } else {
        '/'
    }
}

/// The four characters of one group of one to three bytes: the 24-bit big-endian value
/// of the group (missing bytes zero) cut into four 6-bit digits, with `=` in place of
/// the digits that only cover missing bytes.
pub open spec fn b64_group(g: Seq<u8>) -> Seq<char> {
    let b0 = g[0] as nat;
    let b1 = if g.len() > 1 { g[1] as nat } else { 0 };
    let b2 = if g.len() > 2 { g[2] as nat } else { 0 };
    let n = b0 * 65536 + b1 * 256 + b2;
    seq![b64_digit(n / 262144), b64_digit((n / 4096) % 64)]
        + (if g.len() > 1 { seq![b64_digit((n / 64) % 64)] } else { seq!['='] })
        + (if g.len() > 2 { seq![b64_digit(n % 64)] } else { seq!['='] })
}

/// Padded base64 (RFC 4648) of a byte sequence.
pub open spec fn base64_chars(s: Seq<u8>) -> Seq<char>
    decreases s.len(),
{
    if s.len() == 0 {
        seq![]
    } else if s.len() <= 3 {
        b64_group(s)
    } else {
        b64_group(s.take(3)) + base64_chars(s.skip(3))
    }
}

/// The value of a base64 digit; the inverse of `b64_digit`.
pub open spec fn b64_value(c: char) -> nat {
    let k = c as int;
    if 65 <= k <= 90 {
        (k - 65) as nat
    } else if 97 <= k <= 122 {
        (k - 97 + 26) as nat
    } else if 48 <= k <= 57 {
        (k - 48 + 52) as nat
    } else if c == '+' {
        62
    } else {
        63
    }
}

/// The bytes of one group of four base64 characters: one byte when the last two are
/// `=`, two when the last one is, three otherwise.
pub open spec fn b64_ungroup(g: Seq<char>) -> Seq<u8> {
    let d2 = if g[2] == '=' { 0 } else { b64_value(g[2]) };
    let d3 = if g[3] == '=' { 0 } else { b64_value(g[3]) };
    let n = b64_value(g[0]) * 262144 + b64_value(g[1]) * 4096 + d2 * 64 + d3;
    let b0 = (n / 65536) as u8;
    let b1 = ((n / 256) % 256) as u8;
    let b2 = (n % 256) as u8;
    if g[2] == '=' {
        seq![b0]
    } else if g[3] == '=' {
        seq![b0, b1]
    } else {
        seq![b0, b1, b2]
    }
}

/// Decodes padded base64, group by group.
pub open spec fn base64_decoded(s: Seq<char>) -> Seq<u8>
    decreases s.len(),
{
    if s.len() < 4 {
        seq![]
    } else {
        b64_ungroup(s.take(4)) + base64_decoded(s.skip(4))
    }
}

/// The number of `=` that pad the base64 of `n` bytes.
pub open spec fn b64_padding(n: nat) -> nat {
    ((3 - n % 3) % 3) as nat
}

proof fn lemma_b64_digit_value(v: nat)
    requires
        v < 64,
    ensures
        b64_value(b64_digit(v)) == v,
        b64_digit(v) != '=',
{
}

#[verifier::spinoff_prover]
#[verifier::rlimit(50)]
proof fn lemma_b64_group(g: Seq<u8>)
    requires
        1 <= g.len() <= 3,
    ensures
        b64_group(g).len() == 4,
        b64_ungroup(b64_group(g)) == g,
        forall|i: int| 0 <= i < 4 ==> (#[trigger] b64_group(g)[i] == '=' <==> i > g.len()),
{
    let x0 = g[0] as u32;
    let x1: u32 = if g.len() > 1 { g[1] as u32 } else { 0 };
    let x2: u32 = if g.len() > 2 { g[2] as u32 } else { 0 };
    let n = (x0 as nat) * 65536 + (x1 as nat) * 256 + (x2 as nat);
    let d0 = n / 262144;
    let d1 = (n / 4096) % 64;
    let d2 = (n / 64) % 64;
    let d3 = n % 64;
    assert(d0 < 64 && d1 < 64 && d2 < 64 && d3 < 64);
    lemma_b64_digit_value(d0);
    lemma_b64_digit_value(d1);
    lemma_b64_digit_value(d2);
    lemma_b64_digit_value(d3);
    let grp = b64_group(g);
    assert(grp[0] == b64_digit(d0) && grp[1] == b64_digit(d1));
    if g.len() == 1 {
        assert(((x0 * 65536) / 262144) * 262144 + (((x0 * 65536) / 4096) % 64) * 4096 == x0 * 65536) by (bit_vector)
            requires x0 < 256u32;
        assert((x0 * 65536) / 65536 == x0) by (bit_vector)
            requires x0 < 256u32;
        assert(b64_ungroup(grp) =~= g);
    } else if g.len() == 2 {
        assert(grp[2] == b64_digit(d2));
        assert(((x0 * 65536 + x1 * 256) / 262144) * 262144 + (((x0 * 65536 + x1 * 256) / 4096) % 64) * 4096
            + (((x0 * 65536 + x1 * 256) / 64) % 64) * 64 == x0 * 65536 + x1 * 256) by (bit_vector)
            requires x0 < 256u32, x1 < 256u32;
        assert((x0 * 65536 + x1 * 256) / 65536 == x0 && ((x0 * 65536 + x1 * 256) / 256) % 256 == x1)
            by (bit_vector)
            requires x0 < 256u32, x1 < 256u32;
        assert(b64_ungroup(grp) =~= g);
    } else {
        assert(grp[2] == b64_digit(d2) && grp[3] == b64_digit(d3));
        assert(((x0 * 65536 + x1 * 256 + x2) / 262144) * 262144 + (((x0 * 65536 + x1 * 256 + x2) / 4096) % 64) * 4096
            + (((x0 * 65536 + x1 * 256 + x2) / 64) % 64) * 64 + (x0 * 65536 + x1 * 256 + x2) % 64 == x0 * 65536 + x1 * 256
            + x2) by (bit_vector)
            requires x0 < 256u32, x1 < 256u32, x2 < 256u32;
        assert((x0 * 65536 + x1 * 256 + x2) / 65536 == x0 && ((x0 * 65536 + x1 * 256 + x2) / 256) % 256 == x1
            && (x0 * 65536 + x1 * 256 + x2) % 256 == x2) by (bit_vector)
            requires x0 < 256u32, x1 < 256u32, x2 < 256u32;
        assert(b64_ungroup(grp) =~= g);
    }
}

#[verifier::spinoff_prover]
#[verifier::rlimit(50)]
proof fn lemma_base64_shape(s: Seq<u8>)
    ensures
        base64_chars(s).len() == 4 * ((s.len() + 2) / 3),
        forall|i: int| 0 <= i < base64_chars(s).len() ==> (#[trigger] base64_chars(s)[i] == '=' <==> i
            >= base64_chars(s).len() - b64_padding(s.len())),
    decreases s.len(),
{
    if s.len() == 0 {
    } else if s.len() <= 3 {
        lemma_b64_group(s);
    } else {
        let head = s.take(3);
        let rest = s.skip(3);
        lemma_b64_group(head);
        lemma_base64_shape(rest);
        let g = b64_group(head);
        let r = base64_chars(rest);
        let out = base64_chars(s);
        assert(out == g + r);
        assert(b64_padding(s.len()) == b64_padding(rest.len()));
        assert forall|i: int| 0 <= i < out.len() implies (#[trigger] out[i] == '=' <==> i >= out.len() - b64_padding(
            s.len(),
        )) by {
            if i >= 4 {
                assert(out[i] == r[i - 4]);
            } else {
                assert(out[i] == g[i]);
            }
        }
    }
}

#[verifier::spinoff_prover]
#[verifier::rlimit(50)]
proof fn lemma_base64_round_trip(s: Seq<u8>)
    ensures
        base64_decoded(base64_chars(s)) == s,
    decreases s.len(),
{
    if s.len() == 0 {
        assert(base64_decoded(base64_chars(s)) =~= s);
    } else if s.len() <= 3 {
        lemma_b64_group(s);
        let out = base64_chars(s);
        assert(out.take(4) =~= out);
        assert(base64_decoded(out.skip(4)) =~= Seq::<u8>::empty());
        assert(base64_decoded(out) == b64_ungroup(out.take(4)) + base64_decoded(out.skip(4)));
        assert(base64_decoded(out) =~= s);
    } else {
        let head = s.take(3);
        let rest = s.skip(3);
        lemma_b64_group(head);
        lemma_base64_round_trip(rest);
        let g = b64_group(head);
        let r = base64_chars(rest);
        let out = base64_chars(s);
        assert(out == g + r);
        assert(out.take(4) =~= g);
        assert(out.skip(4) =~= r);
        assert(base64_decoded(out) == b64_ungroup(out.take(4)) + base64_decoded(out.skip(4)));
        assert(base64_decoded(out) =~= s);
    }
}

/// Base64 of `n` bytes is `4 * ceil(n / 3)` characters long, ends in exactly
/// `(3 - n % 3) % 3` padding `=` and holds no other `=`, and decodes back to the bytes.
pub proof fn lemma_base64_law(s: Seq<u8>)
    ensures
        base64_chars(s).len() == 4 * ((s.len() + 2) / 3),
        forall|i: int| 0 <= i < base64_chars(s).len() ==> (#[trigger] base64_chars(s)[i] == '=' <==> i
            >= base64_chars(s).len() - b64_padding(s.len())),
        base64_decoded(base64_chars(s)) == s,
{
    lemma_base64_shape(s);
    lemma_base64_round_trip(s);
}

fn b64_char(v: u8) -> (c: char)
    requires
        v < 64,
    ensures
        c == b64_digit(v as nat),
{
    if v < 26 {
        (65u8 + v) as char
    } else if v < 52 {
        (97u8 + (v - 26)) as char
    } else if v < 62 {
        (48u8 + (v - 52)) as char
    } else if v == 62 {
        '+'
    } else {
        '/'
    }
}

/// Encodes bytes as padded base64.
pub fn base64_encode(bytes: &[u8]) -> (out: String)
    ensures
        out@ == base64_chars(bytes@),
{
    let mut out = String::new();
    let n = bytes.len();
    let mut i: usize = 0;
    assert(bytes@.skip(0) =~= bytes@);
    assert(out@ + base64_chars(bytes@) =~= base64_chars(bytes@));
    while i < n
        invariant
            n == bytes@.len(),
            i <= n,
            out@ + base64_chars(bytes@.skip(i as int)) == base64_chars(bytes@),
        decreases n - i,
    {
        let ghost rest = bytes@.skip(i as int);
        let remaining = n - i;
        let b0 = bytes[i];
        let b1 = if remaining > 1 { bytes[i + 1] } else { 0 };
        let b2 = if remaining > 2 { bytes[i + 2] } else { 0 };
        let ghost start = out@;
        proof {
            let v: u32 = ((b0 as u32) * 65536 + (b1 as u32) * 256 + (b2 as u32)) as u32;
            assert(v as nat == (b0 as nat) * 65536 + (b1 as nat) * 256 + (b2 as nat));
            assert((b0 >> 2u8) as u32 == v / 262144) by (bit_vector)
                requires v == (b0 as u32) * 65536 + (b1 as u32) * 256 + (b2 as u32);
            assert((((b0 & 3u8) << 4u8) | (b1 >> 4u8)) as u32 == (v / 4096) % 64) by (bit_vector)
                requires v == (b0 as u32) * 65536 + (b1 as u32) * 256 + (b2 as u32);
            assert((((b1 & 15u8) << 2u8) | (b2 >> 6u8)) as u32 == (v / 64) % 64) by (bit_vector)
                requires v == (b0 as u32) * 65536 + (b1 as u32) * 256 + (b2 as u32);
            assert((b2 & 63u8) as u32 == v % 64) by (bit_vector)
                requires v == (b0 as u32) * 65536 + (b1 as u32) * 256 + (b2 as u32);
            assert((b0 >> 2u8) < 64u8) by (bit_vector);
            assert((((b0 & 3u8) << 4u8) | (b1 >> 4u8)) < 64u8) by (bit_vector);
            assert((((b1 & 15u8) << 2u8) | (b2 >> 6u8)) < 64u8) by (bit_vector);
            assert((b2 & 63u8) < 64u8) by (bit_vector);
        }
        push_char(&mut out, b64_char(b0 >> 2));
        push_char(&mut out, b64_char(((b0 & 3) << 4) | (b1 >> 4)));
        if remaining > 1 {
            push_char(&mut out, b64_char(((b1 & 15) << 2) | (b2 >> 6)));
        } else {
            push_char(&mut out, '=');
        }
        if remaining > 2 {
            push_char(&mut out, b64_char(b2 & 63));
        } else {
            push_char(&mut out, '=');
        }
        proof {
            let g = if remaining > 3 { rest.take(3) } else { rest };
            assert(g[0] == b0);
            assert(g.len() > 1 ==> g[1] == b1);
            assert(g.len() > 2 ==> g[2] == b2);
            assert(out@ == start + b64_group(g));
            if remaining > 3 {
                assert(rest.skip(3) =~= bytes@.skip(i as int + 3));
            } else {
                assert(bytes@.skip(n as int) =~= Seq::<u8>::empty());
            }
        }
        i = if remaining > 3 { i + 3 } else { n };
    }
    proof {
        assert(bytes@.skip(n as int) =~= Seq::<u8>::empty());
        assert(out@ + Seq::<char>::empty() == out@);
    }
    out
}

/// Moves the cursor to the top-left cell of the rectangle.
pub open spec fn cursor_to_rect(cell_rect: CellRect) -> Seq<char> {
    "\x1b["@ + dec_chars((cell_rect.y + 1) as nat) + ";"@ + dec_chars((cell_rect.x + 1) as nat) + "H"@
}

/// The placement keys shared by both forms of the show command.
pub open spec fn placement_keys(cell_rect: CellRect, image: KittyImage, z_index: i32) -> Seq<char> {
    "i="@ + dec_chars(image.image_id as nat) + ",p="@ + dec_chars(image.placement_id as nat) + ",c="@
        + dec_chars(cell_rect.width as nat) + ",r="@ + dec_chars(cell_rect.height as nat) + ",C=1,q=1,z="@
        + int_chars(z_index as int)
}

/// The Kitty graphics command that shows `image` over `cell_rect` at stacking order
/// `z_index`: with `transmit_pixels` it sends the RGBA pixels (base64) with the image,
/// else it only moves the existing placement.
pub open spec fn kitty_present_text(
    rgba: Seq<u8>,
    pixel_width: u32,
    pixel_height: u32,
    cell_rect: CellRect,
    image: KittyImage,
    transmit_pixels: bool,
    z_index: i32,
) -> Seq<char> {
    cursor_to_rect(cell_rect) + if transmit_pixels {
        "\x1b_Ga=T,f=32,s="@ + dec_chars(pixel_width as nat) + ",v="@ + dec_chars(pixel_height as nat) + ","@
            + placement_keys(cell_rect, image, z_index) + ";"@ + base64_chars(rgba) + "\x1b\\"@
    } else {
        "\x1b_Ga=p,"@ + placement_keys(cell_rect, image, z_index) + "\x1b\\"@
    }
}

fn push_placement_keys(out: &mut String, cell_rect: CellRect, image: &KittyImage, z_index: i32)
    ensures
        final(out)@ == old(out)@ + placement_keys(cell_rect, *image, z_index),
{
    let ghost start = out@;
    out.append("i=");
    push_u64(out, image.image_id as u64);
    out.append(",p=");
    push_u64(out, image.placement_id as u64);
    out.append(",c=");
    push_u64(out, cell_rect.width as u64);
    out.append(",r=");
    push_u64(out, cell_rect.height as u64);
    out.append(",C=1,q=1,z=");
    push_i64(out, z_index as i64);
    assert(out@ =~= start + placement_keys(cell_rect, *image, z_index));
}

fn push_cursor_to_rect(out: &mut String, cell_rect: CellRect)
    requires
        cell_rect.x < u16::MAX,
        cell_rect.y < u16::MAX,
    ensures
        final(out)@ == old(out)@ + cursor_to_rect(cell_rect),
{
    let ghost start = out@;
    out.append("\x1b[");
    push_u64(out, (cell_rect.y + 1) as u64);
    out.append(";");
    push_u64(out, (cell_rect.x + 1) as u64);
    out.append("H");
    assert(out@ =~= start + cursor_to_rect(cell_rect));
}

/// The Kitty graphics command that deletes an image placement.
pub open spec fn kitty_delete_text(image: KittyImage) -> Seq<char> {
    "\x1b_Ga=d,d=i,i="@ + dec_chars(image.image_id as nat) + ",p="@ + dec_chars(image.placement_id as nat)
        + ",q=1\x1b\\"@
}

/// Appends the command that shows `image` over `cell_rect` at stacking order zero.
pub fn present_rgba(
    out: &mut String,
    rgba: &[u8],
    pixel_width: u32,
    pixel_height: u32,
    cell_rect: CellRect,
    image: &KittyImage,
    transmit_pixels: bool,
)
    requires
        cell_rect.x < u16::MAX,
        cell_rect.y < u16::MAX,
    ensures
        final(out)@ == old(out)@ + kitty_present_text(rgba@, pixel_width, pixel_height, cell_rect, *image, transmit_pixels, 0),
{
    present_rgba_with_z(out, rgba, pixel_width, pixel_height, cell_rect, image, transmit_pixels, 0);
}

/// Appends the command that shows `image` over `cell_rect` at stacking order `z_index`.
pub fn present_rgba_with_z(
    out: &mut String,
    rgba: &[u8],
    pixel_width: u32,
    pixel_height: u32,
    cell_rect: CellRect,
    image: &KittyImage,
    transmit_pixels: bool,
    z_index: i32,
)
    requires
        cell_rect.x < u16::MAX,
        cell_rect.y < u16::MAX,
    ensures
        final(out)@ == old(out)@ + kitty_present_text(rgba@, pixel_width, pixel_height, cell_rect, *image, transmit_pixels, z_index),
{
    let ghost start = out@;
    push_cursor_to_rect(out, cell_rect);
    let ghost after_cursor = out@;
    if transmit_pixels {
        let payload = base64_encode(rgba);
        out.append("\x1b_Ga=T,f=32,s=");
        push_u64(out, pixel_width as u64);
        out.append(",v=");
        push_u64(out, pixel_height as u64);
        out.append(",");
        push_placement_keys(out, cell_rect, image, z_index);
        out.append(";");
        out.append(payload.as_str());
        out.append("\x1b\\");
        assert(out@ =~= after_cursor + ("\x1b_Ga=T,f=32,s="@ + dec_chars(pixel_width as nat) + ",v="@
            + dec_chars(pixel_height as nat) + ","@ + placement_keys(cell_rect, *image, z_index) + ";"@
            + base64_chars(rgba@) + "\x1b\\"@));
    } else {
        out.append("\x1b_Ga=p,");
        push_placement_keys(out, cell_rect, image, z_index);
        out.append("\x1b\\");
        assert(out@ =~= after_cursor + ("\x1b_Ga=p,"@ + placement_keys(cell_rect, *image, z_index) + "\x1b\\"@));
    }
    assert(out@ =~= start + kitty_present_text(rgba@, pixel_width, pixel_height, cell_rect, *image, transmit_pixels, z_index));
}

/// Appends the command that deletes `image`'s placement.
pub fn delete_image(out: &mut String, image: &KittyImage)
    ensures
        final(out)@ == old(out)@ + kitty_delete_text(*image),
{
    let ghost start = out@;
    out.append("\x1b_Ga=d,d=i,i=");
    push_u64(out, image.image_id as u64);
    out.append(",p=");
    push_u64(out, image.placement_id as u64);
    out.append(",q=1\x1b\\");
    assert(out@ =~= start + kitty_delete_text(*image));
}

/// Whether demo pixel (`x`, `y`) is on the border of the image.
pub open spec fn demo_edge(width: nat, height: nat, x: nat, y: nat) -> bool {
    x == 0 || y == 0 || x == width - 1 || y == height - 1
}

/// Whether demo pixel (`x`, `y`) lies on the diagonal.
pub open spec fn demo_diagonal(width: nat, height: nat, x: nat, y: nat) -> bool {
    x * height / width == y
}

/// The RGBA of demo pixel (`x`, `y`): a yellow border, a cyan diagonal, and a gradient
/// elsewhere.
pub open spec fn demo_pixel(width: nat, height: nat, x: nat, y: nat) -> Seq<u8> {
    if demo_edge(width, height, x, y) {
        seq![255u8, 240u8, 90u8, 255u8]
    } else if demo_diagonal(width, height, x, y) {
        seq![0u8, 220u8, 255u8, 255u8]
    } else {
        seq![(20 + (x * 5) % 256) as u8, (40 + (y * 8) % 256) as u8, 120u8, 255u8]
    }
}

/// The demo image's pixels from row-major index 0 up to `n`.
pub open spec fn demo_pixels(width: nat, height: nat, n: nat) -> Seq<u8>
    decreases n,
{
    if n == 0 || width == 0 {
        seq![]
    } else {
        let k = (n - 1) as nat;
        demo_pixels(width, height, k) + demo_pixel(width, height, k % width, k / width)
    }
}

/// The demo image can be built without overflow: its byte size fits a `u32`, and every
/// gradient pixel's channels fit a byte.
pub open spec fn demo_fits(width: nat, height: nat) -> bool {
    &&& width * height * 4 <= u32::MAX
    &&& forall|x: nat, y: nat| #![trigger demo_edge(width, height, x, y)]
        x < width && y < height && !demo_edge(width, height, x, y) && !demo_diagonal(width, height, x, y)
            ==> x * 5 <= u32::MAX && y * 8 <= u32::MAX && 20 + (x * 5) % 256 <= 255 && 40 + (y * 8) % 256 <= 255
}

/// A `width` by `height` RGBA test pattern.
pub fn make_demo_rgba(width: u32, height: u32) -> (pixels: Vec<u8>)
    requires
        demo_fits(width as nat, height as nat),
    ensures
        pixels@ == demo_pixels(width as nat, height as nat, (width * height) as nat),
{
    let mut pixels: Vec<u8> = Vec::new();
    let mut y: u32 = 0;
    proof { lemma_product_bounds(width as nat, height as nat); }
    while y < height
        invariant
            y <= height,
            demo_fits(width as nat, height as nat),
            width * height <= u32::MAX,
            pixels@ == demo_pixels(width as nat, height as nat, (y * width) as nat),
        decreases height - y,
    {
        let mut x: u32 = 0;
        while x < width
            invariant
                y < height,
                x <= width,
                demo_fits(width as nat, height as nat),
                width * height <= u32::MAX,
                pixels@ == demo_pixels(width as nat, height as nat, (y * width + x) as nat),
            decreases width - x,
        {
            proof {
                lemma_row_major(width as nat, height as nat, x as nat, y as nat);
            }
            let edge = x == 0 || y == 0 || x == width - 1 || y == height - 1;
            let diagonal = x * height / width == y;
            let ghost k = (y * width + x) as nat;
            if edge {
                push_all_rgba(&mut pixels, 255, 240, 90);
            } else if diagonal {
                push_all_rgba(&mut pixels, 0, 220, 255);
            } else {
                assert(demo_edge(width as nat, height as nat, x as nat, y as nat) == edge);
                assert(x * 5 <= u32::MAX && y * 8 <= u32::MAX);
                let r: u8 = 20 + ((x * 5) % 256) as u8;
                let g: u8 = 40 + ((y * 8) % 256) as u8;
                push_all_rgba(&mut pixels, r, g, 120);
            }
            assert(pixels@ =~= demo_pixels(width as nat, height as nat, k) + demo_pixel(width as nat, height as nat, x as nat, y as nat));
            x = x + 1;
        }
        proof {
            assert((y * width + width) as nat == ((y + 1) * width) as nat) by (nonlinear_arith);
        }
        y = y + 1;
    }
    proof {
        assert((height * width) as nat == (width * height) as nat) by (nonlinear_arith);
    }
    pixels
}

proof fn lemma_product_bounds(width: nat, height: nat)
    requires
        width * height * 4 <= u32::MAX,
    ensures
        width * height <= u32::MAX,
{
}

proof fn lemma_row_major(width: nat, height: nat, x: nat, y: nat)
    requires
        x < width,
        y < height,
        width * height <= u32::MAX,
    ensures
        (y * width + x) % width == x,
        (y * width + x) / width == y,
        y * width + x < width * height,
        x * height <= u32::MAX,
{
    assert((y * width + x) % width == x && (y * width + x) / width == y) by (nonlinear_arith)
        requires x < width, y >= 0;
    assert(y * width + x < width * height) by (nonlinear_arith)
        requires x < width, y < height;
    assert(x * height <= width * height) by (nonlinear_arith)
        requires x < width;
}

fn push_all_rgba(pixels: &mut Vec<u8>, r: u8, g: u8, b: u8)
    ensures
        final(pixels)@ == old(pixels)@ + seq![r, g, b, 255u8],
{
    pixels.push(r);
    pixels.push(g);
    pixels.push(b);
    pixels.push(255u8);
    assert(pixels@ =~= old(pixels)@ + seq![r, g, b, 255u8]);
}

} // verus!
