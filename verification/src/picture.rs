//! A bitmap member rendered to PNG, as base64, with its metadata.
use vstd::prelude::*;
use base64::Engine;
use image::{Rgba, RgbaImage};
use crate::casts::{effective_reg_point, reg_point_of};
use crate::lookup::{cast_index, cast_pos, member_index, member_pos};
use crate::messages::{cast_not_found, cast_not_found_msg, member_not_found, member_not_found_msg, wrong_kind, wrong_kind_msg};
use crate::model::{Bitmap, BitmapMember, CastMemberKind, DirPlayer};
use crate::response::{CastMemberPictureView, McpCastMemberPicture, McpError};
use crate::text::{decimal, hex_bytes, push_decimal, push_hex_bytes};

verus! {

/// An `image` RGBA image, held opaquely.
#[verifier::external_body]
pub struct Canvas {
    image: RgbaImage,
}

/// The width an RGBA image was made with.
pub uninterp spec fn image_width(img: Canvas) -> u32;

/// The height an RGBA image was made with.
pub uninterp spec fn image_height(img: Canvas) -> u32;

/// The pixels of an RGBA image, row by row: pixel `(x, y)` at `y * width + x`.
pub uninterp spec fn image_pixels(img: Canvas) -> Seq<(u8, u8, u8, u8)>;

/// The PNG file that `image` writes for RGBA pixels of the given size.
pub uninterp spec fn png_encoding(width: u32, height: u32, pixels: Seq<(u8, u8, u8, u8)>) -> Seq<u8>;

/// The character of a 6-bit value in the standard base64 alphabet.
pub open spec fn base64_char(v: int) -> char {
    if v < 26 {
        (65 + v) as char
    } else if v < 52 {
        (97 + v - 26) as char
    } else if v < 62 {
        (48 + v - 52) as char
    } else if v == 62 {
        '+'
    } else {
        '/'
    }
}

/// The standard base64 encoding of bytes: each group of three bytes gives
/// four characters of six bits each; a last group of one or two bytes is
/// padded with `=` to four characters.
pub open spec fn base64_standard(b: Seq<u8>) -> Seq<char>
    decreases b.len(),
{
    if b.len() == 0 {
        Seq::empty()
    } else if b.len() == 1 {
        seq![base64_char((b[0] / 4) as int), base64_char(((b[0] % 4) * 16) as int), '=', '=']
    } else if b.len() == 2 {
        seq![
            base64_char((b[0] / 4) as int),
            base64_char(((b[0] % 4) * 16 + b[1] / 16) as int),
            base64_char(((b[1] % 16) * 4) as int),
            '=',
        ]
    } else {
        seq![
            base64_char((b[0] / 4) as int),
            base64_char(((b[0] % 4) * 16 + b[1] / 16) as int),
            base64_char(((b[1] % 16) * 4 + b[2] / 64) as int),
            base64_char((b[2] % 64) as int),
        ] + base64_standard(b.subrange(3, b.len() as int))
    }
}

/// `n` transparent black pixels.
pub open spec fn blank_pixels(n: nat) -> Seq<(u8, u8, u8, u8)> {
    Seq::new(n, |i: int| (0u8, 0u8, 0u8, 0u8))
}

/// Calls `ImageBuffer::new` for RGBA pixels: trusted to give an image of the
/// given size with every pixel zero.  It panics when the buffer is larger
/// than a vector can be (`isize::MAX` bytes), which `requires` leaves out.
#[verifier::external_body]
fn new_rgba_image(width: u32, height: u32) -> (img: Canvas)
    requires
        width as int * height as int * 4 <= isize::MAX,
    ensures
        image_width(img) == width,
        image_height(img) == height,
        image_pixels(img) == blank_pixels((width * height) as nat),
{
    Canvas { image: RgbaImage::new(width, height) }
}

/// Calls `ImageBuffer::put_pixel`: trusted to set pixel `(x, y)` and keep
/// every other pixel and the size.  It panics outside the image, which
/// `requires` leaves out.
#[verifier::external_body]
fn put_rgba_pixel(img: &mut Canvas, x: u32, y: u32, px: (u8, u8, u8, u8))
    requires
        x < image_width(*old(img)),
        y < image_height(*old(img)),
    ensures
        image_width(*final(img)) == image_width(*old(img)),
        image_height(*final(img)) == image_height(*old(img)),
        image_pixels(*final(img)) == image_pixels(*old(img)).update(
            y * image_width(*old(img)) + x,
            px,
        ),
{
    img.image.put_pixel(x, y, Rgba([px.0, px.1, px.2, px.3]));
}

/// The PNG writer's refusal of an image with zero width (given the width)
/// or else zero height.
pub open spec fn zero_size_text(width: u32) -> Seq<char> {
    if width == 0 {
        "Zero width not allowed"@
    } else {
        "Zero height not allowed"@
    }
}

/// Calls `ImageBuffer::write_to` with the PNG format into a byte buffer,
/// and gives an error as its text.  Trusted to give the PNG encoding of the
/// image, a buffer of at most `isize::MAX` bytes like every `Vec<u8>`, for
/// an image with width and height; the PNG writer refuses an image without
/// width ("Zero width not allowed") or else without height ("Zero height not
/// allowed"), and writing into memory cannot fail otherwise.
#[verifier::external_body]
fn encode_png(img: &Canvas) -> (r: Result<Vec<u8>, String>)
    ensures
        r matches Ok(bytes) ==> bytes@ == png_encoding(image_width(*img), image_height(*img), image_pixels(*img)),
        r matches Ok(bytes) ==> bytes@.len() <= isize::MAX,
        r is Err <==> image_width(*img) == 0 || image_height(*img) == 0,
        r matches Err(e) ==> e@ == zero_size_text(image_width(*img)),
{
    let mut png_bytes: Vec<u8> = Vec::new();
    match img.image.write_to(&mut std::io::Cursor::new(&mut png_bytes), image::ImageFormat::Png) {
        Ok(()) => Ok(png_bytes),
        Err(e) => Err(e.to_string()),
    }
}

/// The length of the padded base64 encoding of `n` bytes.
pub open spec fn base64_len(n: nat) -> int {
    (n / 3) * 4 + (if n % 3 > 0 { 4int } else { 0int })
}

/// Calls the standard base64 engine's `encode`: trusted to give the padded
/// standard encoding.  It panics when the encoding is longer than a vector
/// can be (`isize::MAX` bytes), which `requires` leaves out.
#[verifier::external_body]
fn base64_encode(bytes: &Vec<u8>) -> (r: String)
    requires
        base64_len(bytes@.len()) <= isize::MAX,
    ensures
        r@ == base64_standard(bytes@),
{
    base64::engine::general_purpose::STANDARD.encode(bytes)
}

/// A pixel as the PNG shows it: a 32-bit bitmap without alpha has a stored
/// alpha that means nothing, so a pixel with any colour is made opaque.
pub open spec fn shown_pixel(force_opaque: bool, px: (u8, u8, u8, u8)) -> (u8, u8, u8, u8) {
    if force_opaque && (px.0 != 0 || px.1 != 0 || px.2 != 0) {
        (px.0, px.1, px.2, 255u8)
    } else {
        px
    }
}

/// The 32-bit bitmaps without alpha get their coloured pixels made opaque.
pub open spec fn forces_opaque(b: Bitmap) -> bool {
    b.bit_depth == 32 && !b.use_alpha
}

/// The pixels a bitmap's PNG shows.
pub open spec fn shown_pixels(b: Bitmap) -> Seq<(u8, u8, u8, u8)> {
    Seq::new(b.pixels@.len(), |i: int| shown_pixel(forces_opaque(b), b.pixels@[i]))
}

/// A decoded bitmap's pixel table covers it, and its RGBA buffer fits in
/// memory.
pub open spec fn bitmap_fits(b: Bitmap) -> bool {
    &&& b.pixels@.len() == b.width as int * b.height as int
    &&& b.width as int * b.height as int * 4 <= isize::MAX
}

proof fn lemma_row_step(y: int, w: int)
    requires
        0 <= y,
        0 <= w,
    ensures
        y * w + w == (y + 1) * w,
{
    assert(y * w + w == (y + 1) * w) by (nonlinear_arith);
}

proof fn lemma_row_bound(y: int, x: int, w: int, h: int)
    requires
        0 <= y < h,
        0 <= x < w,
    ensures
        y * w + x < w * h,
{
    assert(y * w + x < w * h) by (nonlinear_arith)
        requires
            0 <= y < h,
            0 <= x < w,
    ;
}

/// Renders a bitmap's shown pixels to PNG.
fn render_png(b: &Bitmap) -> (r: Result<Vec<u8>, String>)
    requires
        bitmap_fits(*b),
    ensures
        match r {
            Ok(bytes) => png_outcome(*b) == Ok::<Seq<u8>, Seq<char>>(bytes@) && bytes@.len() <= isize::MAX,
            Err(e) => png_outcome(*b) == Err::<Seq<u8>, Seq<char>>(e@),
        },
{
    let width = b.width as u32;
    let height = b.height as u32;
    let force_opaque_32bpp = b.bit_depth == 32 && !b.use_alpha;
    let ghost n = (width * height) as nat;
    let mut img = new_rgba_image(width, height);
    let ghost want = shown_pixels(*b);
    let mut k: usize = 0;
    let mut y: u32 = 0;
    while y < height
        invariant
            bitmap_fits(*b),
            width == b.width,
            height == b.height,
            force_opaque_32bpp == forces_opaque(*b),
            want == shown_pixels(*b),
            n == width * height,
            y <= height,
            k == y * width,
            image_width(img) == width,
            image_height(img) == height,
            image_pixels(img) =~= Seq::new(n, |i: int| if i < k { want[i] } else { (0u8, 0u8, 0u8, 0u8) }),
        decreases height - y,
    {
        let mut x: u32 = 0;
        while x < width
            invariant
                bitmap_fits(*b),
                width == b.width,
                height == b.height,
                force_opaque_32bpp == forces_opaque(*b),
                want == shown_pixels(*b),
                n == width * height,
                y < height,
                x <= width,
                k == y * width + x,
                image_width(img) == width,
                image_height(img) == height,
                image_pixels(img) =~= Seq::new(n, |i: int| if i < k { want[i] } else { (0u8, 0u8, 0u8, 0u8) }),
            decreases width - x,
        {
            proof {
                lemma_row_bound(y as int, x as int, width as int, height as int);
            }
            let (r, g, bl, a) = b.pixels[k];
            let mut a = a;
            if force_opaque_32bpp && (r != 0 || g != 0 || bl != 0) {
                a = 255;
            }
            let ghost before = image_pixels(img);
            put_rgba_pixel(&mut img, x, y, (r, g, bl, a));
            proof {
                assert(before.update(k as int, (r, g, bl, a)) =~= Seq::new(n, |i: int| if i < k + 1 { want[i] } else { (0u8, 0u8, 0u8, 0u8) }));
            }
            k = k + 1;
            x = x + 1;
        }
        proof {
            lemma_row_step(y as int, width as int);
        }
        y = y + 1;
    }
    proof {
        assert(height as int * width as int == width as int * height as int) by (nonlinear_arith);
    }
    assert(image_pixels(img) =~= want);
    encode_png(&img)
}

/// "Bitmap data for cast member N/M not loaded"
pub open spec fn not_loaded_msg(cast_lib: i32, cast_member: i32) -> Seq<char> {
    "Bitmap data for cast member "@ + decimal(cast_lib as int) + "/"@ + decimal(cast_member as int) + " not loaded"@
}

/// The picture of a loaded bitmap member, given the base64 of its PNG.
pub open spec fn picture_view(
    cast_lib: i32,
    cast_member: i32,
    name: Seq<char>,
    reg: (i16, i16),
    b: Bitmap,
    png_base64: Seq<char>,
) -> CastMemberPictureView {
    CastMemberPictureView {
        cast_lib,
        cast_member,
        name,
        width: b.width,
        height: b.height,
        bit_depth: b.bit_depth,
        original_bit_depth: b.original_bit_depth,
        reg_x: reg.0,
        reg_y: reg.1,
        use_alpha: b.use_alpha,
        palette_ref: b.palette_ref@,
        data_len: b.data@.len() as usize,
        data_head_hex: hex_bytes(b.data@.take(if b.data@.len() < 64 { b.data@.len() as int } else { 64 })),
        png_base64,
    }
}

/// What the PNG encoder gives for a bitmap: the error text for a bitmap
/// without width or height, else the PNG file of its shown pixels.
pub open spec fn png_outcome(b: Bitmap) -> Result<Seq<u8>, Seq<char>> {
    if b.width == 0 {
        Err("Zero width not allowed"@)
    } else if b.height == 0 {
        Err("Zero height not allowed"@)
    } else {
        Ok(png_encoding(b.width as u32, b.height as u32, shown_pixels(b)))
    }
}

/// The text of a PNG encoding error starts so.
pub open spec fn png_failed_prefix() -> Seq<char> {
    "PNG encoding failed: "@
}

/// The error of a PNG file whose base64 text would not fit in memory.
pub open spec fn too_large_msg() -> Seq<char> {
    "PNG too large to encode as base64"@
}

/// The picture answer given what the PNG encoder gave: the encoder's error
/// after a prefix; an error when the base64 text would not fit in memory;
/// else the picture with the base64 text of the PNG file.
pub open spec fn picture_from_png_answer(
    cast_lib: i32,
    cast_member: i32,
    name: Seq<char>,
    bm: BitmapMember,
    b: Bitmap,
    png: Result<Seq<u8>, Seq<char>>,
) -> Result<CastMemberPictureView, Seq<char>> {
    match png {
        Ok(bytes) => if base64_len(bytes.len()) <= isize::MAX {
            Ok(picture_view(cast_lib, cast_member, name, effective_reg_point(bm), b, base64_standard(bytes)))
        } else {
            Err(too_large_msg())
        },
        Err(text) => Err(png_failed_prefix() + text),
    }
}

/// An encoder result by its views.
pub open spec fn png_view(png: Result<Vec<u8>, String>) -> Result<Seq<u8>, Seq<char>> {
    match png {
        Ok(bytes) => Ok(bytes@),
        Err(text) => Err(text@),
    }
}

/// The answer to a picture query: an error when the library, the member, a
/// bitmap, or its loaded data is not there; else the picture with the base64
/// text of the PNG file of its shown pixels, or the error that encoding
/// gives.
pub open spec fn picture_answer(p: DirPlayer, cast_lib: i32, cast_member: i32) -> Result<CastMemberPictureView, Seq<char>> {
    match cast_pos(p.casts@, cast_lib as u32) {
        None => Err(cast_not_found_msg(cast_lib)),
        Some(c) => match member_pos(p.casts@[c].members@, cast_member as u32) {
            None => Err(member_not_found_msg(cast_lib, cast_member)),
            Some(m) => {
                let member = p.casts@[c].members@[m].1;
                match member.kind {
                    CastMemberKind::Bitmap(bm) => match bm.image {
                        Some(b) => picture_from_png_answer(cast_lib, cast_member, member.name@, bm, b, png_outcome(b)),
                        None => Err(not_loaded_msg(cast_lib, cast_member)),
                    },
                    _ => Err(wrong_kind_msg(cast_lib, cast_member, "Bitmap"@, member.type_label@)),
                }
            },
        },
    }
}

/// The loaded bitmap a picture query names, if there is one.
pub open spec fn picture_bitmap(p: DirPlayer, cast_lib: i32, cast_member: i32) -> Option<Bitmap> {
    match cast_pos(p.casts@, cast_lib as u32) {
        Some(c) => match member_pos(p.casts@[c].members@, cast_member as u32) {
            Some(m) => match p.casts@[c].members@[m].1.kind {
                CastMemberKind::Bitmap(bm) => bm.image,
                _ => None,
            },
            None => None,
        },
        None => None,
    }
}

/// The picture answer once the PNG encoder has run: its error text after
/// the prefix when it failed, an error when the base64 text of the PNG file
/// would not fit in memory, else the member's picture with the base64 of the
/// PNG bytes and the first 64 bytes of the raw data in hex.
pub fn picture_from_png(
    cast_lib: i32,
    cast_member: i32,
    name: &String,
    bitmap_member: &BitmapMember,
    bitmap: &Bitmap,
    png: Result<Vec<u8>, String>,
) -> (r: Result<McpCastMemberPicture, McpError>)
    ensures
        crate::response::answers(
            r,
            picture_from_png_answer(cast_lib, cast_member, name@, *bitmap_member, *bitmap, png_view(png)),
        ),
{
    let png_bytes = match png {
        Ok(bytes) => bytes,
        Err(text) => {
            let mut msg = String::from_str("PNG encoding failed: ");
            msg.append(text.as_str());
            return Err(McpError { error: msg });
        },
    };
    let n = png_bytes.len() as u128;
    let encoded: u128 = (n / 3) * 4 + if n % 3 > 0 { 4 } else { 0 };
    if encoded > isize::MAX as u128 {
        return Err(McpError { error: String::from_str("PNG too large to encode as base64") });
    }
    let png_base64 = base64_encode(&png_bytes);
    let data_len = bitmap.data.len();
    let head_len: usize = if data_len < 64 { data_len } else { 64 };
    let mut data_head_hex = String::new();
    let mut head: Vec<u8> = Vec::new();
    let mut i: usize = 0;
    while i < head_len
        invariant
            head_len <= bitmap.data@.len(),
            i <= head_len,
            head@ =~= bitmap.data@.take(i as int),
        decreases head_len - i,
    {
        head.push(bitmap.data[i]);
        i = i + 1;
    }
    push_hex_bytes(&mut data_head_hex, head.as_slice());
    assert(data_head_hex@ =~= hex_bytes(bitmap.data@.take(head_len as int)));
    let (reg_x, reg_y) = reg_point_of(bitmap_member);
    Ok(
        McpCastMemberPicture {
            cast_lib,
            cast_member,
            name: name.clone(),
            width: bitmap.width,
            height: bitmap.height,
            bit_depth: bitmap.bit_depth,
            original_bit_depth: bitmap.original_bit_depth,
            reg_x,
            reg_y,
            use_alpha: bitmap.use_alpha,
            palette_ref: bitmap.palette_ref.clone(),
            data_len,
            data_head_hex,
            png_base64,
        },
    )
}

/// Renders a bitmap member to PNG (colours resolved through its palette) and
/// gives it as base64, with the member's metadata and the first 64 bytes of
/// its raw data in hex.  A bitmap without width or height cannot be
/// encoded.
pub fn mcp_get_cast_member_picture(player: &DirPlayer, cast_lib: i32, cast_member: i32) -> (r: Result<McpCastMemberPicture, McpError>)
    requires
        picture_bitmap(*player, cast_lib, cast_member) matches Some(b) ==> bitmap_fits(b),
    ensures
        crate::response::answers(r, picture_answer(*player, cast_lib, cast_member)),
{
    let c = match cast_index(&player.casts, cast_lib as u32) {
        Some(c) => c,
        None => {
            return Err(cast_not_found(cast_lib));
        },
    };
    let cast = &player.casts[c];
    let m = match member_index(&cast.members, cast_member as u32) {
        Some(m) => m,
        None => {
            return Err(member_not_found(cast_lib, cast_member));
        },
    };
    let member = &cast.members[m].1;
    let bitmap_member = match &member.kind {
        CastMemberKind::Bitmap(bm) => bm,
        _ => {
            return Err(wrong_kind(cast_lib, cast_member, "Bitmap", &member.type_label));
        },
    };
    let bitmap = match &bitmap_member.image {
        Some(b) => b,
        None => {
            let mut msg = String::from_str("Bitmap data for cast member ");
            push_decimal(&mut msg, cast_lib as i64);
            msg.append("/");
            push_decimal(&mut msg, cast_member as i64);
            msg.append(" not loaded");
            return Err(McpError { error: msg });
        },
    };
    let png = render_png(bitmap);
    picture_from_png(cast_lib, cast_member, &member.name, bitmap_member, bitmap, png)
}

} // verus!
