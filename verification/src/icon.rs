//! The window icon: three square images, decoded from PNG files and laid out
//! as the three byte buffers that the window system takes.

use vstd::prelude::*;

verus! {

/// Bytes in the buffer of the small icon: 16 by 16 pixels of four bytes.
pub const SMALL_ICON_BYTES: usize = 1024;

/// Bytes in the buffer of the medium icon: 32 by 32 pixels of four bytes.
pub const MEDIUM_ICON_BYTES: usize = 4096;

/// Bytes in the buffer of the big icon: 64 by 64 pixels of four bytes.
pub const BIG_ICON_BYTES: usize = 16384;

/// The three buffers of an icon, each holding red, green, blue and alpha of
/// one pixel after the other.
#[derive(Clone, Copy, Debug)]
pub struct Icon {
    pub small: [u8; 1024],
    pub medium: [u8; 4096],
    pub big: [u8; 16384],
}

/// One of the three images of an icon.
#[derive(Clone, Copy, Debug, PartialEq, Eq, Structural)]
pub enum IconSize {
    Small,
    Medium,
    Big,
}

/// Why an icon could not be made.
#[derive(Clone, Copy, Debug, PartialEq, Eq, Structural)]
pub enum IconError {
    /// The file of this image is no PNG file that can be decoded.
    Undecodable(IconSize),
    /// This image has more pixels than its buffer holds.
    TooLarge(IconSize),
}

#[verifier::external_type_specification]
#[verifier::external_body]
pub struct ExDecodeError(macroquad::Error);

/// The pixels of a PNG file as red, green, blue and alpha bytes, row by row,
/// or `None` where the bytes are no PNG file that can be decoded.
pub uninterp spec fn png_rgba(file: Seq<u8>) -> Option<Seq<u8>>;

/// Decodes a PNG file.
///
/// Calls `macroquad::texture::Image::from_file_with_format` with the PNG
/// format and hands out the bytes of the image it returns. The contract gives
/// that result its name, `png_rgba`: the bytes depend on the file alone, and
/// an error comes exactly where there are none.
#[verifier::external_body]
fn decode_png(file: &[u8]) -> (r: Result<Vec<u8>, macroquad::Error>)
    ensures
        r matches Ok(rgba) ==> png_rgba(file@) == Some(rgba@),
        r is Err ==> png_rgba(file@) is None,
{
    let format = Some(macroquad::prelude::ImageFormat::Png);
    match macroquad::texture::Image::from_file_with_format(file, format) {
        Ok(image) => Ok(image.bytes),
        Err(e) => Err(e),
    }
}

/// The bytes of `rgba` in groups of four, one group for each whole pixel.
pub open spec fn spec_pixel_data(rgba: Seq<u8>) -> Seq<Seq<u8>> {
    Seq::new((rgba.len() / 4) as nat, |i: int| rgba.subrange(4 * i, 4 * i + 4))
}

/// The pixels of a list as sequences of bytes.
pub open spec fn pixel_seqs(pixels: Seq<[u8; 4]>) -> Seq<Seq<u8>> {
    Seq::new(pixels.len(), |i: int| pixels[i]@)
}

/// A buffer of `size` bytes that starts with the bytes of `pixels`, pixel
/// after pixel, and is zero from there on.
pub open spec fn spec_buffer(pixels: Seq<Seq<u8>>, size: nat) -> Seq<u8> {
    Seq::new(
        size,
        |k: int|
            if k < 4 * pixels.len() {
                pixels[k / 4][k % 4]
            } else {
                0u8
            },
    )
}

/// What making the buffer of `size` bytes for one decoded image gives: the
/// buffer, or the reason why there is none.
pub open spec fn spec_icon_buffer(decoded: Option<Seq<u8>>, which: IconSize, size: nat) -> Result<
    Seq<u8>,
    IconError,
> {
    match decoded {
        None => Err(IconError::Undecodable(which)),
        Some(rgba) => if 4 * (rgba.len() / 4) > size {
            Err(IconError::TooLarge(which))
        } else {
            Ok(spec_buffer(spec_pixel_data(rgba), size))
        },
    }
}

/// What making an icon from three decoded images gives: the three buffers,
/// or the first reason in the order small, medium, big why there are none.
pub open spec fn spec_icon(
    small: Option<Seq<u8>>,
    medium: Option<Seq<u8>>,
    big: Option<Seq<u8>>,
) -> Result<(Seq<u8>, Seq<u8>, Seq<u8>), IconError> {
    match spec_icon_buffer(small, IconSize::Small, SMALL_ICON_BYTES as nat) {
        Err(e) => Err(e),
        Ok(s) => match spec_icon_buffer(medium, IconSize::Medium, MEDIUM_ICON_BYTES as nat) {
            Err(e) => Err(e),
            Ok(m) => match spec_icon_buffer(big, IconSize::Big, BIG_ICON_BYTES as nat) {
                Err(e) => Err(e),
                Ok(b) => Ok((s, m, b)),
            },
        },
    }
}

/// Whether `result` is what `expected` describes: the same error, or an icon
/// with the three buffers.
pub open spec fn icon_matches(
    result: Result<Icon, IconError>,
    expected: Result<(Seq<u8>, Seq<u8>, Seq<u8>), IconError>,
) -> bool {
    match (result, expected) {
        (Ok(icon), Ok((s, m, b))) => icon.small@ == s && icon.medium@ == m && icon.big@ == b,
        (Err(e), Err(f)) => e == f,
        _ => false,
    }
}

/// Splits decoded bytes into pixels of four bytes. Bytes after the last whole
/// pixel are left out.
pub fn pixel_data(rgba: &[u8]) -> (pixels: Vec<[u8; 4]>)
    ensures
        pixel_seqs(pixels@) == spec_pixel_data(rgba@),
{
    let count: usize = rgba.len() / 4;
    let mut pixels: Vec<[u8; 4]> = Vec::new();
    let mut i: usize = 0;
    while i < count
        invariant
            count == rgba@.len() / 4,
            4 * count <= rgba@.len() <= usize::MAX,
            i <= count,
            pixels@.len() == i,
            forall|p: int| 0 <= p < i ==> (#[trigger] pixels@[p])@ == rgba@.subrange(4 * p, 4 * p + 4),
        decreases count - i,
    {
        let pixel: [u8; 4] = [rgba[4 * i], rgba[4 * i + 1], rgba[4 * i + 2], rgba[4 * i + 3]];
        assert(pixel@ =~= rgba@.subrange(4 * i, 4 * i + 4));
        pixels.push(pixel);
        i = i + 1;
    }
    assert(pixel_seqs(pixels@) =~= spec_pixel_data(rgba@));
    pixels
}

/// Writes the bytes of `pixels`, pixel after pixel, to the start of `array`
/// and leaves the rest of it as it was.
pub fn populate_array(pixels: &[[u8; 4]], array: &mut [u8])
    requires
        4 * pixels@.len() <= old(array)@.len(),
    ensures
        final(array)@.len() == old(array)@.len(),
        forall|k: int| 0 <= k < 4 * pixels@.len() ==> final(array)@[k] == pixels@[k / 4]@[k % 4],
        forall|k: int| 4 * pixels@.len() <= k < old(array)@.len() ==> final(array)@[k] == old(array)@[k],
{
    let mut index: usize = 0;
    let mut i: usize = 0;
    while i < pixels.len()
        invariant
            4 * pixels@.len() <= old(array)@.len(),
            array@.len() == old(array)@.len(),
            i <= pixels@.len(),
            index == 4 * i,
            forall|k: int| 0 <= k < index ==> array@[k] == pixels@[k / 4]@[k % 4],
            forall|k: int| index <= k < array@.len() ==> array@[k] == old(array)@[k],
        decreases pixels@.len() - i,
    {
        let mut j: usize = 0;
        while j < 4
            invariant
                4 * pixels@.len() <= old(array)@.len(),
                array@.len() == old(array)@.len(),
                i < pixels@.len(),
                j <= 4,
                index == 4 * i + j,
                forall|k: int| 0 <= k < index ==> array@[k] == pixels@[k / 4]@[k % 4],
                forall|k: int| index <= k < array@.len() ==> array@[k] == old(array)@[k],
            decreases 4 - j,
        {
            array[index] = pixels[i][j];
            index = index + 1;
            j = j + 1;
        }
        i = i + 1;
    }
}

/// Makes the buffer of `N` bytes for one decoded image.
pub fn icon_buffer<const N: usize>(decoded: Option<Vec<u8>>, which: IconSize) -> (r: Result<
    [u8; N],
    IconError,
>)
    ensures
        match spec_icon_buffer(
            match decoded {
                Some(rgba) => Some(rgba@),
                None => None,
            },
            which,
            N as nat,
        ) {
            Ok(buffer) => r matches Ok(array) && array@ == buffer,
            Err(e) => r == Err::<[u8; N], IconError>(e),
        },
{
    match decoded {
        None => Err(IconError::Undecodable(which)),
        Some(rgba) => {
            let pixels: Vec<[u8; 4]> = pixel_data(rgba.as_slice());
            assert(pixels@.len() == pixel_seqs(pixels@).len());
            if pixels.len() > N / 4 {
                Err(IconError::TooLarge(which))
            } else {
                let mut array: [u8; N] = [0u8; N];
                populate_array(pixels.as_slice(), &mut array);
                assert(array@ =~= spec_buffer(spec_pixel_data(rgba@), N as nat)) by {
                    assert forall|k: int| 0 <= k < N implies #[trigger] array@[k] == spec_buffer(
                        spec_pixel_data(rgba@),
                        N as nat,
                    )[k] by {
                        if k < 4 * pixels@.len() {
                            assert(pixel_seqs(pixels@)[k / 4] == pixels@[k / 4]@);
                        }
                    }
                }
                Ok(array)
            }
        },
    }
}

/// Makes an icon from what decoding the three files gave, `None` standing for
/// a file that could not be decoded.
pub fn icon_from_decoded(
    small: Option<Vec<u8>>,
    medium: Option<Vec<u8>>,
    big: Option<Vec<u8>>,
) -> (r: Result<Icon, IconError>)
    ensures
        icon_matches(
            r,
            spec_icon(
                match small {
                    Some(rgba) => Some(rgba@),
                    None => None,
                },
                match medium {
                    Some(rgba) => Some(rgba@),
                    None => None,
                },
                match big {
                    Some(rgba) => Some(rgba@),
                    None => None,
                },
            ),
        ),
{
    let small_buffer: [u8; 1024] = match icon_buffer::<1024>(small, IconSize::Small) {
        Ok(buffer) => buffer,
        Err(e) => {
            return Err(e);
        },
    };
    let medium_buffer: [u8; 4096] = match icon_buffer::<4096>(medium, IconSize::Medium) {
        Ok(buffer) => buffer,
        Err(e) => {
            return Err(e);
        },
    };
    let big_buffer: [u8; 16384] = match icon_buffer::<16384>(big, IconSize::Big) {
        Ok(buffer) => buffer,
        Err(e) => {
            return Err(e);
        },
    };
    Ok(Icon { small: small_buffer, medium: medium_buffer, big: big_buffer })
}

/// Decodes one file of the icon.
fn decoded(file: &[u8]) -> (r: Option<Vec<u8>>)
    ensures
        match r {
            Some(rgba) => png_rgba(file@) == Some(rgba@),
            None => png_rgba(file@) is None,
        },
{
    match decode_png(file) {
        Ok(rgba) => Some(rgba),
        Err(_) => None,
    }
}

/// Makes the window's icon from the PNG files of its three images.
pub fn icon_formatter(small_png: &[u8], medium_png: &[u8], big_png: &[u8]) -> (r: Result<
    Icon,
    IconError,
>)
    ensures
        icon_matches(r, spec_icon(png_rgba(small_png@), png_rgba(medium_png@), png_rgba(big_png@))),
{
    let small: Option<Vec<u8>> = decoded(small_png);
    let medium: Option<Vec<u8>> = decoded(medium_png);
    let big: Option<Vec<u8>> = decoded(big_png);
    assert(png_rgba(small_png@) == match small {
        Some(rgba) => Some(rgba@),
        None => None,
    });
    assert(png_rgba(medium_png@) == match medium {
        Some(rgba) => Some(rgba@),
        None => None,
    });
    assert(png_rgba(big_png@) == match big {
        Some(rgba) => Some(rgba@),
        None => None,
    });
    icon_from_decoded(small, medium, big)
}

} // verus!
