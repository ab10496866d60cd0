use vstd::prelude::*;
use crate::frame::{Frame, joined, lemma_joined_split, lemma_rgba_round_trip, without_alpha};
use crate::naming::ExportFormat;

verus! {

/// The PNG file that the image crate's PNG encoder writes for an RGBA image.
pub uninterp spec fn png_file(width: u32, height: u32, rgba: Seq<u8>) -> Seq<u8>;

/// The JPEG file that the image crate's JPEG encoder, at its default
/// quality, writes for an RGBA image.
pub uninterp spec fn jpeg_file(width: u32, height: u32, rgba: Seq<u8>) -> Seq<u8>;

/// The one-frame GIF file, with an empty global palette, that the gif crate
/// writes for an RGB image.
pub uninterp spec fn gif_file(width: u16, height: u16, rgb: Seq<u8>) -> Seq<u8>;

/// What the image crate reads from an image file: its width, its height and
/// its pixels as RGBA bytes; `None` where it cannot read it.
pub uninterp spec fn decoded_image(file: Seq<u8>) -> Option<(u32, u32, Seq<u8>)>;

/// The image reader reads the file as an image of the given size.
pub open spec fn reads_as_size(file: Seq<u8>, width: nat, height: nat) -> bool {
    decoded_image(file) matches Some(t) && t.0 == width && t.1 == height
}

/// RGBA sizes, in bytes, up to which a written file is known to be read back:
/// the GIF reader refuses frames over 50 MB of RGBA, and the others allow more.
pub const READ_BACK_BYTES: u64 = 40_000_000;

/// Relies on image's PngEncoder (new, then ImageEncoder::write_image with
/// RGBA8 pixels), which encodes the image as PNG and panics unless the
/// buffer holds four bytes for every pixel. Through the png crate it fails
/// only on a zero side, and a `Vec` sink never fails. image's PNG reader gives
/// the RGBA8 pixels back unchanged, within its default memory limit.
#[verifier::external_body]
fn write_png_file(rgba: &[u8], width: u32, height: u32) -> (r: Option<Vec<u8>>)
    requires
        rgba@.len() == 4 * width * height,
    ensures
        width > 0 && height > 0 ==> r is Some,
        r matches Some(b) ==> b@ == png_file(width, height, rgba@),
        r matches Some(b) ==> (4 * width * height <= READ_BACK_BYTES ==> decoded_image(b@) == Some(
            (width, height, rgba@),
        )),
{
    let mut out: Vec<u8> = Vec::new();
    let encoder = image::codecs::png::PngEncoder::new(&mut out);
    match image::ImageEncoder::write_image(encoder, rgba, width, height, image::ColorType::Rgba8) {
        Ok(()) => Some(out),
        Err(_) => None,
    }
}

/// Relies on image's JpegEncoder (new, at quality 75, then encode with RGBA8
/// pixels), which encodes the image as JPEG and panics unless the buffer
/// holds four bytes for every pixel. It fails only on a side above 65535, and
/// a `Vec` sink never fails. jpeg-decoder reads the size back from the frame
/// header, which it refuses when a side is zero.
#[verifier::external_body]
fn write_jpeg_file(rgba: &[u8], width: u32, height: u32) -> (r: Option<Vec<u8>>)
    requires
        rgba@.len() == 4 * width * height,
    ensures
        width <= 65535 && height <= 65535 ==> r is Some,
        r matches Some(b) ==> b@ == jpeg_file(width, height, rgba@),
        r matches Some(b) ==> (1 <= width && 1 <= height && 4 * width * height <= READ_BACK_BYTES
            ==> reads_as_size(b@, width as nat, height as nat)),
{
    let mut out: Vec<u8> = Vec::new();
    let mut encoder = image::codecs::jpeg::JpegEncoder::new(&mut out);
    match encoder.encode(rgba, width, height, image::ColorType::Rgba8) {
        Ok(()) => {
            drop(encoder);
            Some(out)
        },
        Err(_) => None,
    }
}

/// Relies on gif::Frame::from_rgb, which panics unless there are three bytes
/// for every pixel, and on gif::Encoder (new with an empty global palette,
/// write_frame, into_inner), which write the frame and the trailer and do not
/// fail on a `Vec` sink. image's GIF reader gives the logical screen size,
/// which the encoder wrote, and refuses frames over 50 MB of RGBA.
#[verifier::external_body]
fn write_gif_file(rgb: &[u8], width: u16, height: u16) -> (r: Option<Vec<u8>>)
    requires
        rgb@.len() == 3 * width * height,
    ensures
        r is Some,
        r matches Some(b) ==> b@ == gif_file(width, height, rgb@),
        r matches Some(b) ==> (1 <= width && 1 <= height && 4 * width * height <= READ_BACK_BYTES
            ==> reads_as_size(b@, width as nat, height as nat)),
{
    let frame = gif::Frame::from_rgb(width, height, rgb);
    let mut encoder = match gif::Encoder::new(Vec::new(), width, height, &[]) {
        Ok(e) => e,
        Err(_) => return None,
    };
    match encoder.write_frame(&frame) {
        Ok(()) => encoder.into_inner().ok(),
        Err(_) => None,
    }
}

/// Relies on image::load_from_memory, which guesses the format and decodes
/// the file, and on DynamicImage::to_rgba8 and ImageBuffer::into_raw, which
/// give its pixels as RGBA bytes.
#[verifier::external_body]
fn read_image_file(file: &[u8]) -> (r: Option<(u32, u32, Vec<u8>)>)
    ensures
        r is Some <==> decoded_image(file@) is Some,
        r matches Some(t) ==> decoded_image(file@) == Some((t.0, t.1, t.2@)),
{
    match image::load_from_memory(file) {
        Ok(img) => {
            let rgba = img.to_rgba8();
            Some((rgba.width(), rgba.height(), rgba.into_raw()))
        },
        Err(_) => None,
    }
}

/// Why a frame could not be exported.
#[derive(Clone, Copy, Debug, PartialEq, Eq, Structural)]
pub enum ExportError {
    /// The format cannot hold a frame of this size: every format needs both
    /// sides at least 1, JPEG and GIF at most 65535.
    Size,
}

/// The largest side that JPEG and GIF can store.
pub const MAX_SIDE: u32 = 65535;

/// The sizes the format can store and read back: no side is empty, and
/// JPEG and GIF sides fit their 16-bit size fields.
pub open spec fn size_fits(format: ExportFormat, width: nat, height: nat) -> bool {
    match format {
        ExportFormat::Png => 1 <= width && 1 <= height,
        ExportFormat::Jpeg => 1 <= width <= MAX_SIDE && 1 <= height <= MAX_SIDE,
        ExportFormat::Gif => 1 <= width <= MAX_SIDE && 1 <= height <= MAX_SIDE,
    }
}

/// The file that exporting the frame in the format gives: PNG and JPEG from
/// the RGBA bytes, GIF from the RGB bytes.
pub open spec fn export_file(f: Frame, format: ExportFormat) -> Seq<u8> {
    match format {
        ExportFormat::Png => png_file(f.spec_width() as u32, f.spec_height() as u32, joined(f.pixels())),
        ExportFormat::Jpeg => jpeg_file(f.spec_width() as u32, f.spec_height() as u32, joined(f.pixels())),
        ExportFormat::Gif => gif_file(
            f.spec_width() as u16,
            f.spec_height() as u16,
            without_alpha(joined(f.pixels())),
        ),
    }
}

/// Encodes a frame as a file of the given format; `Err(Size)` exactly when
/// the format cannot store the frame's size. Read back, a PNG file gives the
/// frame's size and bytes, a JPEG or GIF file its size.
pub fn encode_frame(frame: &Frame, format: ExportFormat) -> (r: Result<Vec<u8>, ExportError>)
    requires
        frame.wf(),
    ensures
        r is Ok <==> size_fits(format, frame.spec_width(), frame.spec_height()),
        r matches Err(e) ==> e == ExportError::Size,
        r matches Ok(b) ==> b@ == export_file(*frame, format),
        r matches Ok(b) ==> (4 * frame.spec_width() * frame.spec_height() <= READ_BACK_BYTES ==> {
            &&& format == ExportFormat::Png ==> decoded_image(b@) == Some(
                (frame.spec_width() as u32, frame.spec_height() as u32, joined(frame.pixels())),
            )
            &&& reads_as_size(b@, frame.spec_width(), frame.spec_height())
        }),
{
    let width = frame.width();
    let height = frame.height();
    proof {
        frame.lemma_size_fits_u32();
    }
    match format {
        ExportFormat::Gif => {
            if width < 1 || width > MAX_SIDE || height < 1 || height > MAX_SIDE {
                return Err(ExportError::Size);
            }
            let rgb = frame.to_rgb();
            match write_gif_file(rgb.as_slice(), width as u16, height as u16) {
                Some(b) => Ok(b),
                None => Err(ExportError::Size),
            }
        },
        ExportFormat::Jpeg => {
            if width < 1 || width > MAX_SIDE || height < 1 || height > MAX_SIDE {
                return Err(ExportError::Size);
            }
            let rgba = frame.to_rgba();
            match write_jpeg_file(rgba.as_slice(), width, height) {
                Some(b) => Ok(b),
                None => Err(ExportError::Size),
            }
        },
        ExportFormat::Png => {
            if width < 1 || height < 1 {
                return Err(ExportError::Size);
            }
            let rgba = frame.to_rgba();
            match write_png_file(rgba.as_slice(), width, height) {
                Some(b) => Ok(b),
                None => Err(ExportError::Size),
            }
        },
    }
}

/// The frame that an image file holds, where the decoder reads it and its
/// pixel bytes fit its size.
pub open spec fn decoded_frame_ok(file: Seq<u8>) -> bool {
    decoded_image(file) matches Some(t) && t.2.len() == 4 * t.0 * t.1
}

/// Reads an image file into a frame. `None` where the decoder cannot read
/// it; otherwise the frame holds exactly what the decoder gave.
pub fn decode_frame(file: &Vec<u8>) -> (r: Option<Frame>)
    ensures
        r is Some <==> decoded_frame_ok(file@),
        r matches Some(f) ==> f.wf() && decoded_image(file@) == Some(
            (f.spec_width() as u32, f.spec_height() as u32, joined(f.pixels())),
        ),
{
    match read_image_file(file.as_slice()) {
        Some((width, height, rgba)) => {
            let r = Frame::from_rgba(width, height, &rgba);
            proof {
                if r is Some {
                    assert(rgba@.len() == (4 * width as nat) * height) by (nonlinear_arith)
                        requires
                            rgba@.len() == 4 * width * height,
                    ;
                    lemma_joined_split(rgba@, 4 * width as nat, height as nat);
                }
            }
            r
        },
        None => None,
    }
}

/// An exported PNG file read back gives the exported frame: when the file
/// decodes to a frame's bytes, as `encode_frame` promises, and `decode_frame`
/// gives a frame from it, the two frames have the same size and pixels.
pub proof fn lemma_png_read_back(exported: Frame, file: Seq<u8>, reopened: Frame)
    requires
        exported.wf(),
        reopened.wf(),
        decoded_image(file) == Some(
            (exported.spec_width() as u32, exported.spec_height() as u32, joined(exported.pixels())),
        ),
        decoded_image(file) == Some(
            (reopened.spec_width() as u32, reopened.spec_height() as u32, joined(reopened.pixels())),
        ),
    ensures
        reopened.spec_width() == exported.spec_width(),
        reopened.spec_height() == exported.spec_height(),
        reopened.pixels() == exported.pixels(),
{
    exported.lemma_size_fits_u32();
    reopened.lemma_size_fits_u32();
    lemma_rgba_round_trip(exported);
    lemma_rgba_round_trip(reopened);
}

} // verus!
