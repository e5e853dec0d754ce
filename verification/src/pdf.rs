//! PDF attachments: the text of the document, and the images it embeds,
//! recognised from the dictionaries of its streams.

use vstd::prelude::*;
use crate::b64::{base64_encode, encode_base64};
use crate::text::{push_str, to_owned_string, trim_owned, trimmed};
use image::{ImageBuffer, ImageFormat, Luma, Rgb, Rgba};

verus! {

/// The contents of an optional vector.
pub open spec fn opt_seq<T>(r: Option<Vec<T>>) -> Option<Seq<T>> {
    match r {
        Some(v) => Some(v@),
        None => None,
    }
}

/// A value of a stream dictionary, as far as images are concerned.
pub enum PdfEntry {
    Name(Vec<u8>),
    Integer(i64),
    /// An array, with the names among its elements (`None` for the others).
    Array(Vec<Option<Vec<u8>>>),
    /// Any other kind of value (a reference, a real number, ...).
    Other,
}

/// A stream object of a PDF: its dictionary, in order, and its raw content.
pub struct PdfStream {
    pub dict: Vec<(Vec<u8>, PdfEntry)>,
    pub content: Vec<u8>,
}

/// What `flate2`'s `ZlibDecoder` inflates from zlib data (read to the end);
/// `None` when the data is not valid zlib.
pub uninterp spec fn zlib_inflate(data: Seq<u8>) -> Option<Seq<u8>>;

/// Reads a `flate2::read::ZlibDecoder` over `data` to the end.
#[verifier::external_body]
fn inflate(data: &[u8]) -> (r: Option<Vec<u8>>)
    ensures
        opt_seq(r) == zlib_inflate(data@),
{
    let mut out = Vec::new();
    match std::io::Read::read_to_end(&mut flate2::read::ZlibDecoder::new(data), &mut out) {
        Ok(_) => Some(out),
        Err(_) => None,
    }
}

/// How raw pixels are laid out.
#[derive(PartialEq, Eq, Structural, Clone, Copy, Debug)]
pub enum PixelLayout {
    /// 8-bit RGB.
    Rgb,
    /// 8-bit gray.
    Luma,
    /// 8-bit RGBA.
    Rgba,
}

/// The PNG file `image` writes for a bitmap (`ImageBuffer::from_raw`, then
/// `write_to` with `ImageFormat::Png`); `None` when the pixels do not fill
/// the bitmap or the encoder fails.
pub uninterp spec fn png_encoding(width: u32, height: u32, layout: PixelLayout, pixels: Seq<u8>) -> Option<
    Seq<u8>,
>;

/// Builds an `image::ImageBuffer` of the layout from the pixels and writes
/// it as PNG into memory.
#[verifier::external_body]
fn encode_png(width: u32, height: u32, layout: PixelLayout, pixels: Vec<u8>) -> (r: Option<Vec<u8>>)
    ensures
        opt_seq(r) == png_encoding(width, height, layout, pixels@),
{
    let mut out = std::io::Cursor::new(Vec::new());
    let written = match layout {
        PixelLayout::Rgb => ImageBuffer::<Rgb<u8>, Vec<u8>>::from_raw(width, height, pixels)?.write_to(&mut out, ImageFormat::Png),
        PixelLayout::Luma => ImageBuffer::<Luma<u8>, Vec<u8>>::from_raw(width, height, pixels)?.write_to(&mut out, ImageFormat::Png),
        PixelLayout::Rgba => ImageBuffer::<Rgba<u8>, Vec<u8>>::from_raw(width, height, pixels)?.write_to(&mut out, ImageFormat::Png),
    };
    written.ok()?;
    Some(out.into_inner())
}

/// The value stored under `key` in a stream dictionary (keys are unique).
pub open spec fn dict_get(d: Seq<(Vec<u8>, PdfEntry)>, key: Seq<u8>) -> Option<PdfEntry>
    decreases d.len(),
{
    if d.len() == 0 {
        None
    } else if d[0].0@ == key {
        Some(d[0].1)
    } else {
        dict_get(d.drop_first(), key)
    }
}

/// The names a `Filter` entry lists: one name, or the names of an array.
pub open spec fn filter_names(e: Option<PdfEntry>) -> Seq<Seq<u8>> {
    match e {
        Some(PdfEntry::Name(n)) => seq![n@],
        Some(PdfEntry::Array(a)) => names_in(a@),
        _ => Seq::empty(),
    }
}

/// The names among the elements of an array, in order.
pub open spec fn names_in(a: Seq<Option<Vec<u8>>>) -> Seq<Seq<u8>>
    decreases a.len(),
{
    if a.len() == 0 {
        Seq::empty()
    } else {
        match a.last() {
            Some(n) => names_in(a.drop_last()).push(n@),
            None => names_in(a.drop_last()),
        }
    }
}

/// Whether `needle` occurs in `hay`.
pub open spec fn contains_bytes(hay: Seq<u8>, needle: Seq<u8>) -> bool {
    exists|i: int| 0 <= i && i + needle.len() <= hay.len() && #[trigger] hay.subrange(i, i + needle.len()) == needle
}

pub open spec fn key_subtype() -> Seq<u8> {
    seq![83u8, 117, 98, 116, 121, 112, 101]
}

pub open spec fn key_width() -> Seq<u8> {
    seq![87u8, 105, 100, 116, 104]
}

pub open spec fn key_height() -> Seq<u8> {
    seq![72u8, 101, 105, 103, 104, 116]
}

pub open spec fn key_bits() -> Seq<u8> {
    seq![66u8, 105, 116, 115, 80, 101, 114, 67, 111, 109, 112, 111, 110, 101, 110, 116]
}

pub open spec fn key_color_space() -> Seq<u8> {
    seq![67u8, 111, 108, 111, 114, 83, 112, 97, 99, 101]
}

pub open spec fn key_filter() -> Seq<u8> {
    seq![70u8, 105, 108, 116, 101, 114]
}

/// `Image`
pub open spec fn name_image() -> Seq<u8> {
    seq![73u8, 109, 97, 103, 101]
}

/// `DCTDecode`
pub open spec fn name_dct() -> Seq<u8> {
    seq![68u8, 67, 84, 68, 101, 99, 111, 100, 101]
}

/// `FlateDecode`
pub open spec fn name_flate() -> Seq<u8> {
    seq![70u8, 108, 97, 116, 101, 68, 101, 99, 111, 100, 101]
}

/// `RGB`
pub open spec fn text_rgb() -> Seq<u8> {
    seq![82u8, 71, 66]
}

/// `Gray`
pub open spec fn text_gray() -> Seq<u8> {
    seq![71u8, 114, 97, 121]
}

/// An image extracted from a PDF, base64-encoded.
pub struct ExtractedImage {
    pub data: String,
    pub mime_type: String,
}

/// The characters of an extracted image: its data and MIME type.
pub open spec fn image_view(i: ExtractedImage) -> (Seq<char>, Seq<char>) {
    (i.data@, i.mime_type@)
}

/// The bytes of a base64 PNG image.
pub open spec fn png_image(png: Seq<u8>) -> (Seq<char>, Seq<char>) {
    (base64_encode(png), "image/png"@)
}

/// Which pixel layout raw image data is read as, and how many of its bytes
/// are used. Sizes are computed as `u32` products that wrap on overflow;
/// a wrapped size then leaves too few pixels, which `png_encoding` refuses.
/// An RGB color space with 8 bits is RGB, a gray one gray; otherwise RGBA
/// is tried before RGB by the amount of data. (Color-space names are
/// matched as bytes: for the ASCII words sought this is the same as a
/// match in their lossy UTF-8 decoding.)
pub open spec fn pixel_plan(len: nat, w: u32, h: u32, bits: u8, cs: Option<Seq<u8>>) -> Option<(PixelLayout, u32)> {
    let rgb = cs matches Some(c) && contains_bytes(c, text_rgb());
    let gray = cs matches Some(c) && contains_bytes(c, text_gray());
    if rgb && bits == 8 {
        let n = w.wrapping_mul(h).wrapping_mul(3);
        if len < n { None } else { Some((PixelLayout::Rgb, n)) }
    } else if gray && bits == 8 {
        let n = w.wrapping_mul(h);
        if len < n { None } else { Some((PixelLayout::Luma, n)) }
    } else {
        let a = w.wrapping_mul(h).wrapping_mul(4);
        let b = w.wrapping_mul(h).wrapping_mul(3);
        if len >= a {
            Some((PixelLayout::Rgba, a))
        } else if len >= b {
            Some((PixelLayout::Rgb, b))
        } else {
            None
        }
    }
}

/// The PNG image made of raw pixel data.
pub open spec fn raw_image(data: Seq<u8>, w: u32, h: u32, bits: u8, cs: Option<Seq<u8>>) -> Option<
    (Seq<char>, Seq<char>),
> {
    match pixel_plan(data.len(), w, h, bits, cs) {
        None => None,
        Some((layout, n)) => match png_encoding(w, h, layout, data.take(n as int)) {
            Some(png) => Some(png_image(png)),
            None => None,
        },
    }
}

/// The image a stream holds: an `Image` XObject with positive integer
/// dimensions; JPEG data (`DCTDecode`, starting `FF D8`) is kept as it is,
/// `FlateDecode` data is inflated and unfiltered data taken raw, both as
/// PNG; anything else is no image.
pub open spec fn stream_image(s: PdfStream) -> Option<(Seq<char>, Seq<char>)> {
    let d = s.dict@;
    let c = s.content@;
    if !(dict_get(d, key_subtype()) matches Some(PdfEntry::Name(n)) && n@ == name_image()) {
        None
    } else {
        match (dict_get(d, key_width()), dict_get(d, key_height())) {
            (Some(PdfEntry::Integer(wi)), Some(PdfEntry::Integer(hi))) => {
                let w = wi as u32;
                let h = hi as u32;
                if w == 0 || h == 0 {
                    None
                } else {
                    let bits = match dict_get(d, key_bits()) {
                        Some(PdfEntry::Integer(b)) => b as u8,
                        _ => 8u8,
                    };
                    let cs = match dict_get(d, key_color_space()) {
                        Some(PdfEntry::Name(n)) => Some(n@),
                        _ => None,
                    };
                    let filters = filter_names(dict_get(d, key_filter()));
                    if filters.contains(name_dct()) && c.len() >= 2 && c[0] == 0xFF && c[1] == 0xD8 {
                        Some((base64_encode(c), "image/jpeg"@))
                    } else if filters.contains(name_flate()) {
                        match zlib_inflate(c) {
                            Some(data) => raw_image(data, w, h, bits, cs),
                            None => None,
                        }
                    } else if filters.len() == 0 {
                        raw_image(c, w, h, bits, cs)
                    } else {
                        None
                    }
                }
            },
            _ => None,
        }
    }
}

/// The images of the streams among a PDF's objects, in order.
pub open spec fn stream_images(objs: Seq<Option<PdfStream>>) -> Seq<(Seq<char>, Seq<char>)>
    decreases objs.len(),
{
    if objs.len() == 0 {
        Seq::empty()
    } else {
        let rest = stream_images(objs.drop_last());
        match objs.last() {
            Some(s) => match stream_image(s) {
                Some(img) => rest.push(img),
                None => rest,
            },
            None => rest,
        }
    }
}

fn bytes_equal(a: &[u8], b: &[u8]) -> (r: bool)
    ensures
        r == (a@ == b@),
{
    if a.len() != b.len() {
        return false;
    }
    let mut i: usize = 0;
    while i < a.len()
        invariant
            a@.len() == b@.len(),
            i <= a@.len(),
            forall|j: int| 0 <= j < i ==> a@[j] == b@[j],
        decreases a@.len() - i,
    {
        if a[i] != b[i] {
            return false;
        }
        i = i + 1;
    }
    assert(a@ =~= b@);
    true
}

fn has_bytes(hay: &[u8], needle: &[u8]) -> (r: bool)
    ensures
        r == contains_bytes(hay@, needle@),
{
    let n = needle.len();
    if n > hay.len() {
        return false;
    }
    let total = hay.len();
    let last = total - n;
    let mut i: usize = 0;
    loop
        invariant
            n == needle@.len(),
            total == hay@.len(),
            last + n == total,
            i <= last,
            forall|k: int| 0 <= k < i ==> #[trigger] hay@.subrange(k, k + n) != needle@,
        decreases last - i,
    {
        if bytes_equal(&hay[i..i + n], needle) {
            return true;
        }
        if i == last {
            return false;
        }
        i = i + 1;
    }
}

fn find_entry<'a>(dict: &'a Vec<(Vec<u8>, PdfEntry)>, key: &[u8]) -> (r: Option<&'a PdfEntry>)
    ensures
        (match r {
            Some(e) => Some(*e),
            None => None,
        }) == dict_get(dict@, key@),
{
    let ghost d = dict@;
    let mut i: usize = 0;
    proof {
        assert(d.skip(0) =~= d);
    }
    while i < dict.len()
        invariant
            d == dict@,
            i <= d.len(),
            dict_get(d.skip(i as int), key@) == dict_get(d, key@),
        decreases d.len() - i,
    {
        proof {
            assert(d.skip(i as int)[0] == d[i as int]);
            assert(d.skip(i as int).drop_first() =~= d.skip(i + 1));
        }
        if bytes_equal(dict[i].0.as_slice(), key) {
            return Some(&dict[i].1);
        }
        i = i + 1;
    }
    proof {
        assert(d.skip(i as int) =~= Seq::<(Vec<u8>, PdfEntry)>::empty());
    }
    None
}

fn filters_of(e: Option<&PdfEntry>) -> (r: Vec<Vec<u8>>)
    ensures
        r@.map_values(|n: Vec<u8>| n@) == filter_names(
            match e {
                Some(x) => Some(*x),
                None => None,
            },
        ),
{
    let mut out: Vec<Vec<u8>> = Vec::new();
    match e {
        Some(PdfEntry::Name(n)) => {
            out.push(n.clone());
            assert(out@.map_values(|n: Vec<u8>| n@) =~= seq![n@]);
        },
        Some(PdfEntry::Array(a)) => {
            let mut i: usize = 0;
            while i < a.len()
                invariant
                    i <= a@.len(),
                    out@.map_values(|n: Vec<u8>| n@) == names_in(a@.take(i as int)),
                decreases a@.len() - i,
            {
                proof {
                    assert(a@.take(i + 1).drop_last() =~= a@.take(i as int));
                }
                match &a[i] {
                    Some(n) => {
                        out.push(n.clone());
                        assert(out@.map_values(|n: Vec<u8>| n@) =~= names_in(a@.take(i as int)).push(n@));
                    },
                    None => {},
                }
                i = i + 1;
            }
            assert(a@.take(a@.len() as int) =~= a@);
        },
        _ => {
            assert(out@.map_values(|n: Vec<u8>| n@) =~= Seq::<Seq<u8>>::empty());
        },
    }
    out
}

fn lists_name(names: &Vec<Vec<u8>>, name: &[u8]) -> (r: bool)
    ensures
        r == names@.map_values(|n: Vec<u8>| n@).contains(name@),
{
    let ghost v = names@.map_values(|n: Vec<u8>| n@);
    let mut i: usize = 0;
    while i < names.len()
        invariant
            v == names@.map_values(|n: Vec<u8>| n@),
            i <= names@.len(),
            forall|j: int| 0 <= j < i ==> v[j] != name@,
        decreases names@.len() - i,
    {
        if bytes_equal(names[i].as_slice(), name) {
            assert(v[i as int] == name@);
            return true;
        }
        i = i + 1;
    }
    false
}

fn png_result(png: Option<Vec<u8>>) -> (r: Option<ExtractedImage>)
    ensures
        (match r {
            Some(i) => Some(image_view(i)),
            None => None,
        }) == (match png {
            Some(p) => Some(png_image(p@)),
            None => None,
        }),
{
    match png {
        Some(p) => Some(ExtractedImage { data: encode_base64(p.as_slice()), mime_type: to_owned_string("image/png") }),
        None => None,
    }
}

/// Converts raw pixel data to a PNG image (see `pixel_plan`).
pub fn convert_raw_to_png(data: &[u8], width: u32, height: u32, bits: u8, color_space: Option<&[u8]>) -> (r:
    Option<ExtractedImage>)
    ensures
        (match r {
            Some(i) => Some(image_view(i)),
            None => None,
        }) == raw_image(
            data@,
            width,
            height,
            bits,
            match color_space {
                Some(c) => Some(c@),
                None => None,
            },
        ),
{
    let rgb_name: Vec<u8> = vec![82u8, 71, 66];
    let gray_name: Vec<u8> = vec![71u8, 114, 97, 121];
    assert(rgb_name@ =~= text_rgb());
    assert(gray_name@ =~= text_gray());
    let is_rgb = match color_space {
        Some(c) => has_bytes(c, rgb_name.as_slice()),
        None => false,
    };
    let is_gray = match color_space {
        Some(c) => has_bytes(c, gray_name.as_slice()),
        None => false,
    };
    let plan: Option<(PixelLayout, u32)> = if is_rgb && bits == 8 {
        let n = width.wrapping_mul(height).wrapping_mul(3);
        if (data.len() as u64) < (n as u64) {
            None
        } else {
            Some((PixelLayout::Rgb, n))
        }
    } else if is_gray && bits == 8 {
        let n = width.wrapping_mul(height);
        if (data.len() as u64) < (n as u64) {
            None
        } else {
            Some((PixelLayout::Luma, n))
        }
    } else {
        let a = width.wrapping_mul(height).wrapping_mul(4);
        let b = width.wrapping_mul(height).wrapping_mul(3);
        if (data.len() as u64) >= (a as u64) {
            Some((PixelLayout::Rgba, a))
        } else if (data.len() as u64) >= (b as u64) {
            Some((PixelLayout::Rgb, b))
        } else {
            None
        }
    };
    match plan {
        None => None,
        Some((layout, n)) => {
            let mut pixels: Vec<u8> = Vec::new();
            let mut i: usize = 0;
            let count = n as usize;
            while i < count
                invariant
                    count == n,
                    count <= data@.len(),
                    i <= count,
                    pixels@ == data@.take(i as int),
                decreases count - i,
            {
                pixels.push(data[i]);
                proof {
                    assert(pixels@ =~= data@.take(i + 1));
                }
                i = i + 1;
            }
            png_result(encode_png(width, height, layout, pixels))
        },
    }
}

/// Inflates `FlateDecode` image data and converts it to PNG.
pub fn extract_flate_image(data: &[u8], width: u32, height: u32, bits: u8, color_space: Option<&[u8]>) -> (r:
    Option<ExtractedImage>)
    ensures
        (match r {
            Some(i) => Some(image_view(i)),
            None => None,
        }) == (match zlib_inflate(data@) {
            Some(d) => raw_image(
                d,
                width,
                height,
                bits,
                match color_space {
                    Some(c) => Some(c@),
                    None => None,
                },
            ),
            None => None,
        }),
{
    match inflate(data) {
        Some(d) => convert_raw_to_png(d.as_slice(), width, height, bits, color_space),
        None => None,
    }
}

/// The image held by a PDF stream, if it holds one (see `stream_image`).
pub fn extract_image_from_stream(stream: &PdfStream) -> (r: Option<ExtractedImage>)
    ensures
        (match r {
            Some(i) => Some(image_view(i)),
            None => None,
        }) == stream_image(*stream),
{
    let k_subtype: Vec<u8> = vec![83u8, 117, 98, 116, 121, 112, 101];
    let k_width: Vec<u8> = vec![87u8, 105, 100, 116, 104];
    let k_height: Vec<u8> = vec![72u8, 101, 105, 103, 104, 116];
    let k_bits: Vec<u8> = vec![66u8, 105, 116, 115, 80, 101, 114, 67, 111, 109, 112, 111, 110, 101, 110, 116];
    let k_cs: Vec<u8> = vec![67u8, 111, 108, 111, 114, 83, 112, 97, 99, 101];
    let k_filter: Vec<u8> = vec![70u8, 105, 108, 116, 101, 114];
    let n_image: Vec<u8> = vec![73u8, 109, 97, 103, 101];
    let n_dct: Vec<u8> = vec![68u8, 67, 84, 68, 101, 99, 111, 100, 101];
    let n_flate: Vec<u8> = vec![70u8, 108, 97, 116, 101, 68, 101, 99, 111, 100, 101];
    assert(k_subtype@ =~= key_subtype());
    assert(k_width@ =~= key_width());
    assert(k_height@ =~= key_height());
    assert(k_bits@ =~= key_bits());
    assert(k_cs@ =~= key_color_space());
    assert(k_filter@ =~= key_filter());
    assert(n_image@ =~= name_image());
    assert(n_dct@ =~= name_dct());
    assert(n_flate@ =~= name_flate());
    let dict = &stream.dict;
    match find_entry(dict, k_subtype.as_slice()) {
        Some(PdfEntry::Name(n)) => {
            if !bytes_equal(n.as_slice(), n_image.as_slice()) {
                return None;
            }
        },
        _ => {
            return None;
        },
    }
    let width = match find_entry(dict, k_width.as_slice()) {
        Some(PdfEntry::Integer(w)) => *w as u32,
        _ => {
            return None;
        },
    };
    let height = match find_entry(dict, k_height.as_slice()) {
        Some(PdfEntry::Integer(h)) => *h as u32,
        _ => {
            return None;
        },
    };
    if width == 0 || height == 0 {
        return None;
    }
    let bits: u8 = match find_entry(dict, k_bits.as_slice()) {
        Some(PdfEntry::Integer(b)) => *b as u8,
        _ => 8,
    };
    let color_space: Option<&[u8]> = match find_entry(dict, k_cs.as_slice()) {
        Some(PdfEntry::Name(n)) => Some(n.as_slice()),
        _ => None,
    };
    let filters = filters_of(find_entry(dict, k_filter.as_slice()));
    let content = stream.content.as_slice();
    if lists_name(&filters, n_dct.as_slice()) {
        if content.len() >= 2 && content[0] == 0xFF && content[1] == 0xD8 {
            return Some(ExtractedImage { data: encode_base64(content), mime_type: to_owned_string("image/jpeg") });
        }
    }
    if lists_name(&filters, n_flate.as_slice()) {
        return extract_flate_image(content, width, height, bits, color_space);
    }
    if filters.len() == 0 {
        return convert_raw_to_png(content, width, height, bits, color_space);
    }
    None
}

/// What is extracted from a PDF.
pub struct ExtractedPdf {
    pub text: Option<String>,
    pub images: Vec<ExtractedImage>,
}

/// What the PDF readers (which run outside this library) gave for a
/// document: the text `pdf_extract` found (`None` when it failed), the
/// objects `lopdf` read, in object-id order (each stream with its dictionary
/// and content, `None` for the other objects; `None` altogether when the
/// document could not be loaded), and the PNG renderings of its form
/// objects (diagrams), or the rendering's error.
pub struct PdfReading {
    pub text: Option<String>,
    pub objects: Option<Vec<Option<PdfStream>>>,
    pub forms: Result<Vec<Vec<u8>>, String>,
}

/// The text kept from a PDF: the extracted text, trimmed, when something
/// remains.
pub open spec fn pdf_text_part(reading: PdfReading) -> Option<Seq<char>> {
    match reading.text {
        Some(t) => if trimmed(t@).len() > 0 { Some(trimmed(t@)) } else { None },
        None => None,
    }
}

/// The embedded images of a PDF, in object order.
pub open spec fn pdf_embedded_images(reading: PdfReading) -> Seq<(Seq<char>, Seq<char>)> {
    match reading.objects {
        Some(objs) => stream_images(objs@),
        None => Seq::empty(),
    }
}

/// The rendered diagrams, each a base64 PNG image.
pub open spec fn pdf_form_images(reading: PdfReading) -> Seq<(Seq<char>, Seq<char>)> {
    match reading.forms {
        Ok(v) => v@.map_values(|png: Vec<u8>| png_image(png@)),
        Err(_) => Seq::empty(),
    }
}

/// The characters of a list of images.
pub open spec fn image_views(v: Seq<ExtractedImage>) -> Seq<(Seq<char>, Seq<char>)> {
    v.map_values(|i: ExtractedImage| image_view(i))
}

/// What `process_pdf` gives for what the readers gave: the trimmed text and
/// the embedded images followed by the rendered diagrams (PNG); an error
/// when neither text nor image came out.
pub open spec fn pdf_spec(reading: PdfReading) -> Result<
    (Option<Seq<char>>, Seq<(Seq<char>, Seq<char>)>),
    Seq<char>,
> {
    let text = pdf_text_part(reading);
    let images = pdf_embedded_images(reading) + pdf_form_images(reading);
    if text is None && images.len() == 0 {
        Err("Could not extract any content from PDF"@)
    } else {
        Ok((text, images))
    }
}

/// The characters of an extraction result.
pub open spec fn extracted_view(r: Result<ExtractedPdf, String>) -> Result<
    (Option<Seq<char>>, Seq<(Seq<char>, Seq<char>)>),
    Seq<char>,
> {
    match r {
        Ok(p) => Ok(
            (
                match p.text {
                    Some(t) => Some(t@),
                    None => None,
                },
                image_views(p.images@),
            ),
        ),
        Err(e) => Err(e@),
    }
}

fn embedded_images(objects: &Option<Vec<Option<PdfStream>>>) -> (r: Vec<ExtractedImage>)
    ensures
        image_views(r@) == match objects {
            Some(objs) => stream_images(objs@),
            None => Seq::empty(),
        },
{
    let mut images: Vec<ExtractedImage> = Vec::new();
    match objects {
        None => {
            assert(image_views(images@) =~= Seq::<(Seq<char>, Seq<char>)>::empty());
        },
        Some(objs) => {
            let mut i: usize = 0;
            assert(image_views(images@) =~= stream_images(objs@.take(0)));
            while i < objs.len()
                invariant
                    i <= objs@.len(),
                    image_views(images@) == stream_images(objs@.take(i as int)),
                decreases objs@.len() - i,
            {
                proof {
                    assert(objs@.take(i + 1).drop_last() =~= objs@.take(i as int));
                    assert(objs@.take(i + 1).last() == objs@[i as int]);
                }
                match &objs[i] {
                    Some(stream) => match extract_image_from_stream(stream) {
                        Some(img) => {
                            images.push(img);
                            assert(image_views(images@) =~= stream_images(objs@.take(i as int)).push(
                                image_view(img),
                            ));
                        },
                        None => {},
                    },
                    None => {},
                }
                i = i + 1;
            }
            assert(objs@.take(objs@.len() as int) =~= objs@);
        },
    }
    images
}

fn form_images(forms: &Vec<Vec<u8>>) -> (r: Vec<ExtractedImage>)
    ensures
        image_views(r@) == forms@.map_values(|png: Vec<u8>| png_image(png@)),
{
    let mut out: Vec<ExtractedImage> = Vec::new();
    let mut i: usize = 0;
    while i < forms.len()
        invariant
            i <= forms@.len(),
            image_views(out@) == forms@.take(i as int).map_values(|png: Vec<u8>| png_image(png@)),
        decreases forms@.len() - i,
    {
        let img = ExtractedImage {
            data: encode_base64(forms[i].as_slice()),
            mime_type: to_owned_string("image/png"),
        };
        proof {
            reveal_strlit("image/png");
        }
        let ghost before = out@;
        out.push(img);
        proof {
            assert(forms@.take(i + 1) =~= forms@.take(i as int).push(forms@[i as int]));
            assert(image_views(out@) =~= image_views(before).push(image_view(img)));
        }
        i = i + 1;
    }
    assert(forms@.take(forms@.len() as int) =~= forms@);
    out
}

/// Extracts the text and the images of a PDF. `read_pdf` runs the PDF
/// readers on the bytes (the text extractor, the object parser and the
/// renderer of form objects); their failures only mean that the part they
/// read is missing. Rendered diagrams are labelled PNG and base64-encoded
/// here.
pub fn process_pdf<F: Fn(&[u8]) -> PdfReading>(pdf_bytes: &[u8], read_pdf: F) -> (r: Result<ExtractedPdf, String>)
    requires
        forall|b: &[u8]| read_pdf.requires((b,)),
    ensures
        exists|reading: PdfReading| read_pdf.ensures((pdf_bytes,), reading) && extracted_view(r) == pdf_spec(reading),
{
    let reading = read_pdf(pdf_bytes);
    let r = pdf_content(reading);
    r
}

/// The content of a PDF from what the readers gave (see `pdf_spec`).
pub fn pdf_content(reading: PdfReading) -> (r: Result<ExtractedPdf, String>)
    ensures
        extracted_view(r) == pdf_spec(reading),
{
    let ghost rd = reading;
    let text = match &reading.text {
        Some(t) => {
            let tr = trim_owned(t.as_str());
            if tr.unicode_len() > 0 {
                Some(tr)
            } else {
                None
            }
        },
        None => None,
    };
    let mut images = embedded_images(&reading.objects);
    let ghost embedded = images@;
    match &reading.forms {
        Ok(v) => {
            let mut rendered = form_images(v);
            let ghost rv = rendered@;
            images.append(&mut rendered);
            assert(image_views(images@) =~= image_views(embedded) + image_views(rv));
        },
        Err(_) => {
            assert(image_views(images@) =~= image_views(embedded) + Seq::<(Seq<char>, Seq<char>)>::empty());
        },
    }
    if text.is_none() && images.len() == 0 {
        let r: Result<ExtractedPdf, String> = Err(to_owned_string("Could not extract any content from PDF"));
        assert(extracted_view(r) == pdf_spec(rd));
        return r;
    }
    let r: Result<ExtractedPdf, String> = Ok(ExtractedPdf { text, images });
    assert(extracted_view(r) == pdf_spec(rd));
    r
}

/// How raw pixels are read, for a bitmap whose byte sizes fit in `u32`: an
/// 8-bit RGB color space takes three bytes a pixel and a gray one one byte;
/// any other color space is read as RGBA from the first `w*h*4` bytes when
/// there are that many, else as RGB from the first `w*h*3`, else not at all.
pub proof fn lemma_pixel_layouts(len: nat, w: u32, h: u32, bits: u8, cs: Option<Seq<u8>>)
    requires
        w * h * 4 <= u32::MAX,
    ensures
        ({
            let rgb = cs matches Some(c) && contains_bytes(c, text_rgb());
            let gray = cs matches Some(c) && contains_bytes(c, text_gray());
            let p = pixel_plan(len, w, h, bits, cs);
            &&& rgb && bits == 8 ==> (if len >= w * h * 3 {
                p == Some((PixelLayout::Rgb, (w * h * 3) as u32))
            } else {
                p is None
            })
            &&& !(rgb && bits == 8) && gray && bits == 8 ==> (if len >= w * h {
                p == Some((PixelLayout::Luma, (w * h) as u32))
            } else {
                p is None
            })
            &&& !(rgb && bits == 8) && !(gray && bits == 8) ==> (if len >= w * h * 4 {
                p == Some((PixelLayout::Rgba, (w * h * 4) as u32))
            } else if len >= w * h * 3 {
                p == Some((PixelLayout::Rgb, (w * h * 3) as u32))
            } else {
                p is None
            })
        }),
{
    let wh = w * h;
    assert(0 <= wh <= wh * 3 <= wh * 4 <= u32::MAX) by (nonlinear_arith)
        requires
            wh == w * h,
            w * h * 4 <= u32::MAX,
    ;
    assert(w.wrapping_mul(h) == wh) by {
        vstd::arithmetic::div_mod::lemma_small_mod(wh as nat, 0x1_0000_0000nat);
    }
    assert(w.wrapping_mul(h).wrapping_mul(3) == wh * 3) by {
        vstd::arithmetic::div_mod::lemma_small_mod((wh * 3) as nat, 0x1_0000_0000nat);
    }
    assert(w.wrapping_mul(h).wrapping_mul(4) == wh * 4) by {
        vstd::arithmetic::div_mod::lemma_small_mod((wh * 4) as nat, 0x1_0000_0000nat);
    }
}

} // verus!
