//! Attachments sent with a message: which content blocks they become.

use vstd::prelude::*;
use vstd::utf8::*;
use crate::b64::{base64_encode, base64_error_text, decode_base64, lemma_base64_injective};
use crate::model::{ContentBlock, opt_view};
use crate::pdf::{ExtractedPdf, PdfReading, extracted_view, image_views, pdf_spec, process_pdf};
use crate::percent::{string_from_utf8, utf8_error_text};
use crate::text::{push_str, starts_with, str_equals, to_owned_string};

verus! {

/// A file attached to a message, base64-encoded.
pub struct Attachment {
    pub mime_type: String,
    pub data: String,
}

/// `str::to_lowercase`: the full Unicode lowercase mapping of a string.
pub uninterp spec fn lowercase(s: Seq<char>) -> Seq<char>;

/// Calls std's `str::to_lowercase`.
#[verifier::external_body]
fn to_lowercase(s: &str) -> (r: String)
    ensures
        r@ == lowercase(s@),
{
    s.to_lowercase()
}

/// What an attachment is taken as, by its lower-cased MIME type.
#[derive(PartialEq, Eq, Structural, Clone, Copy, Debug)]
pub enum AttachmentKind {
    Image,
    Audio,
    Text,
    Pdf,
    /// Anything else adds nothing.
    Unsupported,
}

pub open spec fn has_prefix(s: Seq<char>, p: Seq<char>) -> bool {
    p.len() <= s.len() && s.subrange(0, p.len() as int) == p
}

/// `image/…`, `audio/…`, `text/…`, exactly `application/pdf`, or other.
pub open spec fn kind_of(lower: Seq<char>) -> AttachmentKind {
    if has_prefix(lower, "image/"@) {
        AttachmentKind::Image
    } else if has_prefix(lower, "audio/"@) {
        AttachmentKind::Audio
    } else if has_prefix(lower, "text/"@) {
        AttachmentKind::Text
    } else if lower == "application/pdf"@ {
        AttachmentKind::Pdf
    } else {
        AttachmentKind::Unsupported
    }
}

/// The kind of an attachment whose MIME type, lower-cased, is `lower`.
pub fn classify_mime(lower: &str) -> (r: AttachmentKind)
    ensures
        r == kind_of(lower@),
{
    if starts_with(lower, "image/") {
        AttachmentKind::Image
    } else if starts_with(lower, "audio/") {
        AttachmentKind::Audio
    } else if starts_with(lower, "text/") {
        AttachmentKind::Text
    } else if str_equals(lower, "application/pdf") {
        AttachmentKind::Pdf
    } else {
        AttachmentKind::Unsupported
    }
}

/// A content block with its texts as characters.
pub ghost enum BlockView {
    Text(Seq<char>),
    Image(Seq<char>, Seq<char>),
    Audio(Seq<char>, Seq<char>),
    /// Blocks an attachment never yields.
    Other,
}

pub open spec fn block_view(b: ContentBlock) -> BlockView {
    match b {
        ContentBlock::Text { text } => BlockView::Text(text@),
        ContentBlock::Image { data, mime_type } => BlockView::Image(data@, mime_type@),
        ContentBlock::Audio { data, mime_type } => BlockView::Audio(data@, mime_type@),
        _ => BlockView::Other,
    }
}

pub open spec fn blocks_view(v: Seq<ContentBlock>) -> Seq<BlockView> {
    v.map_values(|b: ContentBlock| block_view(b))
}

/// The bytes a base64 string decodes to, when it is canonical base64.
pub open spec fn decodes_to(s: Seq<char>, b: Seq<u8>) -> bool {
    base64_encode(b) == s
}

/// The blocks of a decoded PDF: its text under `[PDF Content]`, then its
/// images.
pub open spec fn pdf_blocks(text: Option<Seq<char>>, images: Seq<(Seq<char>, Seq<char>)>) -> Seq<BlockView> {
    let t = match text {
        Some(x) => seq![BlockView::Text("[PDF Content]\n"@ + x)],
        None => Seq::empty(),
    };
    t + images.map_values(|i: (Seq<char>, Seq<char>)| BlockView::Image(i.0, i.1))
}

/// What a PDF attachment becomes, given what the PDF readers gave for its
/// decoded data.
pub open spec fn pdf_attachment_spec(reading: PdfReading) -> Result<Seq<BlockView>, Seq<char>> {
    match pdf_spec(reading) {
        Err(e) => Err(e),
        Ok((text, images)) => Ok(pdf_blocks(text, images)),
    }
}

/// Whether a string is canonical base64.
pub open spec fn is_base64(s: Seq<char>) -> bool {
    exists|b: Seq<u8>| decodes_to(s, b)
}

pub open spec fn result_view(r: Result<Vec<ContentBlock>, String>) -> Result<Seq<BlockView>, Seq<char>> {
    match r {
        Ok(v) => Ok(blocks_view(v@)),
        Err(e) => Err(e@),
    }
}

fn prefixed(prefix: &str, detail: &str) -> (r: String)
    ensures
        r@ == prefix@ + detail@,
{
    let mut m = to_owned_string(prefix);
    push_str(&mut m, detail);
    m
}

/// The blocks of a PDF attachment: the base64 data is decoded and the PDF
/// processed (`read_pdf` runs the PDF readers on the decoded bytes). When the data is not
/// base64 the result is an error naming the decoder's complaint.
pub fn process_pdf_attachment<F: Fn(&[u8]) -> PdfReading>(
    base64_data: &str,
    read_pdf: F,
) -> (r: Result<Vec<ContentBlock>, String>)
    requires
        forall|b: &[u8]| read_pdf.requires((b,)),
    ensures
        is_base64(base64_data@) ==> exists|bs: &[u8], reading: PdfReading|
            decodes_to(base64_data@, bs@) && read_pdf.ensures((bs,), reading) && result_view(r)
                == pdf_attachment_spec(reading),
        !is_base64(base64_data@) ==> result_view(r) == Err::<Seq<BlockView>, Seq<char>>(
            "Failed to decode PDF base64: "@ + base64_error_text(base64_data@),
        ),
{
    let bytes = match decode_base64(base64_data) {
        Ok(b) => b,
        Err(e) => {
            return Err(prefixed("Failed to decode PDF base64: ", e.as_str()));
        },
    };
    assert(decodes_to(base64_data@, bytes@));
    let slice = bytes.as_slice();
    let extracted = process_pdf(slice, read_pdf);
    let ghost reading = choose|rd: PdfReading|
        read_pdf.ensures((slice,), rd) && extracted_view(extracted) == pdf_spec(rd);
    assert(read_pdf.ensures((slice,), reading) && extracted_view(extracted) == pdf_spec(reading));
    let pdf = match extracted {
        Ok(p) => p,
        Err(e) => {
            assert(result_view(Err(e)) == pdf_attachment_spec(reading));
            return Err(e);
        },
    };
    let ExtractedPdf { text, images } = pdf;
    let ghost tv = opt_view(text);
    let ghost iv = image_views(images@);
    let mut blocks: Vec<ContentBlock> = Vec::new();
    match text {
        Some(t) => {
            blocks.push(ContentBlock::Text { text: prefixed("[PDF Content]\n", t.as_str()) });
        },
        None => {},
    }
    let ghost head = blocks_view(blocks@);
    let mut i: usize = 0;
    while i < images.len()
        invariant
            i <= images@.len(),
            iv == image_views(images@),
            head.len() <= 1,
            blocks_view(blocks@) == head + iv.take(i as int).map_values(
                |x: (Seq<char>, Seq<char>)| BlockView::Image(x.0, x.1),
            ),
        decreases images@.len() - i,
    {
        let ghost before = blocks@;
        let block = ContentBlock::Image { data: images[i].data.clone(), mime_type: images[i].mime_type.clone() };
        assert(block_view(block) == BlockView::Image(iv[i as int].0, iv[i as int].1));
        blocks.push(block);
        proof {
            assert(blocks_view(blocks@) =~= blocks_view(before).push(block_view(block)));
            assert(iv.take(i + 1) =~= iv.take(i as int).push(iv[i as int]));
            assert(blocks_view(blocks@) =~= head + iv.take(i + 1).map_values(
                |x: (Seq<char>, Seq<char>)| BlockView::Image(x.0, x.1),
            ));
        }
        i = i + 1;
    }
    proof {
        assert(iv.take(iv.len() as int) =~= iv);
        assert(blocks_view(blocks@) == pdf_blocks(tv, iv));
    }
    if blocks.len() == 0 {
        return Err(to_owned_string("Could not extract any content from PDF"));
    }
    assert(result_view(Ok(blocks)) == pdf_attachment_spec(reading));
    Ok(blocks)
}

/// What an attachment becomes: an image or audio block carrying its data
/// and MIME type as given, the decoded text of a text file, the content of
/// a PDF (`pdf`: what its data gives), or nothing for other types. Text
/// files must be base64 of UTF-8.
pub open spec fn attachment_spec(
    a: Attachment,
    pdf: Result<Seq<BlockView>, Seq<char>>,
) -> Result<Seq<BlockView>, Seq<char>> {
    match kind_of(lowercase(a.mime_type@)) {
        AttachmentKind::Image => Ok(seq![BlockView::Image(a.data@, a.mime_type@)]),
        AttachmentKind::Audio => Ok(seq![BlockView::Audio(a.data@, a.mime_type@)]),
        AttachmentKind::Text => if !is_base64(a.data@) {
            Err("Failed to decode base64: "@ + base64_error_text(a.data@))
        } else {
            let b = choose|b: Seq<u8>| decodes_to(a.data@, b);
            if valid_utf8(b) {
                Ok(seq![BlockView::Text(decode_utf8(b))])
            } else {
                Err("Failed to decode text file as UTF-8: "@ + utf8_error_text(b))
            }
        },
        AttachmentKind::Pdf => match pdf {
            Ok(blocks) => Ok(blocks),
            Err(e) => Err("Failed to process PDF: "@ + e),
        },
        AttachmentKind::Unsupported => Ok(Seq::empty()),
    }
}

/// Whether `r` is what an attachment becomes (see `attachment_spec`), when
/// `render` runs the PDF readers on the decoded data of a PDF.
pub open spec fn attachment_result<F: Fn(&[u8]) -> PdfReading>(
    a: Attachment,
    read: F,
    r: Result<Seq<BlockView>, Seq<char>>,
) -> bool {
    if kind_of(lowercase(a.mime_type@)) != AttachmentKind::Pdf {
        r == attachment_spec(a, Err(Seq::empty()))
    } else if !is_base64(a.data@) {
        r == attachment_spec(a, Err("Failed to decode PDF base64: "@ + base64_error_text(a.data@)))
    } else {
        exists|bs: &[u8], reading: PdfReading|
            decodes_to(a.data@, bs@) && read.ensures((bs,), reading) && r == attachment_spec(
                a,
                pdf_attachment_spec(reading),
            )
    }
}

/// The content blocks of an attachment (see `attachment_spec`). For a PDF,
/// `read_pdf` runs the PDF readers on its decoded data, and the PDF part is what
/// `process_pdf_attachment` gives for the data.
pub fn process_attachment<F: Fn(&[u8]) -> PdfReading>(
    attachment: &Attachment,
    read_pdf: F,
) -> (r: Result<Vec<ContentBlock>, String>)
    requires
        forall|b: &[u8]| read_pdf.requires((b,)),
    ensures
        attachment_result(*attachment, read_pdf, result_view(r)),
{
    let lower = to_lowercase(attachment.mime_type.as_str());
    let mut blocks: Vec<ContentBlock> = Vec::new();
    match classify_mime(lower.as_str()) {
        AttachmentKind::Image => {
            blocks.push(
                ContentBlock::Image { data: attachment.data.clone(), mime_type: attachment.mime_type.clone() },
            );
            assert(blocks_view(blocks@) =~= seq![BlockView::Image(attachment.data@, attachment.mime_type@)]);
        },
        AttachmentKind::Audio => {
            blocks.push(
                ContentBlock::Audio { data: attachment.data.clone(), mime_type: attachment.mime_type.clone() },
            );
            assert(blocks_view(blocks@) =~= seq![BlockView::Audio(attachment.data@, attachment.mime_type@)]);
        },
        AttachmentKind::Text => {
            match decode_base64(attachment.data.as_str()) {
                Ok(bytes) => {
                    assert(decodes_to(attachment.data@, bytes@));
                    proof {
                        lemma_base64_injective(attachment.data@, bytes@);
                    }
                    let ghost b = bytes@;
                    assert((choose|c: Seq<u8>| decodes_to(attachment.data@, c)) == b);
                    match string_from_utf8(bytes) {
                        Ok(text) => {
                            blocks.push(ContentBlock::Text { text });
                            assert(blocks_view(blocks@) =~= seq![BlockView::Text(text@)]);
                        },
                        Err(e) => {
                            return Err(prefixed("Failed to decode text file as UTF-8: ", e.as_str()));
                        },
                    }
                },
                Err(e) => {
                    return Err(prefixed("Failed to decode base64: ", e.as_str()));
                },
            }
        },
        AttachmentKind::Pdf => {
            return match process_pdf_attachment(attachment.data.as_str(), read_pdf) {
                Ok(pdf_blocks) => Ok(pdf_blocks),
                Err(e) => Err(prefixed("Failed to process PDF: ", e.as_str())),
            };
        },
        AttachmentKind::Unsupported => {
            assert(blocks_view(blocks@) =~= Seq::<BlockView>::empty());
        },
    }
    Ok(blocks)
}

} // verus!
