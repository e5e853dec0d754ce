use std::io::Write;

use noema::attachments::{classify_mime, process_attachment, process_pdf_attachment, Attachment, AttachmentKind};
use noema::model::ContentBlock;
use noema::pdf::{
    convert_raw_to_png, extract_flate_image, extract_image_from_stream, pdf_content, process_pdf, PdfEntry,
    PdfReading, PdfStream,
};

fn s(x: &str) -> String {
    x.to_string()
}

fn no_forms(_b: &[u8]) -> PdfReading {
    PdfReading { text: None, objects: None, forms: Ok(Vec::new()) }
}

fn gray_pixel() -> PdfStream {
    image_stream(
        vec![
            ("Width", PdfEntry::Integer(1)),
            ("Height", PdfEntry::Integer(1)),
            ("ColorSpace", name("DeviceGray")),
            ("BitsPerComponent", PdfEntry::Integer(8)),
        ],
        vec![200],
    )
}

fn one_image(_b: &[u8]) -> PdfReading {
    PdfReading { text: None, objects: Some(vec![Some(gray_pixel()), None]), forms: Ok(Vec::new()) }
}

fn failing_forms(_b: &[u8]) -> PdfReading {
    PdfReading { text: None, objects: Some(vec![Some(gray_pixel())]), forms: Err(s("Failed to load pdfium")) }
}

fn one_diagram(_b: &[u8]) -> PdfReading {
    PdfReading { text: None, objects: Some(vec![Some(gray_pixel())]), forms: Ok(vec![vec![1, 2, 3]]) }
}

fn name(x: &str) -> PdfEntry {
    PdfEntry::Name(x.as_bytes().to_vec())
}

fn image_stream(entries: Vec<(&str, PdfEntry)>, content: Vec<u8>) -> PdfStream {
    let mut dict = vec![(b"Subtype".to_vec(), name("Image"))];
    for (k, v) in entries {
        dict.push((k.as_bytes().to_vec(), v));
    }
    PdfStream { dict, content }
}

fn zlib(data: &[u8]) -> Vec<u8> {
    let mut e = flate2::write::ZlibEncoder::new(Vec::new(), flate2::Compression::default());
    e.write_all(data).unwrap();
    e.finish().unwrap()
}

#[test]
fn jpeg_streams_are_kept_as_is() {
    let st = image_stream(
        vec![("Width", PdfEntry::Integer(2)), ("Height", PdfEntry::Integer(2)), ("Filter", name("DCTDecode"))],
        vec![0xFF, 0xD8, 0xFF, 0xE0],
    );
    let img = extract_image_from_stream(&st).unwrap();
    assert_eq!(img.mime_type, "image/jpeg");
    assert_eq!(img.data, "/9j/4A==");
}

#[test]
fn streams_that_are_not_images() {
    let mut st = image_stream(vec![("Width", PdfEntry::Integer(2)), ("Height", PdfEntry::Integer(2))], vec![0; 12]);
    st.dict[0].1 = name("Form");
    assert!(extract_image_from_stream(&st).is_none());
    let st = image_stream(vec![("Width", PdfEntry::Integer(0)), ("Height", PdfEntry::Integer(2))], vec![0; 12]);
    assert!(extract_image_from_stream(&st).is_none());
    let st = image_stream(vec![("Width", PdfEntry::Other), ("Height", PdfEntry::Integer(2))], vec![0; 12]);
    assert!(extract_image_from_stream(&st).is_none());
    let st = image_stream(
        vec![("Width", PdfEntry::Integer(1)), ("Height", PdfEntry::Integer(1)), ("Filter", name("JBIG2Decode"))],
        vec![0; 3],
    );
    assert!(extract_image_from_stream(&st).is_none());
    let st = image_stream(
        vec![("Width", PdfEntry::Integer(1)), ("Height", PdfEntry::Integer(1)), ("Filter", name("DCTDecode"))],
        vec![0; 3],
    );
    assert!(extract_image_from_stream(&st).is_none());
}

#[test]
fn raw_pixels_become_png() {
    let img = convert_raw_to_png(&[255, 0, 0, 0, 255, 0], 2, 1, 8, Some(b"DeviceRGB")).unwrap();
    assert_eq!(img.mime_type, "image/png");
    assert!(img.data.starts_with("iVBORw0KGgo"));
    assert!(convert_raw_to_png(&[1, 2, 3], 2, 1, 8, Some(b"DeviceRGB")).is_none());
    let gray = convert_raw_to_png(&[0, 128], 2, 1, 8, Some(b"DeviceGray")).unwrap();
    assert!(gray.data.starts_with("iVBORw0KGgo"));
    assert!(convert_raw_to_png(&[0; 8], 2, 1, 8, None).is_some());
    assert!(convert_raw_to_png(&[0; 5], 2, 1, 8, None).is_none());
    assert!(convert_raw_to_png(&[0; 4], 4_000_000_000, 4_000_000_000, 8, None).is_none());
}

#[test]
fn flate_streams_are_inflated() {
    let packed = zlib(&[10, 20, 30]);
    let img = extract_flate_image(&packed, 1, 1, 8, Some(b"DeviceRGB")).unwrap();
    assert!(img.data.starts_with("iVBORw0KGgo"));
    assert!(extract_flate_image(b"not zlib", 1, 1, 8, Some(b"DeviceRGB")).is_none());
    let st = image_stream(
        vec![
            ("Width", PdfEntry::Integer(1)),
            ("Height", PdfEntry::Integer(1)),
            ("ColorSpace", name("DeviceRGB")),
            ("Filter", PdfEntry::Array(vec![Some(b"FlateDecode".to_vec())])),
        ],
        packed,
    );
    assert!(extract_image_from_stream(&st).is_some());
}

#[test]
fn pdf_images_and_diagrams() {
    let bytes = b"%PDF-1.5".to_vec();
    let pdf = process_pdf(&bytes, one_image).ok().unwrap();
    assert!(pdf.text.is_none());
    assert_eq!(pdf.images.len(), 1);
    assert_eq!(pdf.images[0].mime_type, "image/png");
    let pdf = process_pdf(&bytes, one_diagram).ok().unwrap();
    assert_eq!(pdf.images.len(), 2);
    assert_eq!(pdf.images[1].data, "AQID");
    assert_eq!(pdf.images[1].mime_type, "image/png");
    let pdf = process_pdf(&bytes, failing_forms).ok().unwrap();
    assert_eq!(pdf.images.len(), 1);
}

#[test]
fn pdf_text_is_trimmed() {
    let reading = PdfReading { text: Some(s("  Hello PDF \n")), objects: None, forms: Err(s("no pdfium")) };
    let pdf = pdf_content(reading).ok().unwrap();
    assert_eq!(pdf.text, Some(s("Hello PDF")));
    assert!(pdf.images.is_empty());
    let blank = PdfReading { text: Some(s(" \n\t")), objects: Some(vec![None]), forms: Ok(Vec::new()) };
    assert_eq!(pdf_content(blank).err(), Some(s("Could not extract any content from PDF")));
}

#[test]
fn unreadable_pdfs_have_no_content() {
    assert_eq!(process_pdf(b"not a pdf", no_forms).err(), Some(s("Could not extract any content from PDF")));
}

#[test]
fn mime_classification() {
    assert_eq!(classify_mime("image/png"), AttachmentKind::Image);
    assert_eq!(classify_mime("audio/mp3"), AttachmentKind::Audio);
    assert_eq!(classify_mime("text/markdown"), AttachmentKind::Text);
    assert_eq!(classify_mime("application/pdf"), AttachmentKind::Pdf);
    assert_eq!(classify_mime("application/pdfx"), AttachmentKind::Unsupported);
    assert_eq!(classify_mime("Image/PNG"), AttachmentKind::Unsupported);
}

#[test]
fn attachments_by_type() {
    let a = Attachment { mime_type: s("Image/PNG"), data: s("abc") };
    let b = process_attachment(&a, no_forms).ok().unwrap();
    assert!(matches!(&b[0], ContentBlock::Image { data, mime_type } if data == "abc" && mime_type == "Image/PNG"));
    let a = Attachment { mime_type: s("audio/wav"), data: s("UklG") };
    let b = process_attachment(&a, no_forms).ok().unwrap();
    assert!(matches!(&b[0], ContentBlock::Audio { .. }));
    let a = Attachment { mime_type: s("TEXT/plain"), data: s("aGVsbG8=") };
    let b = process_attachment(&a, no_forms).ok().unwrap();
    assert!(matches!(&b[0], ContentBlock::Text { text } if text == "hello"));
    let a = Attachment { mime_type: s("application/zip"), data: s("UEs=") };
    assert!(process_attachment(&a, no_forms).ok().unwrap().is_empty());
}

#[test]
fn attachment_errors() {
    let a = Attachment { mime_type: s("text/plain"), data: s("not base64!") };
    let e = process_attachment(&a, no_forms).err().unwrap();
    assert!(e.starts_with("Failed to decode base64: "));
    let a = Attachment { mime_type: s("text/plain"), data: s("/w==") };
    let e = process_attachment(&a, no_forms).err().unwrap();
    assert!(e.starts_with("Failed to decode text file as UTF-8: "));
    let a = Attachment { mime_type: s("application/pdf"), data: s("bm90IGEgcGRm") };
    let e = process_attachment(&a, no_forms).err().unwrap();
    assert_eq!(e, "Failed to process PDF: Could not extract any content from PDF");
    let a = Attachment { mime_type: s("application/pdf"), data: s("???") };
    let e = process_attachment(&a, no_forms).err().unwrap();
    assert!(e.starts_with("Failed to process PDF: Failed to decode PDF base64: "));
}

#[test]
fn pdf_attachment_blocks() {
    let b64 = noema::doctabs::ImageResponse::from_image(noema::doctabs::ExtractedImage {
        object_id: s("o"),
        data: b"%PDF-1.5".to_vec(),
        mime_type: s("application/pdf"),
    })
    .data_base64;
    let blocks = process_pdf_attachment(&b64, one_diagram).ok().unwrap();
    assert_eq!(blocks.len(), 2);
    assert!(blocks.iter().all(|b| matches!(b, ContentBlock::Image { mime_type, .. } if mime_type == "image/png")));
}
