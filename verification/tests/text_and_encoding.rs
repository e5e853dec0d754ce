use noema::doctabs::{ExtractedImage, ImageResponse};
use noema::percent::{decode, encode};
use noema::text::{is_blank, strip_prefix, trim_owned, first_segment_of, last_segment_of};
use noema::import::{replace, rewrite_object_refs};
use noema::compose::join_strings;

#[test]
fn encode_keeps_unreserved_characters() {
    assert_eq!(encode("abcXYZ019-_.~"), "abcXYZ019-_.~");
}

#[test]
fn encode_escapes_reserved_and_multibyte() {
    assert_eq!(encode("image/png; a=b"), "image%2Fpng%3B%20a%3Db");
    assert_eq!(encode("é"), "%C3%A9");
}

#[test]
fn decode_inverts_encode() {
    for s in ["", "hello world", "a/b?c=d&e", "naïve – ☃"] {
        assert_eq!(decode(&encode(s)).as_deref(), Some(s));
    }
}

#[test]
fn decode_handles_plus_and_bad_escapes() {
    assert_eq!(decode("a+b").as_deref(), Some("a+b"));
    assert_eq!(decode("%41%42").as_deref(), Some("AB"));
    assert_eq!(decode("%zz").as_deref(), Some("%zz"));
    assert_eq!(decode("%FF"), None);
}

#[test]
fn trim_removes_unicode_white_space() {
    assert_eq!(trim_owned("  \t hello \n"), "hello");
    assert_eq!(trim_owned("\u{3000}x y\u{2009}"), "x y");
    assert_eq!(trim_owned("   "), "");
    assert!(is_blank(" \n\t"));
    assert!(!is_blank(" a "));
}

#[test]
fn segments_and_prefixes() {
    assert_eq!(first_segment_of("image/png; charset=x", ';'), "image/png");
    assert_eq!(last_segment_of("openrouter/meta/llama", '/'), "llama");
    assert_eq!(last_segment_of("plain", '/'), "plain");
    assert_eq!(strip_prefix("Bearer abc", "Bearer "), Some("abc".to_string()));
    assert_eq!(strip_prefix("Token abc", "Bearer "), None);
}

#[test]
fn replace_scans_left_to_right_without_overlap() {
    assert_eq!(replace("aaaa", "aa", "b"), "bb");
    assert_eq!(replace("abcabc", "bc", "X"), "aXaX");
    assert_eq!(replace("nothing", "zz", "X"), "nothing");
}

#[test]
fn object_references_point_to_stored_assets() {
    let images = vec![("obj1".to_string(), "hash1".to_string()), ("obj2".to_string(), "hash2".to_string())];
    let out = rewrite_object_refs("![a](object:obj1) and ![b](object:obj2)", &images);
    assert_eq!(out, "![a](noema-asset://localhost/hash1) and ![b](noema-asset://localhost/hash2)");
}

fn image_base64(data: &[u8]) -> String {
    let img = ExtractedImage { object_id: "o".to_string(), data: data.to_vec(), mime_type: "image/png".to_string() };
    ImageResponse::from_image(img).data_base64
}

#[test]
fn base64_encoding_is_standard_and_padded() {
    assert_eq!(image_base64(b""), "");
    assert_eq!(image_base64(b"f"), "Zg==");
    assert_eq!(image_base64(b"fo"), "Zm8=");
    assert_eq!(image_base64(b"foo"), "Zm9v");
    assert_eq!(image_base64(b"foobar"), "Zm9vYmFy");
}

#[test]
fn join_separates_parts() {
    let parts = vec!["a".to_string(), "b".to_string(), "c".to_string()];
    assert_eq!(join_strings(&parts, "\n\n"), "a\n\nb\n\nc");
    assert_eq!(join_strings(&vec![], ", "), "");
}

#[test]
fn encode_works_piece_by_piece() {
    let (a, b) = ("a b/", "é~?");
    assert_eq!(encode(&format!("{}{}", a, b)), format!("{}{}", encode(a), encode(b)));
    assert_eq!(encode(""), "");
}
