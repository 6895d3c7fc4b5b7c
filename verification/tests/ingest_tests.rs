//! Tests for the image ingestion pass and the media helpers.

use base64::Engine;
use nibandh::ingest::{ingest_content, scan_remote_urls};
use nibandh::media::{guess_extension_from_url, FetchResponse, ImageRole};

fn b(s: &str) -> Vec<u8> {
    s.as_bytes().to_vec()
}

fn s(v: &[u8]) -> String {
    String::from_utf8(v.to_vec()).unwrap()
}

fn one_pixel_png() -> Vec<u8> {
    let img = image::RgbaImage::from_pixel(1, 1, image::Rgba([255, 0, 0, 255]));
    let mut png: Vec<u8> = Vec::new();
    image::DynamicImage::ImageRgba8(img)
        .write_to(&mut std::io::Cursor::new(&mut png), image::ImageFormat::Png)
        .unwrap();
    png
}

fn png_data_url() -> String {
    let png = one_pixel_png();
    let b64 = base64::engine::general_purpose::STANDARD.encode(&png);
    format!("data:image/png;base64,{}", b64)
}

#[test]
fn no_references_is_a_no_op() {
    let content = b("# Title\n\nplain text, a [link](https://example.com) but no images.\n");
    let fetches: Vec<Option<FetchResponse>> = Vec::new();
    let (out, images) = ingest_content(&content, &b("post"), &b("/images"), &fetches);
    assert_eq!(out, content);
    assert_eq!(images.len(), 0);
}

#[test]
fn embedded_image_is_transcoded_and_rewritten() {
    let content = format!("before ![alt text]({}) after", png_data_url());
    let fetches: Vec<Option<FetchResponse>> = Vec::new();
    let (out, images) = ingest_content(content.as_bytes(), &b("post"), &b("/images"), &fetches);
    assert_eq!(s(&out), "before ![alt text](/images/img_post_1.webp) after");
    assert_eq!(images.len(), 1);
    assert_eq!(s(&images[0].filename), "img_post_1.webp");
    assert_eq!(
        image::guess_format(&images[0].bytes).unwrap(),
        image::ImageFormat::WebP
    );
    let decoded = image::load_from_memory(&images[0].bytes).unwrap();
    assert_eq!(decoded.width(), 1);
    assert_eq!(decoded.height(), 1);
}

#[test]
fn ordinals_follow_document_order() {
    let content = format!("![a]({u}) mid ![b]({u}) end", u = png_data_url());
    let fetches: Vec<Option<FetchResponse>> = Vec::new();
    let (out, images) = ingest_content(content.as_bytes(), &b("post"), &b("/images"), &fetches);
    assert_eq!(
        s(&out),
        "![a](/images/img_post_1.webp) mid ![b](/images/img_post_2.webp) end"
    );
    assert_eq!(images.len(), 2);
    assert_eq!(s(&images[0].filename), "img_post_1.webp");
    assert_eq!(s(&images[1].filename), "img_post_2.webp");
}

#[test]
fn corrupt_image_keeps_markup_and_processing_continues() {
    let content = format!(
        "![bad](data:image/png;base64,!!!notbase64!!!) then ![good]({})",
        png_data_url()
    );
    let fetches: Vec<Option<FetchResponse>> = Vec::new();
    let (out, images) = ingest_content(content.as_bytes(), &b("post"), &b("/images"), &fetches);
    // the corrupt reference is untouched, and the next one still resolves,
    // taking the first ordinal since the failed one consumed none
    assert_eq!(
        s(&out),
        "![bad](data:image/png;base64,!!!notbase64!!!) then ![good](/images/img_post_1.webp)"
    );
    assert_eq!(images.len(), 1);
    assert_eq!(s(&images[0].filename), "img_post_1.webp");
}

#[test]
fn data_url_without_comma_fails_that_reference() {
    let content = b("x ![a](data:image/png;base64) y");
    let fetches: Vec<Option<FetchResponse>> = Vec::new();
    let (out, images) = ingest_content(&content, &b("post"), &b("/images"), &fetches);
    assert_eq!(out, content);
    assert_eq!(images.len(), 0);
}

#[test]
fn undecodable_payload_falls_back_to_header_extension() {
    let garbage = base64::engine::general_purpose::STANDARD.encode(b"not an image at all");
    let content = format!("![x](data:image/gif;base64,{})", garbage);
    let fetches: Vec<Option<FetchResponse>> = Vec::new();
    let (out, images) = ingest_content(content.as_bytes(), &b("post"), &b("/images"), &fetches);
    assert_eq!(s(&out), "![x](/images/img_post_1.gif)");
    assert_eq!(images.len(), 1);
    assert_eq!(s(&images[0].filename), "img_post_1.gif");
    assert_eq!(images[0].bytes, b"not an image at all".to_vec());
}

#[test]
fn html_img_preserves_attributes() {
    let content = format!(
        "<img class=\"wide\" src=\"{}\" loading=\"lazy\">",
        png_data_url()
    );
    let fetches: Vec<Option<FetchResponse>> = Vec::new();
    let (out, images) = ingest_content(content.as_bytes(), &b("post"), &b("/images"), &fetches);
    assert_eq!(
        s(&out),
        "<img class=\"wide\" src=\"/images/img_post_1.webp\" loading=\"lazy\">"
    );
    assert_eq!(images.len(), 1);
}

#[test]
fn remote_image_uses_fetch_outcome() {
    let content = b("![r](https://example.com/pic.bin)");
    let fetches = vec![Some(FetchResponse {
        content_type: b("image/png"),
        body: one_pixel_png(),
    })];
    let (out, images) = ingest_content(&content, &b("post"), &b("/images"), &fetches);
    assert_eq!(s(&out), "![r](/images/img_post_1.webp)");
    assert_eq!(images.len(), 1);
    assert_eq!(
        image::guess_format(&images[0].bytes).unwrap(),
        image::ImageFormat::WebP
    );
}

#[test]
fn remote_image_content_type_fallback_when_undecodable() {
    let content = b("![r](https://example.com/pic)");
    let fetches = vec![Some(FetchResponse {
        content_type: b("image/png; charset=binary"),
        body: b("junk bytes"),
    })];
    let (out, images) = ingest_content(&content, &b("post"), &b("/images"), &fetches);
    assert_eq!(s(&out), "![r](/images/img_post_1.png)");
    assert_eq!(images.len(), 1);
    assert_eq!(images[0].bytes, b("junk bytes"));
}

#[test]
fn failed_fetch_keeps_remote_markup() {
    let content = b("![r](https://example.com/down.png) tail");
    let fetches: Vec<Option<FetchResponse>> = vec![None];
    let (out, images) = ingest_content(&content, &b("post"), &b("/images"), &fetches);
    assert_eq!(out, content);
    assert_eq!(images.len(), 0);
}

#[test]
fn scan_remote_urls_lists_in_document_order() {
    let content = format!(
        "![a](https://one.example/a.png) ![e]({}) <img src=\"http://two.example/b\">",
        png_data_url()
    );
    let urls = scan_remote_urls(content.as_bytes());
    assert_eq!(urls.len(), 2);
    assert_eq!(s(&urls[0]), "https://one.example/a.png");
    assert_eq!(s(&urls[1]), "http://two.example/b");
}

#[test]
fn guess_extension_from_url_accepts_known_extensions() {
    assert_eq!(
        guess_extension_from_url(b"https://x.test/a/photo.PNG?width=3").as_deref(),
        Some(b"png".as_slice())
    );
    assert_eq!(
        guess_extension_from_url(b"https://x.test/pic.jpeg").as_deref(),
        Some(b"jpeg".as_slice())
    );
    assert_eq!(
        guess_extension_from_url(b"https://x.test/file.avif").as_deref(),
        Some(b"avif".as_slice())
    );
    assert_eq!(guess_extension_from_url(b"https://x.test/page.html"), None);
    assert_eq!(guess_extension_from_url(b"https://x.test/noext"), None);
}

#[test]
fn cover_role_uses_cover_filename() {
    // through the public store function: the cover role overwrites the same
    // name on every run
    let png = one_pixel_png();
    let b64 = base64::engine::general_purpose::STANDARD.encode(&png);
    let url = format!("data:image/png;base64,{}", b64);
    let img = nibandh::media::store_data_url_image(url.as_bytes(), b"post".as_slice(), ImageRole::Cover)
        .unwrap();
    assert_eq!(s(&img.filename), "cover_post.webp");
}
