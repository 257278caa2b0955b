//! Tests of the provider adapter's request cycle and the engine registry,
//! with a small test-side pixel codec standing in for the rendering
//! pipeline's own image loading.
//!
//! Codec: byte 0 is the width, byte 1 the height, then one big-endian
//! packed color value of four bytes per pixel, row-major. Anything else is
//! not a valid payload and decodes to nothing.

use imageprovider::adapter::ProviderAdapter;
use imageprovider::engine::QmlEngine;
use imageprovider::pixel::PixelBuffer;

const OPAQUE_RED: u32 = 0xFF_FF_00_00;

fn encode_image(width: u8, height: u8, pixels: &[u32]) -> Vec<u8> {
    assert_eq!(pixels.len(), width as usize * height as usize);
    let mut out = vec![width, height];
    for p in pixels {
        out.push((p >> 24) as u8);
        out.push((p >> 16) as u8);
        out.push((p >> 8) as u8);
        out.push(*p as u8);
    }
    out
}

fn decode_image(bytes: &Vec<u8>) -> Option<PixelBuffer> {
    if bytes.len() < 2 {
        return None;
    }
    let width = bytes[0] as usize;
    let height = bytes[1] as usize;
    if bytes.len() != 2 + width * height * 4 {
        return None;
    }
    let mut pixels: Vec<u32> = Vec::new();
    for i in 0..width * height {
        let at = 2 + i * 4;
        let p = (bytes[at] as u32) << 24
            | (bytes[at + 1] as u32) << 16
            | (bytes[at + 2] as u32) << 8
            | bytes[at + 3] as u32;
        pixels.push(p);
    }
    Some(PixelBuffer::new(width as u32, height as u32, pixels))
}

fn gray(level: u8) -> u32 {
    0xFF_00_00_00 | (level as u32) << 16 | (level as u32) << 8 | level as u32
}

fn solid_red(_id: &str) -> Vec<u8> {
    encode_image(1, 1, &[OPAQUE_RED])
}

fn solid_blue(_id: &str) -> Vec<u8> {
    encode_image(1, 1, &[0xFF_00_00_FF])
}

fn empty_bytes(_id: &str) -> Vec<u8> {
    Vec::new()
}

fn id_length_gray(id: &str) -> Vec<u8> {
    encode_image(1, 1, &[gray(id.len() as u8)])
}

fn garbage(_id: &str) -> Vec<u8> {
    vec![9u8, 9, 9]
}

#[test]
fn request_yields_decoded_supplier_image() {
    let adapter = ProviderAdapter::new(solid_red as fn(&str) -> Vec<u8>);
    let image = adapter.request_pixmap("anything", None, &decode_image);
    assert_eq!(image.width(), 1);
    assert_eq!(image.height(), 1);
    assert_eq!(image.pixels().as_slice(), &[OPAQUE_RED]);
}

#[test]
fn invalid_payload_degrades_to_empty_image() {
    let adapter = ProviderAdapter::new(garbage as fn(&str) -> Vec<u8>);
    let image = adapter.request_pixmap("any", None, &decode_image);
    assert_eq!(image.width(), 0);
    assert_eq!(image.height(), 0);
    assert!(image.pixels().is_empty());
}

#[test]
fn requested_size_is_accepted_and_ignored() {
    let adapter = ProviderAdapter::new(solid_red as fn(&str) -> Vec<u8>);
    let image = adapter.request_pixmap("any", Some((64, 64)), &decode_image);
    assert_eq!((image.width(), image.height()), (1, 1));
}

#[test]
fn scenario_solid_red() {
    let mut engine: QmlEngine<fn(&str) -> Vec<u8>> = QmlEngine::new();
    engine.add_proxy_image_provider(String::from("solid"), solid_red);
    let adapter = engine.image_provider(&String::from("solid")).unwrap();
    let image = adapter.request_pixmap("solid", None, &decode_image);
    assert_eq!((image.width(), image.height()), (1, 1));
    assert_eq!(image.pixels().as_slice(), &[OPAQUE_RED]);
}

#[test]
fn scenario_empty_supplier_output() {
    let mut engine: QmlEngine<fn(&str) -> Vec<u8>> = QmlEngine::new();
    engine.add_proxy_image_provider(String::from("empty"), empty_bytes);
    let adapter = engine.image_provider(&String::from("empty")).unwrap();
    let image = adapter.request_pixmap("empty", None, &decode_image);
    assert_eq!((image.width(), image.height()), (0, 0));
    assert!(image.pixels().is_empty());
}

#[test]
fn scenario_identifier_delivered_per_call() {
    let mut engine: QmlEngine<fn(&str) -> Vec<u8>> = QmlEngine::new();
    engine.add_proxy_image_provider(String::from("len"), id_length_gray);
    let adapter = engine.image_provider(&String::from("len")).unwrap();
    let first = adapter.request_pixmap("abc", None, &decode_image);
    let second = adapter.request_pixmap("de", None, &decode_image);
    assert_eq!(first.pixels().as_slice(), &[gray(3)]);
    assert_eq!(second.pixels().as_slice(), &[gray(2)]);
}

#[test]
fn registration_under_same_name_replaces() {
    let mut engine: QmlEngine<fn(&str) -> Vec<u8>> = QmlEngine::new();
    engine.add_proxy_image_provider(String::from("solid"), solid_red);
    engine.add_proxy_image_provider(String::from("solid"), solid_blue);
    let adapter = engine.image_provider(&String::from("solid")).unwrap();
    let image = adapter.request_pixmap("solid", None, &decode_image);
    assert_eq!(image.pixels().as_slice(), &[0xFF_00_00_FF]);
}

#[test]
fn registration_leaves_other_names_alone() {
    let mut engine: QmlEngine<fn(&str) -> Vec<u8>> = QmlEngine::new();
    engine.add_proxy_image_provider(String::from("red"), solid_red);
    engine.add_proxy_image_provider(String::from("blue"), solid_blue);
    let red = engine.image_provider(&String::from("red")).unwrap();
    let image = red.request_pixmap("red", None, &decode_image);
    assert_eq!(image.pixels().as_slice(), &[OPAQUE_RED]);
}

#[test]
fn lookup_of_unregistered_name_is_none() {
    let mut engine: QmlEngine<fn(&str) -> Vec<u8>> = QmlEngine::new();
    engine.add_proxy_image_provider(String::from("solid"), solid_red);
    assert!(engine.image_provider(&String::from("other")).is_none());
}

#[test]
fn empty_engine_has_no_providers() {
    let engine: QmlEngine<fn(&str) -> Vec<u8>> = QmlEngine::new();
    assert!(engine.image_provider(&String::from("solid")).is_none());
}
