use ddsfile::{AlphaMode, D3D10ResourceDimension, Dds, DxgiFormat, NewDxgiParams};
use texswizzle::descriptor::{AnisoRatio, FilterMode, MipFilterMode, WrapMode};
use texswizzle::format::PixelFormat;
use texswizzle::pipeline::prepare_conversion;
use texswizzle::resolve::{Provenance, ResolveError};

fn container_bytes(width: u32, height: u32, format: DxgiFormat, data: Vec<u8>) -> Vec<u8> {
    let mut dds = Dds::new_dxgi(NewDxgiParams {
        height,
        width,
        depth: None,
        format,
        mipmap_levels: Some(1),
        array_layers: None,
        caps2: None,
        is_cubemap: false,
        resource_dimension: D3D10ResourceDimension::Texture2D,
        alpha_mode: AlphaMode::Unknown,
    })
    .unwrap();
    dds.data = data;
    let mut out = Vec::new();
    dds.write(&mut out).unwrap();
    out
}

#[test]
fn container_with_matching_budget_passes_payload_unmodified() {
    let data: Vec<u8> = (0..262144u32).map(|i| (i % 251) as u8).collect();
    let bytes = container_bytes(256, 256, DxgiFormat::R8G8B8A8_UNorm, data.clone());
    let p = prepare_conversion("tex.dds", bytes, None, None, &None, 262144).unwrap();
    assert_eq!(p.descriptor.width, 256);
    assert_eq!(p.descriptor.height, 256);
    assert_eq!(p.descriptor.format, PixelFormat::Rgba8Unorm);
    assert_eq!(p.descriptor.layer_count, 1);
    assert_eq!(p.descriptor.mip_byte_sizes, vec![262144]);
    assert_eq!(p.descriptor.tiling_hint, 0);
    assert_eq!(p.descriptor.swizzle_hint, 0);
    assert_eq!(p.descriptor.sampler.reserved, 0);
    assert_eq!(p.descriptor.sampler.filter, FilterMode::Linear);
    assert_eq!(p.descriptor.sampler.wrap_x, WrapMode::Repeat);
    assert_eq!(p.descriptor.sampler.wrap_y, WrapMode::Repeat);
    assert_eq!(p.descriptor.sampler.wrap_z, WrapMode::Repeat);
    assert_eq!(p.descriptor.sampler.mip_filter, MipFilterMode::Linear);
    assert_eq!(p.descriptor.sampler.aniso, AnisoRatio::Ratio1);
    assert_eq!(p.payload, data);
    assert!(!p.payload_was_adjusted);
    assert_eq!(p.resolved_len, 262144);
    match p.provenance {
        Provenance::Container(tag) => assert_eq!(tag, 28),
        other => panic!("unexpected provenance: {:?}", other),
    }
}

#[test]
fn raw_file_with_matching_budget_is_passed_unmodified() {
    let raw: Vec<u8> = (0..100u32).map(|i| i as u8).collect();
    let p = prepare_conversion(
        "pixels.bin",
        raw.clone(),
        Some(10),
        Some(10),
        &Some(String::from("R8")),
        100,
    )
    .unwrap();
    assert_eq!(p.descriptor.width, 10);
    assert_eq!(p.descriptor.height, 10);
    assert_eq!(p.descriptor.format, PixelFormat::R8Unorm);
    assert_eq!(p.payload, raw);
    assert!(!p.payload_was_adjusted);
    assert!(matches!(p.provenance, Provenance::Raw));
}

#[test]
fn raw_file_below_budget_is_padded_with_zeros() {
    let raw: Vec<u8> = (1..=100u32).map(|i| i as u8).collect();
    let p = prepare_conversion(
        "pixels.bin",
        raw.clone(),
        Some(10),
        Some(10),
        &Some(String::from("R8")),
        200,
    )
    .unwrap();
    assert_eq!(p.payload.len(), 200);
    assert_eq!(&p.payload[..100], &raw[..]);
    assert!(p.payload[100..].iter().all(|&b| b == 0));
    assert!(p.payload_was_adjusted);
    assert_eq!(p.resolved_len, 100);
}

#[test]
fn payload_above_budget_is_truncated_to_prefix() {
    let raw: Vec<u8> = (0..50u32).map(|i| i as u8).collect();
    let p = prepare_conversion(
        "pixels.bin",
        raw.clone(),
        Some(5),
        Some(5),
        &Some(String::from("R8")),
        25,
    )
    .unwrap();
    assert_eq!(p.payload.len(), 25);
    assert_eq!(&p.payload[..], &raw[..25]);
    assert!(p.payload_was_adjusted);
}

#[test]
fn invalid_container_with_overrides_falls_back() {
    let raw = b"not a container at all".to_vec();
    let p = prepare_conversion(
        "broken.dds",
        raw.clone(),
        Some(4),
        Some(4),
        &Some(String::from("RGBA8")),
        raw.len() as u32,
    )
    .unwrap();
    assert_eq!(p.descriptor.width, 4);
    assert_eq!(p.descriptor.format, PixelFormat::Rgba8Unorm);
    assert_eq!(p.payload, raw);
    assert!(matches!(p.provenance, Provenance::Fallback(_)));
}

#[test]
fn invalid_container_without_overrides_reports_missing_field() {
    let raw = b"not a container at all".to_vec();
    let err = prepare_conversion("broken.dds", raw, None, None, &None, 16).unwrap_err();
    assert!(matches!(err, ResolveError::MissingWidth));
}

#[test]
fn descriptor_budget_always_equals_payload_length() {
    for (len, budget) in [(0usize, 8u32), (8, 8), (20, 8), (8, 0)] {
        let raw = vec![3u8; len];
        let p = prepare_conversion(
            "pixels.bin",
            raw,
            Some(2),
            Some(2),
            &Some(String::from("rgba8")),
            budget,
        )
        .unwrap();
        assert_eq!(p.descriptor.mip_byte_sizes, vec![budget]);
        assert_eq!(p.payload.len(), budget as usize);
        assert_eq!(p.payload_was_adjusted, len != budget as usize);
    }
}
