use media_bridge::artwork::{
    accent_hue_of_pixels, encode_image_to_base64, extract_accent_color_hue, hue_degrees,
    DEFAULT_HUE,
};
use media_bridge::media::{
    ms_to_ticks, ticks_to_ms, AutoRepeatMode, InvalidRepeatMode, TrackControls, TrackInfo,
    TrackTimeline, MAX_SEEK_MS,
};
use media_bridge::server::{server_url, ServerConfig, SOCKETIO_PORT};

#[test]
fn repeat_mode_names_round_trip() {
    for m in [AutoRepeatMode::Off, AutoRepeatMode::Track, AutoRepeatMode::List] {
        assert_eq!(AutoRepeatMode::from_str(&m.to_string()), Ok(m));
    }
    assert_eq!(AutoRepeatMode::from_str("none"), Ok(AutoRepeatMode::Off));
    assert_eq!(AutoRepeatMode::Track.to_string(), "track");
}

#[test]
fn unknown_repeat_mode_names_are_refused() {
    for s in ["", "all", "None", "track ", "lists"] {
        assert_eq!(AutoRepeatMode::from_str(s), Err(InvalidRepeatMode));
    }
}

#[test]
fn provider_repeat_codes() {
    assert_eq!(AutoRepeatMode::from_code(0), AutoRepeatMode::Off);
    assert_eq!(AutoRepeatMode::from_code(1), AutoRepeatMode::Track);
    assert_eq!(AutoRepeatMode::from_code(2), AutoRepeatMode::List);
    assert_eq!(AutoRepeatMode::from_code(7), AutoRepeatMode::Off);
    assert_eq!(AutoRepeatMode::List.code(), 2);
}

#[test]
fn tick_conversions() {
    assert_eq!(ticks_to_ms(50_000_000), 5000);
    assert_eq!(ticks_to_ms(9_999), 0);
    assert_eq!(ticks_to_ms(-20_000), 0);
    assert_eq!(ms_to_ticks(5000), Some(50_000_000));
    assert_eq!(ms_to_ticks(MAX_SEEK_MS), Some(MAX_SEEK_MS as i64 * 10_000));
    assert_eq!(ms_to_ticks(MAX_SEEK_MS + 1), None);
    assert_eq!(TrackTimeline::from_ticks(123_456_789).progress, 12_345);
}

#[test]
fn controls_ignore_disabled_states() {
    let c = TrackControls::from_readings(false, false, true, false, true, true, true, 2);
    assert!(!c.shuffle);
    assert_eq!(c.auto_repeat_mode, AutoRepeatMode::Off);
    assert!(c.next_enabled && !c.prev_enabled && c.play_pause_enabled && c.playing);
    let c = TrackControls::from_readings(true, true, false, false, false, false, true, 1);
    assert!(c.shuffle);
    assert_eq!(c.auto_repeat_mode, AutoRepeatMode::Track);
}

#[test]
fn artwork_data_url() {
    assert_eq!(encode_image_to_base64(b"hello"), "data:image/jpeg;base64,aGVsbG8=");
    assert_eq!(encode_image_to_base64(b""), "data:image/jpeg;base64,");
}

#[test]
fn hue_of_primary_and_mixed_colours() {
    assert_eq!(hue_degrees(255, 0, 0), 0);
    assert_eq!(hue_degrees(0, 255, 0), 120);
    assert_eq!(hue_degrees(0, 0, 255), 240);
    assert_eq!(hue_degrees(255, 128, 0), 30);
    assert_eq!(hue_degrees(255, 0, 8), 358);
    assert_eq!(hue_degrees(80, 80, 80), 0);
    assert_eq!(hue_degrees(46, 204, 113), 145);
}

#[test]
fn accent_hue_skips_dark_pixels() {
    assert_eq!(accent_hue_of_pixels(&[0, 0, 0, 10, 20, 29]), DEFAULT_HUE);
    assert_eq!(accent_hue_of_pixels(&[]), DEFAULT_HUE);
    assert_eq!(accent_hue_of_pixels(&[0, 0, 0, 0, 0, 255, 5]), 240);
    // averages (200, 100, 0) -> 30 degrees
    assert_eq!(accent_hue_of_pixels(&[255, 100, 0, 145, 100, 0, 1, 2, 3]), 30);
}

#[test]
fn accent_hue_of_encoded_artwork() {
    let img = image::RgbImage::from_pixel(4, 4, image::Rgb([0, 0, 200]));
    let mut png = std::io::Cursor::new(Vec::new());
    image::DynamicImage::ImageRgb8(img).write_to(&mut png, image::ImageFormat::Png).unwrap();
    assert_eq!(extract_accent_color_hue(png.get_ref()).unwrap(), 240);
    assert!(extract_accent_color_hue(b"not an image").is_err());
}

#[test]
fn track_info_from_readings() {
    let t = TrackInfo::from_readings(
        "Song".to_string(),
        "Band".to_string(),
        Some("Album".to_string()),
        1_800_000_000,
        None,
    );
    assert_eq!(t.duration, 180_000);
    assert_eq!(t.thumbnail, None);
    assert_eq!(t.accent_color, None);
    assert_eq!(t.album.as_deref(), Some("Album"));
    let t = TrackInfo::from_readings("S".to_string(), "A".to_string(), None, 0, Some(b"hi".to_vec()));
    assert_eq!(t.thumbnail.as_deref(), Some("data:image/jpeg;base64,aGk="));
    assert_eq!(t.accent_color, None);
    let k = t.key(true);
    assert_eq!((k.title.as_str(), k.artist.as_str(), k.playing), ("S", "A", true));
}

#[test]
fn server_urls() {
    assert_eq!(server_url("localhost", 5174), "http://localhost:5174");
    assert_eq!(server_url("10.0.0.2", 0), "http://10.0.0.2:0");
    let mut c = ServerConfig::new();
    assert_eq!(c.port, SOCKETIO_PORT);
    assert_eq!(c.get_url(), "http://localhost:5174");
    c.set_info("192.168.1.5".to_string(), 65535);
    assert_eq!(c.get_url(), "http://192.168.1.5:65535");
}

#[test]
fn track_info_with_decodable_artwork_has_a_hue() {
    let img = image::RgbImage::from_pixel(2, 2, image::Rgb([200, 0, 0]));
    let mut png = std::io::Cursor::new(Vec::new());
    image::DynamicImage::ImageRgb8(img).write_to(&mut png, image::ImageFormat::Png).unwrap();
    let bytes = png.into_inner();
    let t = TrackInfo::from_readings("S".to_string(), "A".to_string(), None, 0, Some(bytes.clone()));
    assert_eq!(t.accent_color, Some(0));
    assert_eq!(t.thumbnail, Some(encode_image_to_base64(&bytes)));
    assert_eq!(
        t.thumbnail.unwrap().len(),
        "data:image/jpeg;base64,".len() + 4 * ((bytes.len() + 2) / 3)
    );
}

#[test]
fn accent_hue_of_bmp_artwork() {
    let img = image::RgbImage::from_pixel(3, 3, image::Rgb([0, 180, 0]));
    let mut bmp = std::io::Cursor::new(Vec::new());
    image::DynamicImage::ImageRgb8(img).write_to(&mut bmp, image::ImageFormat::Bmp).unwrap();
    assert_eq!(extract_accent_color_hue(bmp.get_ref()).unwrap(), 120);
}
