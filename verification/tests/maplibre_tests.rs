// Tests of the size, URL and coordinate handling at the UI boundary.

use map_bridge::engine::clamp_dimension;
use map_bridge::style_url::is_valid_style_url;
use std::num::NonZeroU32;

#[test]
fn test_size_conversion() {
    // Test that size values are handled correctly
    let width = 800.0_f32;
    let height = 600.0_f32;

    let width_u32 = clamp_dimension(width as u32);
    let height_u32 = clamp_dimension(height as u32);

    assert_eq!(width_u32, 800);
    assert_eq!(height_u32, 600);
}

#[test]
fn test_size_edge_cases() {
    // Test edge cases for size conversion
    let zero_width = 0.0_f32;
    let zero_height = 0.0_f32;

    let width_u32 = clamp_dimension(zero_width as u32);
    let height_u32 = clamp_dimension(zero_height as u32);

    assert_eq!(width_u32, 1);
    assert_eq!(height_u32, 1);
}

#[test]
fn test_url_parsing() {
    // Test that valid URLs parse correctly
    let valid_url = "https://demotiles.maplibre.org/style.json";
    let result = valid_url.parse::<String>();
    assert!(result.is_ok());

    // Test empty string
    let empty_url = "";
    assert!(empty_url.is_empty());
}

#[test]
fn test_style_urls() {
    // Test that all style URLs in the UI are valid strings
    let style_urls = vec![
        "https://demotiles.maplibre.org/style.json",
        "https://tile.openstreetmap.jp/styles/osm-bright/style.json",
    ];

    for url in style_urls {
        // Check that URLs are not empty and contain expected patterns
        assert!(!url.is_empty(), "URL should not be empty");
        assert!(url.starts_with("https://"), "URL should start with https://");
        assert!(url.ends_with(".json"), "Style URL should end with .json");
        assert!(is_valid_style_url(url));
    }
}

#[test]
fn test_nonzero_conversion() {
    // Test NonZeroU32 creation for valid sizes
    let width = NonZeroU32::new(800);
    assert!(width.is_some());
    assert_eq!(width.unwrap().get(), 800);

    let height = NonZeroU32::new(600);
    assert!(height.is_some());
    assert_eq!(height.unwrap().get(), 600);

    // Test that zero is handled correctly
    let zero = NonZeroU32::new(0);
    assert!(zero.is_none());

    // Test that the clamped value is always nonzero
    let safe_width = NonZeroU32::new(clamp_dimension(0));
    assert!(safe_width.is_some());
    assert_eq!(safe_width.unwrap().get(), 1);
}

#[test]
fn test_pixel_ratio() {
    // Test that pixel ratio values are valid
    let pixel_ratio = 1.0_f32;
    assert!(pixel_ratio > 0.0);
    assert!(pixel_ratio <= 4.0); // Reasonable upper bound

    let high_dpi_ratio = 2.0_f32;
    assert!(high_dpi_ratio > 0.0);
}

#[test]
fn test_render_coordinates() {
    // Test that render coordinates are within valid ranges
    let lat = 0.0;
    let lon = 0.0;
    let zoom = 0.0;
    let bearing = 0.0;
    let pitch = 0.0;

    // Latitude should be in [-90, 90]
    assert!(lat >= -90.0 && lat <= 90.0);

    // Longitude should be in [-180, 180]
    assert!(lon >= -180.0 && lon <= 180.0);

    // Zoom should be non-negative
    assert!(zoom >= 0.0);

    // Bearing should be in [0, 360]
    assert!(bearing >= 0.0 && bearing <= 360.0);

    // Pitch should be in [0, 60]
    assert!(pitch >= 0.0 && pitch <= 60.0);
}

#[test]
fn test_location_coordinates() {
    // Test coordinates for the locations in the UI
    let locations: Vec<(&str, f64, f64)> = vec![
        ("paris", 48.8566, 2.3522),
        ("new_york", 40.7128, -74.0060),
        ("tokyo", 35.6762, 139.6503),
    ];

    for (name, lat, lon) in locations {
        // Validate latitude
        assert!(
            lat >= -90.0 && lat <= 90.0,
            "{} latitude out of range: {}",
            name,
            lat
        );

        // Validate longitude
        assert!(
            lon >= -180.0 && lon <= 180.0,
            "{} longitude out of range: {}",
            name,
            lon
        );
    }
}
