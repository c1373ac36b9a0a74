use astrolabe::{
    classify, decode_altitude, decode_community, decode_latitude, decode_longitude,
    encode_altitude, encode_latitude, encode_longitude, Band, Communities,
};

// Degrees are written in hundred-thousandths: 3777490 is 37.77490 degrees.

#[test]
fn test_encode_decode_latitude() {
    let test_values = [
        (-9000000, 600000000), // -90.0, minimum latitude
        (0, 616777216),        // 0.0, equator
        (4500000, 625165823),  // 45.0
        (9000000, 633554431),  // 90.0, maximum latitude
        (3777490, 623818967),  // 37.7749
    ];

    for &(lat, expected_encoding) in &test_values {
        let encoded = encode_latitude(lat);
        assert_eq!(encoded, expected_encoding, "Latitude encoding failed for {}", lat);

        let decoded = decode_latitude(encoded);
        assert_eq!(decoded, lat, "Latitude decoding failed for {}", lat);
    }
}

#[test]
fn test_encode_decode_longitude() {
    let test_values = [
        (-18000000, 900000000), // -180.0, minimum longitude
        (0, 933554432),         // 0.0, prime meridian
        (9000000, 950331647),   // 90.0
        (18000000, 967108863),  // 180.0, maximum longitude
        (-12241940, 910733802), // -122.4194
    ];

    for &(lon, expected_encoding) in &test_values {
        let encoded = encode_longitude(lon);
        assert_eq!(encoded, expected_encoding, "Longitude encoding failed for {}", lon);

        let decoded = decode_longitude(encoded);
        assert_eq!(decoded, lon, "Longitude decoding failed for {}", lon);
    }
}

#[test]
fn test_encode_decode_altitude() {
    let test_values = [
        (0, 690000000),
        (100, 690000100),
        (-100, 689999900),
        (8388607, 698388607),
        (-8388607, 681611393),
    ];

    for &(alt, expected_encoding) in &test_values {
        let encoded = encode_altitude(alt);
        assert_eq!(encoded, expected_encoding, "Altitude encoding failed for {} meters", alt);

        let decoded = decode_altitude(encoded);
        assert_eq!(decoded, alt, "Altitude decoding failed for {} meters", alt);
    }
}

#[test]
fn test_decode_community() {
    let lat_value = encode_latitude(3777490);
    let lon_value = encode_longitude(-12241940);
    let alt_value = encode_altitude(15);

    let lat_decoded = decode_community(lat_value);
    assert_eq!(lat_decoded, "Latitude: 37.77490", "Latitude decoding via decode_community failed");

    let lon_decoded = decode_community(lon_value);
    assert_eq!(lon_decoded, "Longitude: -122.41940", "Longitude decoding via decode_community failed");

    let alt_decoded = decode_community(alt_value);
    assert_eq!(alt_decoded, "Altitude: 15 meters", "Altitude decoding via decode_community failed");
}

#[test]
fn test_generate_and_decode_communities() {
    let lat = 5150740; // 51.5074
    let lon = -12780; // -0.1278
    let alt = 35;

    let lat_community = encode_latitude(lat);
    let lon_community = encode_longitude(lon);
    let alt_community = encode_altitude(alt);

    assert_eq!(decode_latitude(lat_community), lat);
    assert_eq!(decode_longitude(lon_community), lon);
    assert_eq!(decode_altitude(alt_community), alt);
}

#[test]
fn test_lat_lon_without_altitude() {
    let lat = 4071280; // 40.7128
    let lon = -7400600; // -74.0060

    let lat_community = encode_latitude(lat);
    let lon_community = encode_longitude(lon);

    assert_eq!(decode_latitude(lat_community), lat, "Latitude decoding failed");
    assert_eq!(decode_longitude(lon_community), lon, "Longitude decoding failed");
}

#[test]
fn encoders_stay_in_their_bands() {
    for &d in &[i64::MIN, -100000000, -18000000, -9000000, -1, 0, 1, 9000000, 18000000, i64::MAX] {
        let lat = encode_latitude(d);
        assert!((600000000..=633554431).contains(&lat));
        let lon = encode_longitude(d);
        assert!((900000000..=967108863).contains(&lon));
    }
    for &m in &[i64::MIN, -1000000000, -8388608, 0, 8388608, 1000000000, i64::MAX] {
        let alt = encode_altitude(m);
        assert!((681611393..=698388607).contains(&alt));
    }
}

#[test]
fn round_trips_on_the_grid() {
    for &d in &[-9000000, -8999999, -1, 1, 12345, 4071281, 8999999] {
        assert_eq!(decode_latitude(encode_latitude(d)), d);
    }
    for &d in &[-18000000, -17999999, -1, 1, 12345, 17999999] {
        assert_eq!(decode_longitude(encode_longitude(d)), d);
    }
    for &m in &[-8388607, -8388606, -1, 1, 8848, 8388606] {
        assert_eq!(decode_altitude(encode_altitude(m)), m);
    }
}

#[test]
fn encoders_clamp_out_of_range_input() {
    assert_eq!(encode_latitude(100000000), encode_latitude(9000000));
    assert_eq!(encode_longitude(-50000000), encode_longitude(-18000000));
    assert_eq!(encode_altitude(1000000000), encode_altitude(8388607));
    assert_eq!(encode_latitude(-100000000), 600000000);
    assert_eq!(encode_altitude(-1000000000), 681611393);
}

#[test]
fn classifier_concrete_cases() {
    assert_eq!(encode_latitude(-9000000), 600000000);
    assert_eq!(decode_latitude(600000000), -9000000);
    assert_eq!(encode_latitude(0), 616777216);
    assert_eq!(encode_longitude(-18000000), 900000000);
    assert_eq!(encode_longitude(18000000), 967108863);
    assert_eq!(encode_altitude(0), 690000000);
    assert_eq!(encode_altitude(100), 690000100);
    assert_eq!(encode_altitude(-100), 689999900);
    assert_eq!(decode_community(0), "Unknown community");
}

#[test]
fn bands_do_not_overlap() {
    let edges = [
        0u32, 599999999, 600000000, 633554431, 633554432, 681611392, 681611393, 690000000,
        698388607, 698388608, 899999999, 900000000, 967108863, 967108864, u32::MAX,
    ];
    for &v in &edges {
        let hits = [Band::Latitude, Band::Longitude, Band::Altitude]
            .iter()
            .filter(|b| b.contains(v))
            .count();
        assert!(hits <= 1);
        assert_eq!(classify(v).is_some(), hits == 1);
    }
    assert_eq!(classify(633554431), Some(Band::Latitude));
    assert_eq!(classify(633554432), None);
    assert_eq!(classify(681611393), Some(Band::Altitude));
    assert_eq!(classify(900000000), Some(Band::Longitude));
    assert_eq!(classify(967108864), None);
}

#[test]
fn decoders_outside_their_band() {
    // Below the band, latitude and longitude decode to their lowest value.
    assert_eq!(decode_latitude(0), -9000000);
    assert_eq!(decode_longitude(600000000), -18000000);
    // Altitude reads the code as a signed 32-bit integer before clamping.
    assert_eq!(decode_altitude(0), -8388607);
    assert_eq!(decode_altitude(u32::MAX), -8388607);
    assert_eq!(decode_altitude(800000000), 8388607);
}

#[test]
fn community_text_at_band_edges() {
    assert_eq!(decode_community(600000000), "Latitude: -90.00000");
    assert_eq!(decode_community(633554431), "Latitude: 90.00000");
    assert_eq!(decode_community(616777216), "Latitude: 0.00000");
    assert_eq!(decode_community(616777217), "Latitude: 0.00001");
    assert_eq!(decode_community(616777214), "Latitude: -0.00001");
    assert_eq!(decode_community(900000000), "Longitude: -180.00000");
    assert_eq!(decode_community(967108863), "Longitude: 180.00000");
    assert_eq!(decode_community(681611393), "Altitude: -8388607 meters");
    assert_eq!(decode_community(698388607), "Altitude: 8388607 meters");
    assert_eq!(decode_community(690000000), "Altitude: 0 meters");
    assert_eq!(decode_community(633554432), "Unknown community");
    assert_eq!(decode_community(u32::MAX), "Unknown community");
}

#[test]
fn communities_debug_text() {
    let c = Communities {
        lat_community: encode_latitude(3777490),
        lon_community: encode_longitude(-12241940),
        alt_community: encode_altitude(15),
    };
    let text = c.to_debug_string();
    assert_eq!(
        text,
        "Communities { lat_community: 623818967, lon_community: 910733802, alt_community: 690000015 }"
    );
    assert_eq!(text, format!("{:?}", c));
    let zero = Communities { lat_community: 0, lon_community: 0, alt_community: 0 };
    assert_eq!(zero.to_debug_string(), "Communities { lat_community: 0, lon_community: 0, alt_community: 0 }");
}
