use rain::geocode::{has_coordinates, validate_geohash, GeohashError, MAX_GEOHASH_LEN};

#[test]
fn empty_geohash_is_refused_as_empty() {
    assert_eq!(validate_geohash(""), Err(GeohashError::Empty));
    assert!(!has_coordinates(""));
}

#[test]
fn short_geohash_is_accepted() {
    assert_eq!(validate_geohash("9q8yy"), Ok(()));
    assert!(has_coordinates("9q8yy"));
}

#[test]
fn twelve_character_geohash_is_accepted() {
    assert_eq!(validate_geohash("9q8yyk8ytpxr"), Ok(()));
}

#[test]
fn thirteen_character_geohash_is_refused() {
    assert_eq!(validate_geohash("9q8yyk8ytpxrb"), Err(GeohashError::Invalid));
}

#[test]
fn every_string_longer_than_twelve_is_refused() {
    let alphabet = "0123456789bcdefghjkmnpqrstuvwxyz";
    for len in (MAX_GEOHASH_LEN + 1)..40 {
        let s: String = alphabet.chars().cycle().take(len).collect();
        assert_eq!(validate_geohash(&s), Err(GeohashError::Invalid), "length {}", len);
        assert!(!has_coordinates(&s));
    }
}

#[test]
fn characters_outside_the_alphabet_are_refused() {
    for bad in ["a", "9q8ya", "i", "l", "o", "9Q8YY", "9q 8y", "9q8é", "-"] {
        assert_eq!(validate_geohash(bad), Err(GeohashError::Invalid), "{:?}", bad);
    }
}

#[test]
fn every_single_character_of_the_alphabet_is_accepted() {
    for c in "0123456789bcdefghjkmnpqrstuvwxyz".chars() {
        assert_eq!(validate_geohash(&c.to_string()), Ok(()));
    }
}

#[test]
fn accepted_geohashes_decode_within_range() {
    let samples = [
        "0", "z", "9q8yy", "9q8yyk8ytpxr", "zzzzzzzzzzzz", "000000000000", "bpbpbpbpbpbp",
        "pbpbpbpbpbpb", "u4pruydqqvj", "s",
    ];
    for g in samples {
        assert_eq!(validate_geohash(g), Ok(()));
        let (c, _, _) = geohash::decode(g).unwrap();
        assert!(c.y >= -90.0 && c.y <= 90.0, "{}", g);
        assert!(c.x >= -180.0 && c.x <= 180.0, "{}", g);
    }
}
