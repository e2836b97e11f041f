use gitgarden::utils::coordinate::{
    generate_coordinate, generate_from_seed, is_in_rectangle, must_generate_coordinate,
    seed_of_key, Rectangle, UNITS_PER_PIXEL,
};
use std::collections::hash_map::DefaultHasher;
use std::hash::{Hash, Hasher};

const ONE: i64 = UNITS_PER_PIXEL;

fn seed_of<T: Hash>(key: T) -> u64 {
    let mut hasher = DefaultHasher::new();
    key.hash(&mut hasher);
    hasher.finish()
}

#[test]
fn test_random_generation() {
    let (x1, y1) = generate_coordinate("test1", (0, ONE), (0, ONE), None).unwrap();
    let (x2, y2) = generate_coordinate("test2", (0, ONE), (0, ONE), None).unwrap();

    assert_ne!(
        (x1, y1),
        (x2, y2),
        "Different inputs should generate different coordinates"
    );
}

#[test]
fn test_deterministic_output() {
    let input = "same_input";
    let (x1, y1) = generate_coordinate(input, (0, ONE), (0, ONE), None).unwrap();
    let (x2, y2) = generate_coordinate(input, (0, ONE), (0, ONE), None).unwrap();

    assert_eq!(
        (x1, y1),
        (x2, y2),
        "Same input should generate same coordinates"
    );
}

#[test]
fn test_range_bounds() {
    let (x, y) = generate_coordinate("test", (0, 10 * ONE), (-5 * ONE, 5 * ONE), None).unwrap();

    assert!(
        x >= 0 && x < 10 * ONE,
        "X should be within the specified range"
    );
    assert!(
        y >= -5 * ONE && y < 5 * ONE,
        "Y should be within the specified range"
    );
}

#[test]
fn test_large_ranges() {
    let low = i64::MIN;
    let high = i64::MAX;
    let (x, y) = generate_coordinate("test", (low, high), (low, high), None).unwrap();

    assert!(
        x >= low && x < high,
        "X should be within the specified large range"
    );
    assert!(
        y >= low && y < high,
        "Y should be within the specified large range"
    );
}

#[test]
fn test_different_types() {
    let (x1, y1) = generate_from_seed(seed_of("string_input"), (0, ONE), (0, ONE), None).unwrap();
    let (x2, y2) = generate_from_seed(seed_of(42_u32), (0, ONE), (0, ONE), None).unwrap();
    let (x3, y3) = generate_from_seed(seed_of(vec![1, 2, 3]), (0, ONE), (0, ONE), None).unwrap();

    assert!(
        x1 != x2 || y1 != y2,
        "Different types should likely produce different results"
    );
    assert!(
        x1 != x3 || y1 != y3,
        "Different types should likely produce different results"
    );
    assert!(
        x2 != x3 || y2 != y3,
        "Different types should likely produce different results"
    );
}

#[test]
fn test_dead_zone_exclusion() {
    let dead_zone = Rectangle {
        x1: 0,
        y1: 0,
        x2: ONE / 2,
        y2: ONE / 2,
    };

    for _ in 0..100 {
        // Run multiple times to ensure consistency
        if let Some((x, y)) = generate_coordinate("test", (0, ONE), (0, ONE), Some(&dead_zone)) {
            assert!(
                !is_in_rectangle(x, y, &dead_zone),
                "Generated coordinate ({}, {}) should not be in dead zones",
                x,
                y
            );
        } else {
            panic!("Failed to generate coordinate outside dead zones");
        }
    }
}

#[test]
fn test_dead_zone_covering_entire_range() {
    let dead_zone = Rectangle {
        x1: 0,
        y1: 0,
        x2: ONE,
        y2: ONE,
    };

    let result = generate_coordinate("test", (0, ONE), (0, ONE), Some(&dead_zone));
    assert!(
        result.is_none(),
        "Should return None when dead zone covers entire range"
    );
}

#[test]
fn test_dead_zone_with_small_valid_area() {
    let dead_zone = Rectangle {
        x1: 0,
        y1: 0,
        x2: 99 * ONE / 100,
        y2: 99 * ONE / 100,
    };

    let result = generate_coordinate("test", (0, ONE), (0, ONE), Some(&dead_zone));
    assert!(
        result.is_some(),
        "Should be able to find a valid coordinate in a small area"
    );
    if let Some((x, y)) = result {
        assert!(
            x > 99 * ONE / 100 || y > 99 * ONE / 100,
            "Coordinate should be in the small valid area"
        );
    }
}

#[test]
fn test_dead_zone_at_edges() {
    let dead_zones = vec![
        Rectangle {
            x1: 0,
            y1: 0,
            x2: ONE / 10,
            y2: ONE,
        },
        Rectangle {
            x1: 9 * ONE / 10,
            y1: 0,
            x2: ONE,
            y2: ONE,
        },
    ];

    for dead_zone in dead_zones {
        for _ in 0..100 {
            // Run multiple times to ensure consistency
            if let Some((x, _y)) =
                generate_coordinate("test", (0, ONE), (0, ONE), Some(&dead_zone))
            {
                assert!(
                    x > ONE / 10 && x < 9 * ONE / 10,
                    "X coordinate should be between dead zones"
                );
            } else {
                panic!("Failed to generate coordinate outside dead zones");
            }
        }
    }
}

#[test]
fn seed_of_a_key_is_the_hash_std_gives_the_string() {
    assert_eq!(seed_of_key("marshallku-tree-3"), seed_of("marshallku-tree-3"));
    assert_eq!(seed_of_key(""), seed_of(""));
    assert_eq!(seed_of_key("h\u{e9}"), seed_of(String::from("h\u{e9}")));
}

#[test]
fn placements_stay_in_their_ranges() {
    for i in 0..10_000i64 {
        let key = format!("key-{}", i);
        let low = i % 97 - 48;
        let high = low + 1 + (i % 13) * ONE;
        let (x, y) = generate_coordinate(&key, (low, high), (-high, -low + 1), None).unwrap();
        assert!(low <= x && x < high);
        assert!(-high <= y && y < -low + 1);
    }
}

#[test]
fn a_range_of_one_number_gives_that_number() {
    assert_eq!(generate_coordinate("k", (7, 8), (-3, -2), None), Some((7, -3)));
}

#[test]
fn forced_placement_falls_back_to_the_first_point() {
    let everything = Rectangle { x1: 0, y1: 0, x2: ONE, y2: ONE };
    let free = generate_coordinate("test", (0, ONE), (0, ONE), None).unwrap();
    assert_eq!(generate_coordinate("test", (0, ONE), (0, ONE), Some(&everything)), None);
    assert_eq!(must_generate_coordinate("test", (0, ONE), (0, ONE), Some(&everything)), free);
    assert_eq!(must_generate_coordinate("test", (0, ONE), (0, ONE), None), free);
}

#[test]
fn a_zone_changes_nothing_for_a_point_outside_it() {
    let far = Rectangle { x1: 5 * ONE, y1: 5 * ONE, x2: 6 * ONE, y2: 6 * ONE };
    let free = generate_coordinate("test", (0, ONE), (0, ONE), None);
    assert_eq!(generate_coordinate("test", (0, ONE), (0, ONE), Some(&far)), free);
}

#[test]
fn border_of_a_rectangle_is_inside() {
    let r = Rectangle { x1: 1, y1: 2, x2: 3, y2: 4 };
    assert!(is_in_rectangle(1, 2, &r));
    assert!(is_in_rectangle(3, 4, &r));
    assert!(!is_in_rectangle(0, 2, &r));
    assert!(!is_in_rectangle(3, 5, &r));
}
