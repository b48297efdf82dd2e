use time_travel::general_systems::out_of_bounds;

#[test]
fn test_out_of_bounds_true() {
    assert!(out_of_bounds(0, 0, 1000, 1000));
}

#[test]
fn test_out_of_bounds_false() {
    assert!(!out_of_bounds(0, 0, 0, 0));
}

#[test]
fn test_out_of_bounds_false_negative() {
    assert!(!out_of_bounds(-1000, -1000, -1000, -1000));
}

#[test]
fn test_out_of_bounds_true_negative() {
    assert!(out_of_bounds(-1000, -1000, 0, 0));
}

#[test]
fn the_screen_ends_at_ten_nineteenths_of_its_extent() {
    assert!(!out_of_bounds(0, 0, 842, 0));
    assert!(out_of_bounds(0, 0, 843, 0));
    assert!(!out_of_bounds(0, 0, 0, 473));
    assert!(out_of_bounds(0, 0, 0, 474));
    assert!(!out_of_bounds(0, 0, 842, 473));
    assert!(!out_of_bounds(100, 100, 942, 573));
    assert!(out_of_bounds(100, 100, 943, 573));
    assert!(out_of_bounds(100, 100, 942, 574));
}

#[test]
fn either_axis_is_enough() {
    assert!(out_of_bounds(0, 0, 1000, 0));
    assert!(out_of_bounds(0, 0, 0, 1000));
    assert!(out_of_bounds(1000, 0, 0, 0));
    assert!(out_of_bounds(0, 1000, 0, 0));
}

#[test]
fn mirrored_pairs_agree() {
    let cases = [
        (0, 0, 842, 473),
        (0, 0, 843, 0),
        (120, -75, 900, 333),
        (-400, 250, 500, -250),
        (37, 41, -880, 41),
        (1000, 1000, 0, 0),
        (5, 5, 5, 480),
    ];
    for (camera_x, camera_y, entity_x, entity_y) in cases {
        let expected = out_of_bounds(camera_x, camera_y, entity_x, entity_y);
        assert_eq!(out_of_bounds(-camera_x, -camera_y, -entity_x, -entity_y), expected);
        assert_eq!(out_of_bounds(-camera_x, camera_y, entity_x, entity_y), expected);
        assert_eq!(out_of_bounds(camera_x, camera_y, entity_x, -entity_y), expected);
    }
}

#[test]
fn coordinates_count_without_their_sign() {
    assert!(!out_of_bounds(500, 0, -500, 0));
    assert!(!out_of_bounds(0, -300, 0, 300));
    assert!(out_of_bounds(500, 0, -1400, 0));
}

#[test]
fn the_ends_of_the_range() {
    assert!(!out_of_bounds(i32::MIN, i32::MIN, i32::MAX, i32::MAX));
    assert!(out_of_bounds(i32::MIN, 0, 0, 0));
    assert!(out_of_bounds(0, 0, 0, i32::MIN));
    assert!(!out_of_bounds(i32::MAX, i32::MAX, i32::MAX, i32::MAX));
}
