use commandpad::grid::position_for;

#[test]
fn position_for_corners() {
    assert_eq!(position_for(0, 0), 81);
    assert_eq!(position_for(7, 0), 88);
    assert_eq!(position_for(0, 7), 11);
    assert_eq!(position_for(7, 7), 18);
}

#[test]
fn position_for_formula() {
    for row in 0u8..8 {
        for column in 0u8..8 {
            assert_eq!(position_for(column, row), 81 - 10 * row + column);
        }
    }
}

#[test]
fn position_for_range_and_unique() {
    let mut seen: Vec<u8> = Vec::new();
    for row in 0u8..8 {
        for column in 0u8..8 {
            let position = position_for(column, row);
            assert!((11..=88).contains(&position));
            assert!(!seen.contains(&position));
            seen.push(position);
        }
    }
    assert_eq!(seen.len(), 64);
}
