use logbrowse::layout::{
    centered_rect, detail_areas, shares_around, split_in_halves, view_area, DetailPanes, Direction,
    Rect,
};

fn rect(x: u16, y: u16, width: u16, height: u16) -> Rect {
    Rect { x, y, width, height }
}

#[test]
fn new_rect_is_cut_at_the_last_coordinate() {
    assert_eq!(Rect::new(1, 2, 3, 4), rect(1, 2, 3, 4));
    assert_eq!(Rect::new(65_530, 0, 10, 5), rect(65_530, 0, 5, 5));
    assert_eq!(Rect::new(0, 65_535, 10, 5), rect(0, 65_535, 10, 0));
    assert_eq!(Rect::new(0, 0, 65_535, 65_535), rect(0, 0, 65_535, 65_535));
}

#[test]
fn inner_leaves_the_margins_free() {
    assert_eq!(rect(10, 5, 80, 40).inner(3, 2), rect(13, 7, 74, 36));
    assert_eq!(rect(0, 0, 6, 4).inner(3, 2), rect(3, 2, 0, 0));
    assert_eq!(rect(10, 5, 80, 40).inner(0, 0), rect(10, 5, 80, 40));
}

#[test]
fn inner_of_a_small_rect_is_empty() {
    assert_eq!(rect(10, 5, 5, 40).inner(3, 2), rect(0, 0, 0, 0));
    assert_eq!(rect(10, 5, 80, 3).inner(3, 2), rect(0, 0, 0, 0));
    assert_eq!(rect(10, 5, 80, 40).inner(40_000, 0), rect(0, 0, 0, 0));
}

#[test]
fn halves_lie_side_by_side_or_one_above_the_other() {
    assert_eq!(
        split_in_halves(Direction::Horizontal, rect(0, 0, 80, 24)),
        (rect(0, 0, 40, 24), rect(40, 0, 40, 24))
    );
    assert_eq!(
        split_in_halves(Direction::Vertical, rect(0, 0, 80, 24)),
        (rect(0, 0, 80, 12), rect(0, 12, 80, 12))
    );
    assert_eq!(
        split_in_halves(Direction::Vertical, rect(4, 6, 10, 20)),
        (rect(4, 6, 10, 10), rect(4, 16, 10, 10))
    );
}

#[test]
fn halves_of_any_area_stay_within_it() {
    for (width, height) in [(0u16, 0u16), (1, 1), (7, 3), (81, 25), (200, 61)] {
        let area = rect(3, 2, width, height);
        for direction in [Direction::Horizontal, Direction::Vertical] {
            let (first, second) = split_in_halves(direction, area);
            for part in [first, second] {
                assert!(part.x >= area.x && part.y >= area.y);
                assert!(part.x + part.width <= area.x + area.width);
                assert!(part.y + part.height <= area.y + area.height);
                match direction {
                    Direction::Horizontal => assert_eq!((part.y, part.height), (area.y, area.height)),
                    Direction::Vertical => assert_eq!((part.x, part.width), (area.x, area.width)),
                }
            }
        }
    }
}

#[test]
fn centered_rect_is_not_the_area_it_is_given() {
    let r = rect(0, 0, 100, 50);
    assert_ne!(centered_rect(80, 80, r), r);
    assert_eq!(centered_rect(1, 1, rect(3, 2, 1000, 10)), rect(493, 7, 10, 0));
    assert_eq!(centered_rect(75, 75, rect(3, 2, 1000, 10)), rect(123, 3, 750, 8));
}

#[test]
fn centered_rect_takes_the_middle() {
    assert_eq!(centered_rect(80, 80, rect(0, 0, 100, 50)), rect(10, 5, 80, 40));
    assert_eq!(centered_rect(50, 20, rect(0, 0, 100, 50)), rect(25, 20, 50, 10));
    assert_eq!(centered_rect(100, 100, rect(2, 3, 100, 50)), rect(2, 3, 100, 50));
}

#[test]
fn centered_rect_of_nothing_is_empty() {
    let middle = centered_rect(80, 80, rect(0, 0, 0, 0));
    assert_eq!((middle.width, middle.height), (0, 0));
}

#[test]
fn shares_give_the_middle_its_percentage_and_each_side_half_the_rest() {
    assert_eq!(shares_around(80), vec![10, 80, 10]);
    assert_eq!(shares_around(100), vec![0, 100, 0]);
    assert_eq!(shares_around(0), vec![50, 0, 50]);
    assert_eq!(shares_around(33), vec![33, 33, 33]);
    assert_eq!(shares_around(75), vec![12, 75, 12]);
}

#[test]
fn halves_tile_the_area() {
    for (x, length) in [(0u16, 0u16), (0, 1), (3, 7), (2, 81), (0, 65_535), (65_000, 535)] {
        let area = rect(x, 1, length, 4);
        let (first, second) = split_in_halves(Direction::Horizontal, area);
        assert_eq!(first.x, area.x);
        assert_eq!(second.x, first.x + first.width);
        assert_eq!(first.width + second.width, length);
        let twice = 2 * i64::from(first.width);
        assert!(twice + 1 >= i64::from(length) && twice <= i64::from(length) + 1);
    }
}

#[test]
fn centered_rect_takes_its_share_but_for_rounding() {
    let sizes = [(0u16, 0u16), (1, 1), (7, 3), (33, 10), (81, 25), (200, 61), (1000, 999), (65_532, 65_533)];
    for (width, height) in sizes {
        for percent in [0u16, 1, 2, 33, 50, 51, 75, 80, 99, 100] {
            let r = rect(3, 2, width, height);
            let middle = centered_rect(percent, percent, r);
            let side = i64::from((100 - percent) / 2);
            let share = i64::from(percent);
            let before = 100 * i64::from(middle.x - r.x);
            let end = before + 100 * i64::from(middle.width);
            assert!((before - side * i64::from(width)).abs() <= 50);
            assert!((end - (side + share) * i64::from(width)).abs() <= 50);
            let above = 100 * i64::from(middle.y - r.y);
            let below = above + 100 * i64::from(middle.height);
            assert!((above - side * i64::from(height)).abs() <= 50);
            assert!((below - (side + share) * i64::from(height)).abs() <= 50);
        }
    }
}

#[test]
fn the_view_is_the_frame_without_its_last_row() {
    assert_eq!(view_area(rect(0, 0, 80, 24)), rect(0, 0, 80, 23));
    assert_eq!(view_area(rect(1, 2, 80, 1)), rect(1, 2, 80, 0));
    assert_eq!(view_area(rect(1, 2, 80, 0)), rect(1, 2, 80, 0));
}

#[test]
fn the_detail_view_is_divided_by_its_shape() {
    assert_eq!(
        detail_areas(rect(0, 0, 200, 24)),
        DetailPanes {
            message: rect(0, 0, 100, 12),
            files: rect(0, 12, 100, 12),
            content: rect(100, 0, 100, 24),
        }
    );
    assert_eq!(
        detail_areas(rect(0, 0, 80, 40)),
        DetailPanes {
            message: rect(0, 0, 80, 10),
            files: rect(0, 10, 80, 10),
            content: rect(0, 20, 80, 20),
        }
    );
}

#[test]
fn an_area_that_passes_the_last_coordinate_is_divided_up_to_it() {
    let (first, second) = split_in_halves(Direction::Horizontal, rect(65_000, 0, 1_000, 4));
    assert_eq!((first, second), (rect(65_000, 0, 268, 4), rect(65_268, 0, 267, 4)));
    let (upper, lower) = split_in_halves(Direction::Vertical, rect(0, 65_535, 10, 9));
    assert_eq!((upper, lower), (rect(0, 65_535, 10, 0), rect(0, 65_535, 10, 0)));
}

#[test]
fn halves_of_every_small_length_meet_in_the_middle() {
    for length in 0u16..300 {
        for direction in [Direction::Horizontal, Direction::Vertical] {
            let area = match direction {
                Direction::Horizontal => rect(5, 6, length, 7),
                Direction::Vertical => rect(5, 6, 7, length),
            };
            let (first, second) = split_in_halves(direction, area);
            let (start, a, next, b) = match direction {
                Direction::Horizontal => (first.x - 5, first.width, second.x - 5, second.width),
                Direction::Vertical => (first.y - 6, first.height, second.y - 6, second.height),
            };
            assert_eq!(start, 0);
            assert_eq!(a, (length + 1) / 2);
            assert_eq!(next, a);
            assert_eq!(a + b, length);
        }
    }
}
