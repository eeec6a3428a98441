use error_popup::content::{Colors, Palette, Rgb};
use error_popup::geometry::{inset, Region, MARGIN};
use error_popup::popup::{ErrorPopup, ErrorPopupLayout};
use ratatui::layout::{Constraint, Direction, Flex, Layout, Rect};

fn theme() -> Colors {
    Colors {
        normal: Palette {
            black: Rgb { r: 10, g: 11, b: 12 },
            red: Rgb { r: 200, g: 30, b: 40 },
            green: Rgb { r: 20, g: 180, b: 60 },
        },
        bright: Palette {
            black: Rgb { r: 90, g: 91, b: 92 },
            red: Rgb { r: 250, g: 80, b: 90 },
            green: Rgb { r: 70, g: 230, b: 110 },
        },
    }
}

fn region(x: u16, y: u16, width: u16, height: u16) -> Region {
    Region { x, y, width, height }
}

fn panes(container: Region) -> ErrorPopupLayout {
    let colors = theme();
    let popup = ErrorPopup::new(String::from("disk full"), &colors);
    popup.layout(&container)
}

fn within(inner: Region, outer: Region) -> bool {
    outer.x <= inner.x
        && u32::from(inner.x) + u32::from(inner.width) <= u32::from(outer.x) + u32::from(outer.width)
        && outer.y <= inner.y
        && u32::from(inner.y) + u32::from(inner.height)
            <= u32::from(outer.y) + u32::from(outer.height)
}

#[test]
fn margin_is_two_cells() {
    assert_eq!(MARGIN, 2);
}

#[test]
fn region_new_keeps_extents_that_fit() {
    assert_eq!(Region::new(1, 2, 3, 4), region(1, 2, 3, 4));
    assert_eq!(Region::new(0, 0, u16::MAX, u16::MAX), region(0, 0, u16::MAX, u16::MAX));
}

#[test]
fn region_new_cuts_extents_at_the_edge_of_the_grid() {
    assert_eq!(Region::new(65530, 65000, 10, 1000), region(65530, 65000, 5, 535));
    assert_eq!(Region::new(u16::MAX, u16::MAX, 1, 1), region(u16::MAX, u16::MAX, 0, 0));
}

#[test]
fn region_new_agrees_with_rect_new() {
    let samples: [u16; 8] = [0, 1, 2, 100, 32767, 65533, 65534, 65535];
    for &x in samples.iter() {
        for &y in samples.iter() {
            for &w in samples.iter() {
                for &h in samples.iter() {
                    let ours = Region::new(x, y, w, h);
                    let theirs = Rect::new(x, y, w, h);
                    assert_eq!(
                        (ours.x, ours.y, ours.width, ours.height),
                        (theirs.x, theirs.y, theirs.width, theirs.height)
                    );
                }
            }
        }
    }
}

#[test]
fn inset_takes_the_margin_off_each_side() {
    assert_eq!(inset(&region(0, 0, 40, 10)), region(2, 2, 36, 6));
    assert_eq!(inset(&region(7, 3, 4, 4)), region(9, 5, 0, 0));
    assert_eq!(inset(&region(7, 3, 5, 9)), region(9, 5, 1, 5));
}

#[test]
fn inset_stops_at_zero() {
    assert_eq!(inset(&region(0, 0, 2, 2)), region(2, 2, 0, 0));
    assert_eq!(inset(&region(0, 0, 3, 3)), region(2, 2, 0, 0));
    assert_eq!(inset(&region(5, 6, 0, 0)), region(7, 8, 0, 0));
    assert_eq!(inset(&region(5, 6, 3, 20)), region(7, 8, 0, 16));
    assert_eq!(inset(&region(5, 6, 20, 3)), region(7, 8, 16, 0));
}

#[test]
fn inset_at_the_last_origin_that_can_move() {
    assert_eq!(inset(&region(65533, 65533, 2, 2)), region(65535, 65535, 0, 0));
    assert_eq!(inset(&region(65533, 0, 100, 100)), region(65535, 2, 0, 96));
}

#[test]
fn inset_where_the_origin_cannot_move() {
    assert_eq!(inset(&region(65534, 65535, 10, 10)), region(65535, 65535, 0, 0));
    assert_eq!(inset(&region(65534, 7, 10, 10)), region(65535, 9, 0, 6));
    assert_eq!(inset(&region(7, 65535, 10, 10)), region(9, 65535, 6, 0));
    assert_eq!(
        inset(&region(u16::MAX, u16::MAX, u16::MAX, u16::MAX)),
        region(65535, 65535, 0, 0)
    );
}

#[test]
fn layout_where_the_origin_cannot_move_is_empty() {
    let got = panes(region(65534, 65535, 10, 10));
    assert_eq!(got.message_pane, region(65535, 65535, 0, 0));
    assert_eq!(got.confirmation_pane, region(65535, 65535, 0, 0));
    let got = panes(region(65535, 3, 10, 10));
    assert_eq!(got.message_pane, region(65535, 5, 0, 5));
    assert_eq!(got.confirmation_pane, region(65535, 10, 0, 1));
}

#[test]
fn layout_is_total_over_the_corners_of_the_grid() {
    let edges: [u16; 6] = [0, 1, 3, 65533, 65534, 65535];
    for &x in edges.iter() {
        for &y in edges.iter() {
            for &width in edges.iter() {
                for &height in edges.iter() {
                    let container = region(x, y, width, height);
                    let inner = inset(&container);
                    let got = panes(container);
                    assert!(within(got.message_pane, inner));
                    assert!(within(got.confirmation_pane, inner));
                    assert!(u32::from(inner.x) + u32::from(inner.width) <= 65535);
                    assert!(u32::from(inner.y) + u32::from(inner.height) <= 65535);
                    assert_eq!(
                        got.message_pane.height + got.confirmation_pane.height,
                        inner.height
                    );
                }
            }
        }
    }
}

#[test]
fn layout_of_forty_by_ten() {
    let got = panes(region(0, 0, 40, 10));
    assert_eq!(got.message_pane, region(2, 2, 36, 5));
    assert_eq!(got.confirmation_pane, region(2, 7, 36, 1));
}

#[test]
fn layout_of_two_by_two_is_empty() {
    let got = panes(region(0, 0, 2, 2));
    assert_eq!(got.message_pane, region(2, 2, 0, 0));
    assert_eq!(got.confirmation_pane, region(2, 2, 0, 0));
}

#[test]
fn layout_of_three_by_three_has_no_width_and_no_height() {
    let got = panes(region(0, 0, 3, 3));
    assert_eq!((got.message_pane.width, got.message_pane.height), (0, 0));
    assert_eq!((got.confirmation_pane.width, got.confirmation_pane.height), (0, 0));
}

#[test]
fn layout_of_a_narrow_container_has_no_width() {
    let got = panes(region(4, 4, 3, 12));
    assert_eq!(got.message_pane, region(6, 6, 0, 7));
    assert_eq!(got.confirmation_pane, region(6, 13, 0, 1));
}

#[test]
fn layout_of_a_low_container_has_no_height() {
    let got = panes(region(4, 4, 12, 3));
    assert_eq!(got.message_pane, region(6, 6, 8, 0));
    assert_eq!(got.confirmation_pane, region(6, 6, 8, 0));
}

#[test]
fn layout_with_one_row_gives_it_to_the_confirmation() {
    let got = panes(region(0, 0, 20, 5));
    assert_eq!(got.message_pane, region(2, 2, 16, 0));
    assert_eq!(got.confirmation_pane, region(2, 2, 16, 1));
}

#[test]
fn layout_with_two_rows_gives_one_to_each() {
    let got = panes(region(1, 1, 20, 6));
    assert_eq!(got.message_pane, region(3, 3, 16, 1));
    assert_eq!(got.confirmation_pane, region(3, 4, 16, 1));
}

#[test]
fn layout_away_from_the_origin() {
    let got = panes(region(100, 200, 80, 24));
    assert_eq!(got.message_pane, region(102, 202, 76, 19));
    assert_eq!(got.confirmation_pane, region(102, 221, 76, 1));
}

#[test]
fn layout_of_the_largest_container() {
    let got = panes(region(0, 0, u16::MAX, u16::MAX));
    assert_eq!(got.message_pane, region(2, 2, 65531, 65530));
    assert_eq!(got.confirmation_pane, region(2, 65532, 65531, 1));
}

#[test]
fn layout_of_a_container_past_the_grid_is_cut() {
    let got = panes(region(65000, 65000, 2000, 2000));
    assert_eq!(got.message_pane, region(65002, 65002, 533, 532));
    assert_eq!(got.confirmation_pane, region(65002, 65534, 533, 1));
}

#[test]
fn panes_stay_inside_the_inset() {
    for width in 0..24u16 {
        for height in 0..24u16 {
            let container = region(3, 5, width, height);
            let inner = inset(&container);
            let got = panes(container);
            assert!(within(got.message_pane, inner));
            assert!(within(got.confirmation_pane, inner));
            assert_eq!(inner.x, 5);
            assert_eq!(inner.y, 7);
            assert_eq!(inner.width, width.saturating_sub(4));
            assert_eq!(inner.height, height.saturating_sub(4));
        }
    }
}

#[test]
fn panes_are_stacked_and_do_not_overlap() {
    for height in 0..200u16 {
        let container = region(0, 9, 30, height);
        let got = panes(container);
        assert!(
            u32::from(got.message_pane.y) + u32::from(got.message_pane.height)
                <= u32::from(got.confirmation_pane.y)
        );
        assert_eq!(
            got.message_pane.y + got.message_pane.height,
            got.confirmation_pane.y
        );
        if inset(&container).height >= 1 {
            assert_eq!(got.confirmation_pane.height, 1);
        } else {
            assert_eq!(got.confirmation_pane.height, 0);
        }
        assert_eq!(
            got.message_pane.height + got.confirmation_pane.height,
            inset(&container).height
        );
    }
}

#[test]
fn small_containers_give_empty_panes() {
    for width in 0..10u16 {
        for height in 0..10u16 {
            if width < 4 || height < 4 {
                let got = panes(region(0, 0, width, height));
                assert!(got.message_pane.width == 0 || got.message_pane.height == 0);
                assert!(got.confirmation_pane.width == 0 || got.confirmation_pane.height == 0);
            }
        }
    }
}

#[test]
fn layout_is_the_same_each_time() {
    let colors = theme();
    let container = region(2, 1, 33, 17);
    let first = ErrorPopup::new(String::from("one"), &colors).layout(&container);
    let second = ErrorPopup::new(String::from("one"), &colors).layout(&container);
    assert_eq!(first, second);
    let popup = ErrorPopup::new(String::from("one"), &colors);
    assert_eq!(popup.layout(&container), popup.layout(&container));
}

#[test]
fn layout_does_not_depend_on_the_message() {
    let colors = theme();
    let container = region(0, 0, 60, 20);
    let short = ErrorPopup::new(String::from("x"), &colors).layout(&container);
    let long = ErrorPopup::new("word ".repeat(500), &colors).layout(&container);
    assert_eq!(short, long);
}

fn solved(area: Rect, weight: u16, pinned: u16) -> [Rect; 2] {
    Layout::default()
        .direction(Direction::Vertical)
        .flex(Flex::SpaceBetween)
        .constraints([Constraint::Fill(weight), Constraint::Length(pinned)])
        .areas(area)
}

#[test]
fn the_solver_serves_the_pinned_track_first() {
    let weights: [u16; 4] = [0, 1, 2, 7];
    let pins: [u16; 5] = [0, 1, 2, 3, 50];
    for &weight in weights.iter() {
        for &pinned in pins.iter() {
            for height in 0..60u16 {
                let area = Rect::new(3, 4, 11, height);
                let low = pinned.min(height);
                let [upper, lower] = solved(area, weight, pinned);
                assert_eq!(upper, Rect::new(3, 4, 11, height - low));
                assert_eq!(lower, Rect::new(3, 4 + height - low, 11, low));
            }
        }
    }
}

#[test]
fn the_solver_agrees_on_tall_and_far_areas() {
    let heights: [u16; 6] = [1000, 4097, 30000, 65000, 65534, 65535];
    for &height in heights.iter() {
        let area = Rect::new(0, 0, 5, height);
        let [upper, lower] = solved(area, 1, 1);
        assert_eq!(upper, Rect::new(0, 0, 5, height - 1));
        assert_eq!(lower, Rect::new(0, height - 1, 5, 1));
    }
    let [upper, lower] = solved(Rect::new(65000, 65000, 535, 535), 1, 1);
    assert_eq!(upper, Rect::new(65000, 65000, 535, 534));
    assert_eq!(lower, Rect::new(65000, 65534, 535, 1));
    let [upper, lower] = solved(Rect::new(65535, 65535, 0, 0), 1, 1);
    assert_eq!(upper, Rect::new(65535, 65535, 0, 0));
    assert_eq!(lower, Rect::new(65535, 65535, 0, 0));
}

#[test]
fn layout_agrees_with_the_solver() {
    for height in 0..120u16 {
        for y in [0u16, 1, 17, 300] {
            let container = region(6, y, 50, height);
            let got = panes(container);
            let inner = inset(&container);
            let [upper, lower] =
                solved(Rect::new(inner.x, inner.y, inner.width, inner.height), 1, 1);
            assert_eq!(got.message_pane, region(upper.x, upper.y, upper.width, upper.height));
            assert_eq!(
                got.confirmation_pane,
                region(lower.x, lower.y, lower.width, lower.height)
            );
        }
    }
}
