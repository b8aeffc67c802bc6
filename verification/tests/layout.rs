use todo_tui::config::UiConfig;
use todo_tui::layout::{compute, LayoutRegion, Regions, MARGIN};
use tui::layout::{Constraint, Direction, Layout, Rect};

fn region(x: u16, y: u16, width: u16, height: u16) -> LayoutRegion {
    LayoutRegion { x, y, width, height }
}

fn config(projects: bool, typebox: bool) -> UiConfig {
    UiConfig { projects, typebox }
}

fn as_region(rect: Rect) -> LayoutRegion {
    region(rect.x, rect.y, rect.width, rect.height)
}

fn solved(width: u16, height: u16, config: UiConfig) -> Regions {
    let chunks = Layout::default()
        .direction(Direction::Vertical)
        .margin(3)
        .constraints(
            [
                Constraint::Percentage(if config.typebox { 90 } else { 100 }),
                Constraint::Percentage(100),
            ]
            .as_ref(),
        )
        .split(Rect { x: 0, y: 0, width, height });
    let top_chunks = Layout::default()
        .direction(Direction::Horizontal)
        .constraints(
            [
                Constraint::Percentage(if config.projects { 80 } else { 100 }),
                Constraint::Percentage(100),
            ]
            .as_ref(),
        )
        .split(chunks[0]);
    Regions {
        top: as_region(chunks[0]),
        bottom: as_region(chunks[1]),
        left: as_region(top_chunks[0]),
        right: as_region(top_chunks[1]),
    }
}

#[test]
fn margin_is_three_cells() {
    assert_eq!(MARGIN, 3);
}

#[test]
fn both_panels_shown_on_106_by_56() {
    let r = compute(106, 56, config(true, true));
    assert_eq!(r.top, region(3, 3, 100, 45));
    assert_eq!(r.bottom, region(3, 48, 100, 5));
    assert_eq!(r.left, region(3, 3, 80, 45));
    assert_eq!(r.right, region(83, 3, 20, 45));
}

#[test]
fn both_panels_hidden_on_106_by_56() {
    let r = compute(106, 56, config(false, false));
    assert_eq!(r.top, region(3, 3, 100, 50));
    assert_eq!(r.left, region(3, 3, 100, 50));
    assert_eq!(r.bottom, region(3, 53, 100, 0));
    assert_eq!(r.right, region(103, 3, 0, 50));
}

#[test]
fn only_side_panel_shown_on_106_by_56() {
    let r = compute(106, 56, config(true, false));
    assert_eq!(r.top, region(3, 3, 100, 50));
    assert_eq!(r.bottom, region(3, 53, 100, 0));
    assert_eq!(r.left, region(3, 3, 80, 50));
    assert_eq!(r.right, region(83, 3, 20, 50));
}

#[test]
fn only_input_box_shown_on_106_by_56() {
    let r = compute(106, 56, config(false, true));
    assert_eq!(r.top, region(3, 3, 100, 45));
    assert_eq!(r.bottom, region(3, 48, 100, 5));
    assert_eq!(r.left, region(3, 3, 100, 45));
    assert_eq!(r.right, region(103, 3, 0, 45));
}

#[test]
fn shares_are_rounded_down() {
    // interior 74 by 18: 90 % of 18 is 16.2, 80 % of 74 is 59.2
    let r = compute(80, 24, config(true, true));
    assert_eq!(r.top, region(3, 3, 74, 16));
    assert_eq!(r.bottom, region(3, 19, 74, 2));
    assert_eq!(r.left, region(3, 3, 59, 16));
    assert_eq!(r.right, region(62, 3, 15, 16));
}

#[test]
fn single_cell_interior_goes_to_the_neighbours() {
    // 90 % and 80 % of one cell round down to nothing
    let r = compute(7, 7, config(true, true));
    assert_eq!(r.top, region(3, 3, 1, 0));
    assert_eq!(r.bottom, region(3, 3, 1, 1));
    assert_eq!(r.left, region(3, 3, 0, 0));
    assert_eq!(r.right, region(3, 3, 1, 0));
}

#[test]
fn terminal_of_exactly_the_margin_has_an_interior_without_extent() {
    let r = compute(6, 6, config(true, true));
    assert_eq!(r.top, region(3, 3, 0, 0));
    assert_eq!(r.bottom, region(3, 3, 0, 0));
    assert_eq!(r.left, region(3, 3, 0, 0));
    assert_eq!(r.right, region(3, 3, 0, 0));
}

#[test]
fn terminal_narrower_than_the_margin_has_empty_regions() {
    for c in [config(true, true), config(false, false)] {
        let r = compute(5, 40, c);
        let empty = region(0, 0, 0, 0);
        assert_eq!(r, Regions { top: empty, bottom: empty, left: empty, right: empty });
    }
}

#[test]
fn terminal_lower_than_the_margin_has_empty_regions() {
    let r = compute(40, 5, config(true, true));
    let empty = region(0, 0, 0, 0);
    assert_eq!(r, Regions { top: empty, bottom: empty, left: empty, right: empty });
}

#[test]
fn terminal_without_cells_has_empty_regions() {
    let r = compute(0, 0, config(true, false));
    let empty = region(0, 0, 0, 0);
    assert_eq!(r, Regions { top: empty, bottom: empty, left: empty, right: empty });
}

#[test]
fn largest_terminal_does_not_overflow() {
    let r = compute(u16::MAX, u16::MAX, config(true, true));
    assert_eq!(r.top, region(3, 3, 65529, 58976));
    assert_eq!(r.bottom, region(3, 58979, 65529, 6553));
    assert_eq!(r.left, region(3, 3, 52423, 58976));
    assert_eq!(r.right, region(52426, 3, 13106, 58976));
}

#[test]
fn regions_tile_the_interior() {
    for width in 0..90u16 {
        for height in 0..40u16 {
            for c in [config(true, true), config(true, false), config(false, true), config(false, false)] {
                let r = compute(width, height, c);
                assert_eq!(r.top.height + r.bottom.height, height.saturating_sub(6) * u16::from(width >= 6));
                assert_eq!(r.left.width + r.right.width, r.top.width);
                assert_eq!(r.bottom.y, r.top.y + r.top.height);
                assert_eq!(r.right.x, r.left.x + r.left.width);
                assert_eq!(r.top.width, r.bottom.width);
                assert_eq!(r.left.height, r.top.height);
                assert_eq!(r.right.height, r.top.height);
            }
        }
    }
}

#[test]
fn compute_is_deterministic() {
    let a = compute(123, 45, config(true, true));
    let b = compute(123, 45, config(true, true));
    assert_eq!(a, b);
}

#[test]
fn compute_agrees_with_constraint_solver_on_common_sizes() {
    for (width, height) in [(80u16, 24u16), (106, 56), (120, 40), (132, 43), (200, 60), (7, 7), (6, 6), (5, 5), (0, 0), (40, 5), (5, 40)] {
        for c in [config(true, true), config(true, false), config(false, true), config(false, false)] {
            assert_eq!(compute(width, height, c), solved(width, height, c), "{}x{} {:?}", width, height, c);
        }
    }
}

#[test]
fn compute_agrees_with_constraint_solver_on_a_grid() {
    for width in (0..130u16).step_by(7) {
        for height in (0..70u16).step_by(3) {
            for c in [config(true, true), config(true, false), config(false, true), config(false, false)] {
                assert_eq!(compute(width, height, c), solved(width, height, c), "{}x{} {:?}", width, height, c);
            }
        }
    }
}

#[test]
fn compute_agrees_with_constraint_solver_on_large_terminals() {
    for (width, height) in [(255u16, 255u16), (300, 200), (500, 300), (661, 24), (80, 661), (661, 661)] {
        for c in [config(true, true), config(true, false), config(false, true), config(false, false)] {
            assert_eq!(compute(width, height, c), solved(width, height, c), "{}x{} {:?}", width, height, c);
        }
    }
}
