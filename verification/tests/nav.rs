use cursive_markup::{Absolute, Direction, Link, LinkHandler, Relative, Vec2};

fn link_at(x: usize, y: usize, target: &str) -> Link {
    Link { position: Vec2 { x, y }, width: 1, target: target.to_string() }
}

fn handler(rows: &[usize]) -> LinkHandler {
    let mut h = LinkHandler::new();
    for (i, &y) in rows.iter().enumerate() {
        let idx = h.push(link_at(i, y, &format!("t{}", i)));
        assert_eq!(idx, i, "indices are assigned in insertion order");
    }
    h
}

#[test]
fn push_returns_increasing_indices() {
    let mut h = LinkHandler::new();
    assert_eq!(h.push(link_at(0, 0, "a")), 0);
    assert_eq!(h.push(link_at(4, 0, "b")), 1);
    assert_eq!(h.push(link_at(0, 1, "c")), 2);
    assert_eq!(h.links.len(), 3);
}

#[test]
fn take_focus_front_and_back() {
    let mut h = handler(&[0, 0, 1]);
    assert!(h.take_focus(Direction::Rel(Relative::Back)));
    assert_eq!(h.focus, 2);
    assert!(h.take_focus(Direction::Rel(Relative::Front)));
    assert_eq!(h.focus, 0);
    assert!(h.take_focus(Direction::Abs(Absolute::Down)));
    assert_eq!(h.focus, 2);
    assert!(h.take_focus(Direction::Abs(Absolute::Up)));
    assert_eq!(h.focus, 0);
    assert!(h.take_focus(Direction::Abs(Absolute::Neutral)));
    assert_eq!(h.focus, 0);
}

#[test]
fn take_focus_fails_without_links() {
    let mut h = LinkHandler::new();
    assert!(!h.take_focus(Direction::Rel(Relative::Front)));
    assert!(!h.take_focus(Direction::Rel(Relative::Back)));
    assert_eq!(h.focus, 0);
}

#[test]
fn move_focus_fails_without_links() {
    let mut h = LinkHandler::new();
    for dir in [
        Absolute::Left,
        Absolute::Right,
        Absolute::Up,
        Absolute::Down,
        Absolute::Neutral,
    ] {
        assert!(!h.move_focus(dir));
        assert_eq!(h.focus, 0);
    }
}

#[test]
fn horizontal_moves_within_a_row() {
    // Two links on row 0, one on row 1.
    let mut h = handler(&[0, 0, 1]);
    assert!(h.move_focus(Absolute::Right));
    assert_eq!(h.focus, 1);
    assert!(h.move_focus(Absolute::Left));
    assert_eq!(h.focus, 0);
}

#[test]
fn horizontal_fails_at_row_ends() {
    let mut h = handler(&[0, 0, 1]);
    // Focus 0 is the first link of row 0.
    assert!(!h.move_focus(Absolute::Left));
    assert_eq!(h.focus, 0);
    // Focus 1 is the last link of row 0: the next link by index sits on row 1.
    assert!(h.move_focus(Absolute::Right));
    assert!(!h.move_focus(Absolute::Right));
    assert_eq!(h.focus, 1);
    // Focus 2 is both first and last on row 1.
    h.focus = 2;
    assert!(!h.move_focus(Absolute::Left));
    assert!(!h.move_focus(Absolute::Right));
    assert_eq!(h.focus, 2);
}

#[test]
fn horizontal_never_changes_the_row() {
    let mut h = handler(&[0, 0, 1, 1, 1, 3]);
    for start in 0..6 {
        for dir in [Absolute::Left, Absolute::Right] {
            h.focus = start;
            let row = h.links[start].position.y;
            if h.move_focus(dir) {
                assert_eq!(h.links[h.focus].position.y, row);
            } else {
                assert_eq!(h.focus, start);
            }
        }
    }
}

#[test]
fn vertical_fails_at_extreme_rows() {
    let mut h = handler(&[0, 1, 2]);
    // Up from the link on the smallest row fails.
    assert!(!h.move_focus(Absolute::Up));
    assert_eq!(h.focus, 0);
    // Down from the link on the largest row fails.
    h.focus = 2;
    assert!(!h.move_focus(Absolute::Down));
    assert_eq!(h.focus, 2);
}

#[test]
fn vertical_picks_nearest_by_index() {
    // Rows: 0, 0, 1, 1, 2.  From index 3 (row 1), Up scans 2, 1, 0 and stops
    // at index 1, the nearest earlier index on a strictly smaller row.
    let mut h = handler(&[0, 0, 1, 1, 2]);
    h.focus = 3;
    assert!(h.move_focus(Absolute::Up));
    assert_eq!(h.focus, 1);
    // From index 1 (row 0), Down stops at index 2, the first later index on
    // a strictly larger row.
    assert!(h.move_focus(Absolute::Down));
    assert_eq!(h.focus, 2);
}

#[test]
fn neutral_never_moves() {
    let mut h = handler(&[0, 1]);
    assert!(!h.move_focus(Absolute::Neutral));
    assert_eq!(h.focus, 0);
}

#[test]
fn important_area_of_focused_link() {
    let mut h = LinkHandler::new();
    h.push(Link { position: Vec2 { x: 3, y: 1 }, width: 7, target: "t".to_string() });
    h.push(Link { position: Vec2 { x: 0, y: 4 }, width: 2, target: "u".to_string() });
    let area = h.important_area();
    assert_eq!(area.position, Vec2 { x: 3, y: 1 });
    assert_eq!(area.size, Vec2 { x: 7, y: 1 });
    h.focus = 1;
    let area = h.important_area();
    assert_eq!(area.position, Vec2 { x: 0, y: 4 });
    assert_eq!(area.size, Vec2 { x: 2, y: 1 });
}

#[test]
fn important_area_without_links_is_degenerate() {
    let h = LinkHandler::new();
    let area = h.important_area();
    assert_eq!(area.position, Vec2 { x: 0, y: 0 });
    assert_eq!(area.size, Vec2 { x: 0, y: 0 });
}
