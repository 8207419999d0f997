use std::cell::Cell;

use cursive_markup::{
    Absolute, Direction, Element, EventOutcome, Key, MarkupView, Relative, RenderedDocument,
    Renderer, Style, Vec2,
};

/// Renders one link per row: three rows when at least ten cells are
/// available, one row otherwise.  Counts its invocations.
struct StairRenderer {
    calls: Cell<usize>,
}

impl StairRenderer {
    fn new() -> StairRenderer {
        StairRenderer { calls: Cell::new(0) }
    }
}

impl Renderer for StairRenderer {
    fn render(&self, constraint: Vec2) -> RenderedDocument {
        self.calls.set(self.calls.get() + 1);
        let mut doc = RenderedDocument::new(constraint);
        let rows = if constraint.x < 10 { 1 } else { 3 };
        for i in 0..rows {
            let line = vec![Element::link(
                format!("link{}", i),
                Style::plain(),
                format!("target{}", i),
            )];
            assert!(doc.push_line(line));
        }
        doc
    }
}

#[test]
fn render_caches_by_width() {
    // Re-rendering with an unchanged width returns the cached size without
    // invoking the renderer and without altering the focus.
    let mut view = MarkupView::with_renderer(StairRenderer::new());
    let size = view.render(Vec2 { x: 20, y: 5 });
    assert_eq!(size, Vec2 { x: 5, y: 3 });
    assert_eq!(view.renderer.calls.get(), 1);
    assert!(view.take_focus(Direction::Rel(Relative::Back)));
    // A different height with the same width is still a cache hit.
    let size2 = view.render(Vec2 { x: 20, y: 50 });
    assert_eq!(size2, size);
    assert_eq!(view.renderer.calls.get(), 1);
    assert_eq!(view.doc.as_ref().unwrap().link_handler.focus, 2);
}

#[test]
fn render_rerenders_on_width_change() {
    let mut view = MarkupView::with_renderer(StairRenderer::new());
    view.render(Vec2 { x: 20, y: 5 });
    let size = view.render(Vec2 { x: 15, y: 5 });
    assert_eq!(view.renderer.calls.get(), 2);
    assert_eq!(size, Vec2 { x: 5, y: 3 });
    assert_eq!(view.doc.as_ref().unwrap().constraint.x, 15);
}

#[test]
fn focus_is_preserved_when_still_valid() {
    let mut view = MarkupView::with_renderer(StairRenderer::new());
    view.render(Vec2 { x: 20, y: 5 });
    assert!(view.take_focus(Direction::Rel(Relative::Back)));
    assert_eq!(view.doc.as_ref().unwrap().link_handler.focus, 2);
    // Both widths yield three links: index 2 stays valid and is kept.
    view.render(Vec2 { x: 30, y: 5 });
    assert_eq!(view.doc.as_ref().unwrap().link_handler.focus, 2);
}

#[test]
fn focus_resets_when_out_of_range() {
    let mut view = MarkupView::with_renderer(StairRenderer::new());
    view.render(Vec2 { x: 20, y: 5 });
    assert!(view.take_focus(Direction::Rel(Relative::Back)));
    assert_eq!(view.doc.as_ref().unwrap().link_handler.focus, 2);
    // The narrow layout has a single link: index 2 is out of range.
    view.render(Vec2 { x: 8, y: 5 });
    assert_eq!(view.doc.as_ref().unwrap().link_handler.links.len(), 1);
    assert_eq!(view.doc.as_ref().unwrap().link_handler.focus, 0);
}

#[test]
fn maximum_width_clamps_the_constraint() {
    let mut view = MarkupView::with_renderer(StairRenderer::new());
    view.set_maximum_width(8);
    view.render(Vec2 { x: 20, y: 5 });
    // The renderer saw the clamped width: the narrow layout.
    assert_eq!(view.doc.as_ref().unwrap().constraint.x, 8);
    assert_eq!(view.doc.as_ref().unwrap().link_handler.links.len(), 1);
    // Any width at or above the maximum clamps to it: still a cache hit.
    view.render(Vec2 { x: 100, y: 5 });
    assert_eq!(view.renderer.calls.get(), 1);
}

#[test]
fn events_without_a_document_are_ignored() {
    let mut view = MarkupView::with_renderer(StairRenderer::new());
    assert!(matches!(view.on_event(Key::Down), EventOutcome::Ignored));
    assert!(matches!(view.on_event(Key::Enter), EventOutcome::Ignored));
    assert!(!view.take_focus(Direction::Rel(Relative::Front)));
}

#[test]
fn arrow_events_move_the_focus() {
    let mut view = MarkupView::with_renderer(StairRenderer::new());
    view.render(Vec2 { x: 20, y: 5 });
    match view.on_event(Key::Down) {
        EventOutcome::FocusChanged(target) => assert_eq!(target, "target1"),
        other => panic!("expected a focus change, got {:?}", other),
    }
    match view.on_event(Key::Down) {
        EventOutcome::FocusChanged(target) => assert_eq!(target, "target2"),
        other => panic!("expected a focus change, got {:?}", other),
    }
    // The last row: a further move down is ignored and the focus stays.
    assert!(matches!(view.on_event(Key::Down), EventOutcome::Ignored));
    assert_eq!(view.doc.as_ref().unwrap().link_handler.focus, 2);
    match view.on_event(Key::Up) {
        EventOutcome::FocusChanged(target) => assert_eq!(target, "target1"),
        other => panic!("expected a focus change, got {:?}", other),
    }
}

#[test]
fn horizontal_events_respect_rows() {
    // One link per row: Left and Right can never leave the row, so both are
    // ignored.
    let mut view = MarkupView::with_renderer(StairRenderer::new());
    view.render(Vec2 { x: 20, y: 5 });
    assert!(matches!(view.on_event(Key::Left), EventOutcome::Ignored));
    assert!(matches!(view.on_event(Key::Right), EventOutcome::Ignored));
    assert_eq!(view.doc.as_ref().unwrap().link_handler.focus, 0);
}

#[test]
fn enter_selects_the_focused_link() {
    let mut view = MarkupView::with_renderer(StairRenderer::new());
    view.render(Vec2 { x: 20, y: 5 });
    view.on_event(Key::Down);
    match view.on_event(Key::Enter) {
        EventOutcome::Selected(target) => assert_eq!(target, "target1"),
        other => panic!("expected a selection, got {:?}", other),
    }
    // Activation never changes the focus.
    assert_eq!(view.doc.as_ref().unwrap().link_handler.focus, 1);
}

#[test]
fn other_keys_are_ignored() {
    let mut view = MarkupView::with_renderer(StairRenderer::new());
    view.render(Vec2 { x: 20, y: 5 });
    assert!(matches!(view.on_event(Key::Other), EventOutcome::Ignored));
    assert_eq!(view.doc.as_ref().unwrap().link_handler.focus, 0);
}

#[test]
fn important_area_follows_the_view_focus() {
    let mut view = MarkupView::with_renderer(StairRenderer::new());
    let area = view.important_area();
    assert_eq!(area.size, Vec2 { x: 0, y: 0 });
    view.render(Vec2 { x: 20, y: 5 });
    view.on_event(Key::Down);
    let area = view.important_area();
    assert_eq!(area.position, Vec2 { x: 0, y: 1 });
    assert_eq!(area.size, Vec2 { x: 5, y: 1 });
}

#[test]
fn reflow_scenario_skips_linkless_rows() {
    // Content on three rows; rows 0 and 2 carry one link each, row 1 none.
    struct ThreeRowRenderer;

    impl Renderer for ThreeRowRenderer {
        fn render(&self, constraint: Vec2) -> RenderedDocument {
            let mut doc = RenderedDocument::new(constraint);
            assert!(doc.push_line(vec![Element::link(
                "first".to_string(),
                Style::plain(),
                "t0".to_string(),
            )]));
            assert!(doc.push_line(vec![Element::plain("no links".to_string())]));
            assert!(doc.push_line(vec![Element::link(
                "second".to_string(),
                Style::plain(),
                "t1".to_string(),
            )]));
            doc
        }
    }

    let mut view = MarkupView::with_renderer(ThreeRowRenderer);
    view.render(Vec2 { x: 20, y: 5 });
    assert_eq!(view.doc.as_ref().unwrap().link_handler.focus, 0);
    match view.on_event(Key::Down) {
        EventOutcome::FocusChanged(target) => assert_eq!(target, "t1"),
        other => panic!("expected a focus change, got {:?}", other),
    }
    assert_eq!(view.doc.as_ref().unwrap().link_handler.focus, 1);
    assert!(matches!(view.on_event(Key::Down), EventOutcome::Ignored));
    assert_eq!(view.doc.as_ref().unwrap().link_handler.focus, 1);
    match view.on_event(Key::Up) {
        EventOutcome::FocusChanged(target) => assert_eq!(target, "t0"),
        other => panic!("expected a focus change, got {:?}", other),
    }
    assert_eq!(view.doc.as_ref().unwrap().link_handler.focus, 0);
}

#[test]
fn take_focus_via_view_moves_mapped_directions() {
    let mut view = MarkupView::with_renderer(StairRenderer::new());
    view.render(Vec2 { x: 20, y: 5 });
    assert!(view.take_focus(Direction::Abs(Absolute::Right)));
    assert_eq!(view.doc.as_ref().unwrap().link_handler.focus, 2);
    assert!(view.take_focus(Direction::Abs(Absolute::Left)));
    assert_eq!(view.doc.as_ref().unwrap().link_handler.focus, 0);
}
