//! The view orchestrator: caches the rendered document keyed by width,
//! preserves the link focus across re-renders, and turns host input into
//! navigation outcomes.

use vstd::prelude::*;

use crate::document::RenderedDocument;
use crate::geom::{Rect, Vec2};
use crate::nav::{Absolute, Direction, Relative};

verus! {

/// A rendering strategy: produces a hypertext document for a given width and
/// height constraint.
///
/// An implementation must build its result for the constraint it is given —
/// with [`RenderedDocument::new`] on that constraint, growing it only through
/// [`RenderedDocument::push_line`] — and must not touch the fresh document's
/// focus.  [`MarkupView`] calls `render` every time the available width
/// changes and relies on the stored constraint for its cache.
pub trait Renderer {
    /// Renders the document within the given size constraint.
    fn render(&self, constraint: Vec2) -> (doc: RenderedDocument)
        ensures
            doc.wf(),
            doc.constraint == constraint,
            doc.link_handler.focus == 0,
    ;
}

/// A host input event the view reacts to: the four arrow keys, the
/// activation key, or anything else.
#[derive(Clone, Copy, Debug, PartialEq, Eq, Structural)]
pub enum Key {
    /// The left arrow key.
    Left,
    /// The right arrow key.
    Right,
    /// The up arrow key.
    Up,
    /// The down arrow key.
    Down,
    /// The activation key.
    Enter,
    /// Any other input.
    Other,
}

/// The outcome of one input event: ignored, the focus moved to a link, or
/// the focused link was activated.  A moved focus and an activation each
/// carry the target of the link in question, for the host to hand to its
/// callbacks.
#[derive(Clone, Debug)]
pub enum EventOutcome {
    /// The event does not concern the view: no document, no links, or an
    /// unhandled key.
    Ignored,
    /// The focus moved to the link with this target.
    FocusChanged(String),
    /// The focused link, with this target, was activated.
    Selected(String),
}

/// A view of hypertext rendered by a [`Renderer`].
///
/// The view owns its renderer and at most one rendered document.  The
/// document is cached keyed by the available width: a [`MarkupView::render`]
/// call with an unchanged width returns the cached size and changes nothing;
/// a changed width discards the document, renders afresh and preserves the
/// focused link's index whenever it is still valid.
pub struct MarkupView<R: Renderer> {
    /// The rendering strategy, owned exclusively.
    pub renderer: R,
    /// The cached rendered document, if any render pass happened yet.
    pub doc: Option<RenderedDocument>,
    /// The maximum width made available to the renderer, if configured.
    pub maximum_width: Option<usize>,
}

impl<R: Renderer> MarkupView<R> {
    /// The cached document, whenever present, is well-formed.
    pub open spec fn wf(self) -> bool {
        self.doc is Some ==> self.doc->Some_0.wf()
    }

    /// The requested width after clamping to the configured maximum.
    pub open spec fn spec_clamped_width(self, constraint: Vec2) -> usize {
        match self.maximum_width {
            Some(w) => if w < constraint.x {
                w
            } else {
                constraint.x
            },
            None => constraint.x,
        }
    }

    /// The cache is hit exactly when a document exists and was rendered for
    /// the same clamped width.  The cache key is the width only: height
    /// changes alone never trigger a re-render.
    pub open spec fn spec_cache_hit(self, clamped_width: usize) -> bool {
        self.doc is Some && self.doc->Some_0.constraint.x == clamped_width
    }

    /// The focus index carried over from the outgoing document: its focus,
    /// or `0` when no document exists yet.
    pub open spec fn spec_prior_focus(self) -> nat {
        match self.doc {
            Some(d) => d.link_handler.focus as nat,
            None => 0,
        }
    }

    /// The absolute navigation direction of a key; keys that do not navigate
    /// map to the neutral direction.
    pub open spec fn spec_key_direction(key: Key) -> Absolute {
        match key {
            Key::Left => Absolute::Left,
            Key::Right => Absolute::Right,
            Key::Up => Absolute::Up,
            Key::Down => Absolute::Down,
            Key::Enter | Key::Other => Absolute::Neutral,
        }
    }

    /// Creates a view with the given renderer, no cached document and no
    /// width limit.
    pub fn with_renderer(renderer: R) -> (r: MarkupView<R>)
        ensures
            r.renderer == renderer,
            r.doc is None,
            r.maximum_width is None,
            r.wf(),
    {
        MarkupView { renderer, doc: None, maximum_width: None }
    }

    /// Limits the width made available to the renderer.
    pub fn set_maximum_width(&mut self, width: usize)
        ensures
            final(self).renderer == old(self).renderer,
            final(self).doc == old(self).doc,
            final(self).maximum_width == Some(width),
    {
        self.maximum_width = Some(width);
    }

    /// Lays the view out for a constraint and returns the content size.
    ///
    /// The width is first clamped to the configured maximum.  When the
    /// cached document was rendered for the same width, its size is returned
    /// and nothing changes — in particular the focus is untouched.
    /// Otherwise the old document is discarded, the renderer runs for the
    /// new constraint, and the outgoing focus index is kept exactly when it
    /// is still a valid index into the new document's links; an invalid one
    /// falls back to the fresh document's focus `0`.
    pub fn render(&mut self, constraint: Vec2) -> (size: Vec2)
        requires
            old(self).wf(),
        ensures
            final(self).wf(),
            final(self).renderer == old(self).renderer,
            final(self).maximum_width == old(self).maximum_width,
            ({
                let cw = old(self).spec_clamped_width(constraint);
                if old(self).spec_cache_hit(cw) {
                    &&& *final(self) == *old(self)
                    &&& size == old(self).doc->Some_0.size
                } else {
                    &&& final(self).doc is Some
                    &&& final(self).doc->Some_0.constraint == (Vec2 { x: cw, y: constraint.y })
                    &&& size == final(self).doc->Some_0.size
                    &&& final(self).doc->Some_0.link_handler.focus as nat == (
                    if old(self).spec_prior_focus()
                        < final(self).doc->Some_0.link_handler.links@.len() {
                        old(self).spec_prior_focus()
                    } else {
                        0
                    })
                }
            }),
    {
        let mut constraint = constraint;
        let mut last_focus: usize = 0;
        if let Some(width) = self.maximum_width {
            if width < constraint.x {
                constraint.x = width;
            }
        }
        match &self.doc {
            Some(doc) => {
                if constraint.x == doc.constraint.x {
                    return doc.size;
                }
                last_focus = doc.link_handler.focus;
            },
            None => {},
        }
        let mut doc = self.renderer.render(constraint);
        if last_focus < doc.link_handler.links.len() {
            doc.link_handler.focus = last_focus;
        }
        let size = doc.size;
        self.doc = Some(doc);
        size
    }

    /// Grants keyboard focus to the view: focus moves to the first or last
    /// link of the cached document.  Fails, changing nothing, when no
    /// document is cached or it has no links.
    pub fn take_focus(&mut self, direction: Direction) -> (r: bool)
        requires
            old(self).wf(),
        ensures
            final(self).wf(),
            final(self).renderer == old(self).renderer,
            final(self).maximum_width == old(self).maximum_width,
            r == (old(self).doc is Some && old(self).doc->Some_0.link_handler.links@.len() > 0),
            !r ==> final(self).doc == old(self).doc,
            r ==> ({
                let d = old(self).doc->Some_0;
                let d2 = final(self).doc->Some_0;
                &&& final(self).doc is Some
                &&& d2 == (RenderedDocument { link_handler: d2.link_handler, ..d })
                &&& d2.link_handler.links@ == d.link_handler.links@
                &&& d2.link_handler.focus as int == (match direction.spec_relative() {
                    Relative::Front => 0,
                    Relative::Back => d.link_handler.links@.len() - 1,
                })
            }),
    {
        match &mut self.doc {
            Some(doc) => doc.link_handler.take_focus(direction),
            None => false,
        }
    }

    /// Reacts to one input event on the cached document.
    ///
    /// Events are ignored while no document is cached or it has no links.
    /// An arrow key asks the navigation engine to move the focus: on
    /// success, the outcome carries the newly focused link's target; a
    /// failed move is ignored.  The activation key never moves the focus and
    /// yields the focused link's target.
    pub fn on_event(&mut self, key: Key) -> (outcome: EventOutcome)
        requires
            old(self).wf(),
        ensures
            final(self).wf(),
            final(self).renderer == old(self).renderer,
            final(self).maximum_width == old(self).maximum_width,
            (old(self).doc is None || old(self).doc->Some_0.link_handler.links@.len() == 0) ==> (
            final(self).doc == old(self).doc && outcome is Ignored),
            (old(self).doc is Some && old(self).doc->Some_0.link_handler.links@.len() > 0) ==> ({
                let d = old(self).doc->Some_0;
                let h = d.link_handler;
                let dir = Self::spec_key_direction(key);
                let d2 = final(self).doc->Some_0;
                let h2 = d2.link_handler;
                &&& final(self).doc is Some
                &&& d2 == (RenderedDocument { link_handler: h2, ..d })
                &&& h2.links@ == h.links@
                &&& if h.can_move(dir) {
                    &&& h.is_move_dest(dir, h2.focus as int)
                    &&& outcome matches EventOutcome::FocusChanged(t) && t@ == h.links@[h2.focus
                        as int].target@
                } else {
                    &&& h2.focus == h.focus
                    &&& if key is Enter {
                        outcome matches EventOutcome::Selected(t) && t@ == h.links@[h.focus
                            as int].target@
                    } else {
                        outcome is Ignored
                    }
                }
            }),
    {
        let has_links = match &self.doc {
            Some(doc) => doc.link_handler.links.len() > 0,
            None => false,
        };
        if !has_links {
            return EventOutcome::Ignored;
        }
        match &mut self.doc {
            Some(doc) => {
                let dir = match key {
                    Key::Left => Absolute::Left,
                    Key::Right => Absolute::Right,
                    Key::Up => Absolute::Up,
                    Key::Down => Absolute::Down,
                    Key::Enter | Key::Other => Absolute::Neutral,
                };
                let moved = doc.link_handler.move_focus(dir);
                if moved {
                    let target = doc.link_handler.links[doc.link_handler.focus].target.clone();
                    EventOutcome::FocusChanged(target)
                } else if key == Key::Enter {
                    let target = doc.link_handler.links[doc.link_handler.focus].target.clone();
                    EventOutcome::Selected(target)
                } else {
                    EventOutcome::Ignored
                }
            },
            None => EventOutcome::Ignored,
        }
    }

    /// Returns the screen rectangle of the focused link, for the host to
    /// draw focus chrome; the degenerate zero-sized rectangle at the origin
    /// when no document is cached or it has no links.
    pub fn important_area(&self) -> (r: Rect)
        requires
            self.wf(),
        ensures
            r == (match self.doc {
                Some(d) => d.link_handler.spec_important_area(),
                None => Rect::spec_zero(),
            }),
    {
        match &self.doc {
            Some(doc) => doc.link_handler.important_area(),
            None => Rect::zero(),
        }
    }
}

} // verus!
