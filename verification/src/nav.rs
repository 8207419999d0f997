//! The link navigation engine: the ordered set of links found in a rendered
//! document, the focus index, and two-dimensional directional movement.
//!
//! Horizontal movement steps to the neighbouring link by index and succeeds
//! only when that link sits on the same row.  Vertical movement scans the
//! links outward from the focus, in index order, for the first link on a
//! strictly earlier (up) or strictly later (down) row.  Links are registered
//! in reading order — row-ascending, then left to right — so the index scan
//! already visits rows in order.

use vstd::prelude::*;

use crate::geom::{Rect, Vec2};

verus! {

/// An absolute direction of a navigation request.  `Neutral` is the request
/// that carries no direction; it never moves the focus.
#[derive(Clone, Copy, Debug, PartialEq, Eq, Structural)]
pub enum Absolute {
    /// Toward smaller columns.
    Left,
    /// Toward greater columns.
    Right,
    /// Toward smaller rows.
    Up,
    /// Toward greater rows.
    Down,
    /// No direction.
    Neutral,
}

/// A relative direction: toward the start or the end of the link sequence.
#[derive(Clone, Copy, Debug, PartialEq, Eq, Structural)]
pub enum Relative {
    /// Toward the start of the sequence.
    Front,
    /// Toward the end of the sequence.
    Back,
}

/// The direction from which a view receives focus: either an absolute
/// direction or an explicit relative request.
#[derive(Clone, Copy, Debug, PartialEq, Eq, Structural)]
pub enum Direction {
    /// An absolute direction.
    Abs(Absolute),
    /// A relative direction.
    Rel(Relative),
}

impl Direction {
    /// The relative direction this request maps to: `Up`, `Left` and
    /// `Neutral` grant focus toward the start, `Down` and `Right` toward the
    /// end.
    pub open spec fn spec_relative(self) -> Relative {
        match self {
            Direction::Abs(abs) => match abs {
                Absolute::Up | Absolute::Left | Absolute::Neutral => Relative::Front,
                Absolute::Down | Absolute::Right => Relative::Back,
            },
            Direction::Rel(rel) => rel,
        }
    }

    /// Maps this request to its relative direction.
    pub fn relative(self) -> (r: Relative)
        ensures
            r == self.spec_relative(),
    {
        match self {
            Direction::Abs(abs) => match abs {
                Absolute::Up | Absolute::Left | Absolute::Neutral => Relative::Front,
                Absolute::Down | Absolute::Right => Relative::Back,
            },
            Direction::Rel(rel) => rel,
        }
    }
}

/// A registered hyperlink: the cell where it starts, its width in cells, and
/// its target.
#[derive(Clone, Debug)]
pub struct Link {
    /// The cell (column, row) where the link's text starts.
    pub position: Vec2,
    /// The display width of the link's text, in cells.
    pub width: usize,
    /// The target of the link, an opaque string interpreted by the host.
    pub target: String,
}

/// The link navigation engine: the links of one rendered document, in
/// insertion order, and the index of the focused link.
#[derive(Clone, Debug)]
pub struct LinkHandler {
    /// The registered links, in reading order.
    pub links: Vec<Link>,
    /// The index of the focused link; `0` when there are no links.
    pub focus: usize,
}

impl LinkHandler {
    /// The focus index is in range whenever links exist, and pinned to `0`
    /// otherwise.
    pub open spec fn wf(self) -> bool {
        if self.links@.len() == 0 {
            self.focus == 0
        } else {
            (self.focus as int) < self.links@.len()
        }
    }

    /// The row of the link at index `i`.
    pub open spec fn row_at(self, i: int) -> int {
        self.links@[i].position.y as int
    }

    /// The index step of a horizontal move: `-1` toward the start, `+1`
    /// toward the end.
    pub open spec fn horizontal_step(direction: Relative) -> int {
        match direction {
            Relative::Front => -1,
            Relative::Back => 1,
        }
    }

    /// A horizontal move succeeds exactly when the neighbouring index exists
    /// and its link sits on the focused link's row.
    pub open spec fn can_move_horizontal(self, direction: Relative) -> bool {
        let j = self.focus + Self::horizontal_step(direction);
        &&& self.links@.len() > 0
        &&& 0 <= j < self.links@.len()
        &&& self.row_at(j) == self.row_at(self.focus as int)
    }

    /// A vertical move succeeds exactly when some link before (up) or after
    /// (down) the focus, by index, sits on a strictly earlier or strictly
    /// later row.
    pub open spec fn can_move_vertical(self, direction: Relative) -> bool {
        &&& self.links@.len() > 0
        &&& match direction {
            Relative::Front => exists|j: int|
                0 <= j < self.focus && #[trigger] self.row_at(j) < self.row_at(self.focus as int),
            Relative::Back => exists|j: int|
                self.focus < j < self.links@.len() && #[trigger] self.row_at(j) > self.row_at(
                    self.focus as int,
                ),
        }
    }

    /// `j` is the index a vertical move lands on: the nearest index, in scan
    /// order, whose link sits on a strictly earlier (up) or strictly later
    /// (down) row than the focused link.
    pub open spec fn is_vertical_dest(self, direction: Relative, j: int) -> bool {
        match direction {
            Relative::Front => {
                &&& 0 <= j < self.focus
                &&& self.row_at(j) < self.row_at(self.focus as int)
                &&& forall|k: int|
                    j < k < self.focus ==> #[trigger] self.row_at(k) >= self.row_at(
                        self.focus as int,
                    )
            },
            Relative::Back => {
                &&& self.focus < j < self.links@.len()
                &&& self.row_at(j) > self.row_at(self.focus as int)
                &&& forall|k: int|
                    self.focus < k < j ==> #[trigger] self.row_at(k) <= self.row_at(
                        self.focus as int,
                    )
            },
        }
    }

    /// A directional move succeeds exactly when its horizontal or vertical
    /// counterpart does; a `Neutral` request always fails.
    pub open spec fn can_move(self, direction: Absolute) -> bool {
        match direction {
            Absolute::Left => self.can_move_horizontal(Relative::Front),
            Absolute::Right => self.can_move_horizontal(Relative::Back),
            Absolute::Up => self.can_move_vertical(Relative::Front),
            Absolute::Down => self.can_move_vertical(Relative::Back),
            Absolute::Neutral => false,
        }
    }

    /// `j` is the index a successful directional move lands on.
    pub open spec fn is_move_dest(self, direction: Absolute, j: int) -> bool {
        match direction {
            Absolute::Left => self.can_move_horizontal(Relative::Front) && j == self.focus - 1,
            Absolute::Right => self.can_move_horizontal(Relative::Back) && j == self.focus + 1,
            Absolute::Up => self.is_vertical_dest(Relative::Front, j),
            Absolute::Down => self.is_vertical_dest(Relative::Back, j),
            Absolute::Neutral => false,
        }
    }

    /// The screen rectangle of the focused link, or the degenerate rectangle
    /// when there are no links.
    pub open spec fn spec_important_area(self) -> Rect {
        if self.links@.len() == 0 {
            Rect::spec_zero()
        } else {
            Rect {
                position: self.links@[self.focus as int].position,
                size: Vec2 { x: self.links@[self.focus as int].width, y: 1 },
            }
        }
    }

    /// Creates an engine with no links and focus `0`.
    pub fn new() -> (r: LinkHandler)
        ensures
            r.links@ == Seq::<Link>::empty(),
            r.focus == 0,
            r.wf(),
    {
        LinkHandler { links: Vec::new(), focus: 0 }
    }

    /// Appends a link and returns its index.  Indices are assigned in
    /// insertion order: each new link gets the next index.
    pub fn push(&mut self, link: Link) -> (idx: usize)
        ensures
            final(self).links@ == old(self).links@.push(link),
            final(self).focus == old(self).focus,
            idx == old(self).links@.len(),
    {
        self.links.push(link);
        self.links.len() - 1
    }

    /// Grants keyboard focus to the engine: focus moves to the first link
    /// (toward the start) or the last link (toward the end).  Fails, changing
    /// nothing, exactly when there are no links.
    pub fn take_focus(&mut self, direction: Direction) -> (r: bool)
        requires
            old(self).wf(),
        ensures
            r == (old(self).links@.len() > 0),
            final(self).links@ == old(self).links@,
            r ==> final(self).focus as int == (match direction.spec_relative() {
                Relative::Front => 0,
                Relative::Back => old(self).links@.len() - 1,
            }),
            !r ==> *final(self) == *old(self),
            final(self).wf(),
    {
        if self.links.len() == 0 {
            false
        } else {
            let rel = direction.relative();
            self.focus = match rel {
                Relative::Front => 0,
                Relative::Back => self.links.len() - 1,
            };
            true
        }
    }

    /// Moves the focus in an absolute direction.  Succeeds, returning `true`,
    /// exactly when a link lies in that direction under the engine's policy;
    /// on failure the focus is unchanged.
    pub fn move_focus(&mut self, direction: Absolute) -> (r: bool)
        requires
            old(self).wf(),
        ensures
            final(self).links@ == old(self).links@,
            final(self).wf(),
            r == old(self).can_move(direction),
            r ==> old(self).is_move_dest(direction, final(self).focus as int),
            !r ==> final(self).focus == old(self).focus,
    {
        match direction {
            Absolute::Left => self.move_focus_horizontal(Relative::Front),
            Absolute::Right => self.move_focus_horizontal(Relative::Back),
            Absolute::Up => self.move_focus_vertical(Relative::Front),
            Absolute::Down => self.move_focus_vertical(Relative::Back),
            Absolute::Neutral => false,
        }
    }

    /// Steps the focus to the neighbouring index, only within the focused
    /// link's row.
    fn move_focus_horizontal(&mut self, direction: Relative) -> (r: bool)
        requires
            old(self).wf(),
        ensures
            final(self).links@ == old(self).links@,
            final(self).wf(),
            r == old(self).can_move_horizontal(direction),
            r ==> final(self).focus as int == old(self).focus + LinkHandler::horizontal_step(
                direction,
            ),
            !r ==> final(self).focus == old(self).focus,
    {
        if self.links.len() == 0 {
            return false;
        }
        let new_focus: Option<usize> = match direction {
            Relative::Front => if self.focus >= 1 {
                Some(self.focus - 1)
            } else {
                None
            },
            Relative::Back => if self.focus < self.links.len() - 1 {
                Some(self.focus + 1)
            } else {
                None
            },
        };
        match new_focus {
            Some(new_focus) => {
                if self.links[self.focus].position.y == self.links[new_focus].position.y {
                    self.focus = new_focus;
                    true
                } else {
                    false
                }
            },
            None => false,
        }
    }

    /// Scans outward from the focus, in index order, for the first link on a
    /// strictly earlier (toward the start) or strictly later (toward the end)
    /// row, and moves the focus there.
    fn move_focus_vertical(&mut self, direction: Relative) -> (r: bool)
        requires
            old(self).wf(),
        ensures
            final(self).links@ == old(self).links@,
            final(self).wf(),
            r == old(self).can_move_vertical(direction),
            r ==> old(self).is_vertical_dest(direction, final(self).focus as int),
            !r ==> final(self).focus == old(self).focus,
    {
        if self.links.len() == 0 {
            return false;
        }
        let y = self.links[self.focus].position.y;
        match direction {
            Relative::Front => {
                let mut i: usize = self.focus;
                while i > 0
                    invariant
                        direction == Relative::Front,
                        *self == *old(self),
                        old(self).wf(),
                        self.links@.len() > 0,
                        i <= self.focus,
                        y == self.links@[self.focus as int].position.y,
                        forall|k: int|
                            i <= k < self.focus ==> #[trigger] self.row_at(k) >= self.row_at(
                                self.focus as int,
                            ),
                    decreases i,
                {
                    i = i - 1;
                    if self.links[i].position.y < y {
                        proof {
                            assert(old(self).row_at(i as int) < old(self).row_at(
                                old(self).focus as int,
                            ));
                        }
                        self.focus = i;
                        return true;
                    }
                }
                false
            },
            Relative::Back => {
                let mut i: usize = self.focus + 1;
                while i < self.links.len()
                    invariant
                        direction == Relative::Back,
                        *self == *old(self),
                        old(self).wf(),
                        self.links@.len() > 0,
                        self.focus < i,
                        y == self.links@[self.focus as int].position.y,
                        forall|k: int|
                            self.focus < k < i ==> #[trigger] self.row_at(k) <= self.row_at(
                                self.focus as int,
                            ),
                    decreases self.links@.len() - i,
                {
                    if self.links[i].position.y > y {
                        proof {
                            assert(old(self).row_at(i as int) > old(self).row_at(
                                old(self).focus as int,
                            ));
                        }
                        self.focus = i;
                        return true;
                    }
                    i = i + 1;
                }
                false
            },
        }
    }

    /// Law: a horizontal move stops at the ends of a row — when no link
    /// precedes the focus on its own row, moving toward the start fails, and
    /// when none follows it there, moving toward the end fails.  On a row
    /// whose links are stored contiguously, as a document stores them, these
    /// conditions say that the focus is the row's first or last link.
    pub proof fn lemma_horizontal_stops_at_row_ends(self)
        requires
            self.wf(),
            self.links@.len() > 0,
        ensures
            (self.focus == 0 || self.row_at(self.focus - 1) != self.row_at(self.focus as int))
                ==> !self.can_move_horizontal(Relative::Front),
            (self.focus as int == self.links@.len() - 1 || self.row_at(self.focus + 1)
                != self.row_at(self.focus as int)) ==> !self.can_move_horizontal(Relative::Back),
    {
    }

    /// Law: a successful horizontal move never changes the row — the link it
    /// lands on sits on the same row as the link it left.
    pub proof fn lemma_horizontal_stays_on_row(self, direction: Relative)
        requires
            self.wf(),
            self.can_move_horizontal(direction),
        ensures
            self.row_at(self.focus + LinkHandler::horizontal_step(direction)) == self.row_at(
                self.focus as int,
            ),
    {
    }

    /// Law: a vertical move stops at the extreme rows — from a link on the
    /// smallest row, moving up fails, and from a link on the largest row,
    /// moving down fails.
    pub proof fn lemma_vertical_stops_at_extreme_rows(self)
        requires
            self.wf(),
            self.links@.len() > 0,
        ensures
            (forall|k: int|
                0 <= k < self.links@.len() ==> #[trigger] self.row_at(k) >= self.row_at(
                    self.focus as int,
                )) ==> !self.can_move_vertical(Relative::Front),
            (forall|k: int|
                0 <= k < self.links@.len() ==> #[trigger] self.row_at(k) <= self.row_at(
                    self.focus as int,
                )) ==> !self.can_move_vertical(Relative::Back),
    {
    }

    /// Returns the screen rectangle of the focused link, for the host to draw
    /// focus chrome; the degenerate zero-sized rectangle at the origin when
    /// there are no links.
    pub fn important_area(&self) -> (r: Rect)
        requires
            self.wf(),
        ensures
            r == self.spec_important_area(),
    {
        if self.links.len() == 0 {
            Rect::zero()
        } else {
            let link = &self.links[self.focus];
            Rect::from_size(link.position, Vec2::new(link.width, 1))
        }
    }
}

} // verus!
