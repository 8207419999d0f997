//! The style descriptor attached to rendered text.
//!
//! The engine never interprets a style: it is an opaque descriptor that the
//! host display maps to its own text attributes.  A descriptor holds a bit set
//! of text effects and a palette colour token; `0` means "no effect" and "no
//! colour".  Combining two descriptors unions the effects and lets the second
//! colour, when present, override the first.

use vstd::prelude::*;

verus! {

/// Text effect bit: underlined text.
pub const EFFECT_UNDERLINE: u64 = 1;

/// Text effect bit: italic text.
pub const EFFECT_ITALIC: u64 = 2;

/// Text effect bit: bold text.
pub const EFFECT_BOLD: u64 = 4;

/// Text effect bit: struck-through text.
pub const EFFECT_STRIKETHROUGH: u64 = 8;

/// Colour token: the host palette's secondary colour.
pub const COLOR_SECONDARY: u64 = 1;

/// A style descriptor: a bit set of text effects and a colour token, both
/// interpreted by the host display.
#[derive(Clone, Copy, Debug, PartialEq, Eq, Structural)]
pub struct Style {
    /// A union of `EFFECT_*` bits.
    pub effects: u64,
    /// A colour token; `0` means the default colour.
    pub color: u64,
}

impl Style {
    /// The style with no effects and the default colour.
    pub open spec fn spec_plain() -> Style {
        Style { effects: 0, color: 0 }
    }

    /// The result of laying `b` over `a`: the effects of both, and `b`'s
    /// colour unless `b` leaves it open.
    pub open spec fn spec_combine(a: Style, b: Style) -> Style {
        Style {
            effects: a.effects | b.effects,
            color: if b.color != 0 {
                b.color
            } else {
                a.color
            },
        }
    }

    /// All the styles of `styles` laid over one another, first to last.
    pub open spec fn spec_merge(styles: Seq<Style>) -> Style
        decreases styles.len(),
    {
        if styles.len() == 0 {
            Style::spec_plain()
        } else {
            Style::spec_combine(Style::spec_merge(styles.drop_last()), styles.last())
        }
    }

    /// Creates the style with no effects and the default colour.
    pub fn plain() -> (r: Style)
        ensures
            r == Style::spec_plain(),
    {
        Style { effects: 0, color: 0 }
    }

    /// Creates the style with the given effect bits and the default colour.
    pub fn effect(effects: u64) -> (r: Style)
        ensures
            r == (Style { effects, color: 0u64 }),
    {
        Style { effects, color: 0 }
    }

    /// Creates the style with no effects and the given colour token.
    pub fn color(color: u64) -> (r: Style)
        ensures
            r == (Style { effects: 0u64, color }),
    {
        Style { effects: 0, color }
    }

    /// Lays `other` over `self`.
    pub fn combine(self, other: Style) -> (r: Style)
        ensures
            r == Style::spec_combine(self, other),
    {
        Style {
            effects: self.effects | other.effects,
            color: if other.color != 0 {
                other.color
            } else {
                self.color
            },
        }
    }

    /// Lays all the styles of `styles` over one another, first to last.
    pub fn merge(styles: &Vec<Style>) -> (r: Style)
        ensures
            r == Style::spec_merge(styles@),
    {
        let mut r = Style::plain();
        let mut i: usize = 0;
        while i < styles.len()
            invariant
                i <= styles@.len(),
                r == Style::spec_merge(styles@.take(i as int)),
            decreases styles@.len() - i,
        {
            proof {
                assert(styles@.take(i + 1).drop_last() =~= styles@.take(i as int));
                assert(styles@.take(i + 1).last() == styles@[i as int]);
            }
            r = r.combine(styles[i]);
            i = i + 1;
        }
        proof {
            assert(styles@.take(styles@.len() as int) =~= styles@);
        }
        r
    }
}

impl Default for Style {
    /// The default style: no effects, default colour.
    fn default() -> (r: Style)
        ensures
            r == Style::spec_plain(),
    {
        Style { effects: 0, color: 0 }
    }
}

} // verus!
