//! The decision rules of the rich HTML converter: which annotation on a
//! piece of rendered text yields which style, and which carries a link.
//!
//! An HTML-to-text engine annotates every piece of text it emits.  The
//! conversion of those annotations into the document model's plain values —
//! a [`Style`] descriptor and an optional link target — is decided here;
//! the host-side renderer only translates the engine's annotation type into
//! [`Annotation`] and the resulting descriptors into its own text
//! attributes.

use vstd::prelude::*;

use crate::style::{
    Style, COLOR_SECONDARY, EFFECT_BOLD, EFFECT_ITALIC, EFFECT_STRIKETHROUGH, EFFECT_UNDERLINE,
};

verus! {

/// An annotation on a piece of rich rendered text.
#[derive(Clone, Debug)]
pub enum Annotation {
    /// Normal text.
    Plain,
    /// A link with its target.
    Link(String),
    /// An image, attached to its title text.
    Image,
    /// Emphasised text.
    Emphasis,
    /// Strong text.
    Strong,
    /// Struck-out text.
    Strikeout,
    /// A code snippet.
    Code,
    /// Preformatted text; `true` on a continuation line of an overly long
    /// line.
    Preformat(bool),
}

/// The converter for rich annotations.
///
/// Links are styled with the underline effect, emphasis with italic, strong
/// text with bold, struck-out text with strikethrough, and code snippets
/// with the palette's secondary colour; the remaining annotations carry no
/// style of their own.
pub struct RichConverter;

impl RichConverter {
    /// The style an annotation contributes, if any.
    pub open spec fn spec_style(annotation: Annotation) -> Option<Style> {
        match annotation {
            Annotation::Plain => None,
            Annotation::Link(_) => Some(Style { effects: EFFECT_UNDERLINE, color: 0 }),
            Annotation::Image => None,
            Annotation::Emphasis => Some(Style { effects: EFFECT_ITALIC, color: 0 }),
            Annotation::Strong => Some(Style { effects: EFFECT_BOLD, color: 0 }),
            Annotation::Strikeout => Some(Style { effects: EFFECT_STRIKETHROUGH, color: 0 }),
            Annotation::Code => Some(Style { effects: 0, color: COLOR_SECONDARY }),
            Annotation::Preformat(_) => None,
        }
    }

    /// Returns the style for the given annotation, if any.
    pub fn get_style(&self, annotation: &Annotation) -> (r: Option<Style>)
        ensures
            r == RichConverter::spec_style(*annotation),
    {
        match annotation {
            Annotation::Plain => None,
            Annotation::Link(_) => Some(Style::effect(EFFECT_UNDERLINE)),
            Annotation::Image => None,
            Annotation::Emphasis => Some(Style::effect(EFFECT_ITALIC)),
            Annotation::Strong => Some(Style::effect(EFFECT_BOLD)),
            Annotation::Strikeout => Some(Style::effect(EFFECT_STRIKETHROUGH)),
            Annotation::Code => Some(Style::color(COLOR_SECONDARY)),
            Annotation::Preformat(_) => None,
        }
    }

    /// Returns the link target carried by the given annotation, if any:
    /// exactly the link annotations carry one.
    pub fn get_link<'a>(&self, annotation: &'a Annotation) -> (r: Option<&'a String>)
        ensures
            match *annotation {
                Annotation::Link(target) => r matches Some(t) && t@ == target@,
                _ => r is None,
            },
    {
        match annotation {
            Annotation::Link(target) => Some(target),
            _ => None,
        }
    }
}

} // verus!
