//! The document model: rendered lines of styled text, and the registration of
//! the hyperlinks they contain.
//!
//! A rendering strategy builds a [`RenderedDocument`] by appending one visual
//! row at a time with [`RenderedDocument::push_line`].  Each element of a row
//! occupies as many cells as its text is wide; an element that carries a link
//! target registers a [`Link`] at the element's position and receives the
//! link's index.  Links are therefore registered in reading order —
//! row-ascending, then left to right — and their indices grow in insertion
//! order, which is the order the navigation engine relies on.

use vstd::prelude::*;

use crate::geom::Vec2;
use crate::nav::{Link, LinkHandler};
use crate::style::Style;

verus! {

/// The display width, in terminal cells, of the character sequence `s`.  The
/// exact value is determined by the Unicode width rules of the supplied
/// display-width function and is a function of the characters alone.
pub uninterp spec fn display_width(s: Seq<char>) -> nat;

/// Relies on unicode_width's `UnicodeWidthStr::width`: the displayed width of
/// a string in terminal cells, a function of its characters alone.
#[verifier::external_body]
fn text_width(text: &String) -> (r: usize)
    ensures
        r as nat == display_width(text@),
{
    unicode_width::UnicodeWidthStr::width(text.as_str())
}

/// A unit of output of the rendering strategy: a piece of text, its style,
/// and an optional link target.  Elements are consumed when a line is pushed
/// into a document.
#[derive(Clone, Debug)]
pub struct Element {
    /// The text of the element.
    pub text: String,
    /// The style descriptor of the element.
    pub style: Style,
    /// The target of the link this element belongs to, if any.
    pub link_target: Option<String>,
}

/// One element of a rendered line: its text and style, and the index of the
/// link it belongs to, if any, in the owning document's link sequence.
#[derive(Clone, Debug)]
pub struct RenderedElement {
    /// The text of the element.
    pub text: String,
    /// The style descriptor of the element.
    pub style: Style,
    /// The index of the element's link in the document's link sequence.
    pub link_idx: Option<usize>,
}

/// The display width of element `e`.
pub open spec fn elem_width(e: Element) -> nat {
    display_width(e.text@)
}

/// The summed display width of the first `i` elements of a line.
pub open spec fn prefix_width(line: Seq<Element>, i: int) -> nat
    decreases i,
{
    if i <= 0 {
        0
    } else {
        prefix_width(line, i - 1) + elem_width(line[i - 1])
    }
}

/// The summed display width of a whole line.
pub open spec fn line_width(line: Seq<Element>) -> nat {
    prefix_width(line, line.len() as int)
}

/// How many of the first `i` elements of a line carry a link target.
pub open spec fn links_count(line: Seq<Element>, i: int) -> nat
    decreases i,
{
    if i <= 0 {
        0
    } else {
        links_count(line, i - 1) + (if line[i - 1].link_target is Some {
            1nat
        } else {
            0nat
        })
    }
}

/// The links registered by the first `i` elements of a line pushed as row
/// `y`: one link per element with a target, at the element's start column,
/// with the element's width.
pub open spec fn links_of_line(line: Seq<Element>, y: nat, i: int) -> Seq<Link>
    decreases i,
{
    if i <= 0 {
        Seq::<Link>::empty()
    } else {
        let rest = links_of_line(line, y, i - 1);
        if line[i - 1].link_target is Some {
            rest.push(
                Link {
                    position: Vec2 { x: prefix_width(line, i - 1) as usize, y: y as usize },
                    width: elem_width(line[i - 1]) as usize,
                    target: line[i - 1].link_target->Some_0,
                },
            )
        } else {
            rest
        }
    }
}

/// The rendered form of the first `i` elements of a line, when the document
/// already holds `base` links: text and style carried over, and the `k`-th
/// link-carrying element numbered `base` plus the link elements before it.
pub open spec fn rendered_line(line: Seq<Element>, base: nat, i: int) -> Seq<RenderedElement>
    decreases i,
{
    if i <= 0 {
        Seq::<RenderedElement>::empty()
    } else {
        rendered_line(line, base, i - 1).push(
            RenderedElement {
                text: line[i - 1].text,
                style: line[i - 1].style,
                link_idx: if line[i - 1].link_target is Some {
                    Some((base + links_count(line, i - 1)) as usize)
                } else {
                    None
                },
            },
        )
    }
}

/// How many of the first `i` elements of a rendered line carry a link index.
pub open spec fn rendered_links_count(line: Seq<RenderedElement>, i: int) -> nat
    decreases i,
{
    if i <= 0 {
        0
    } else {
        rendered_links_count(line, i - 1) + (if line[i - 1].link_idx is Some {
            1nat
        } else {
            0nat
        })
    }
}

/// The summed display width of the first `i` elements of a rendered line.
pub open spec fn rendered_prefix_width(line: Seq<RenderedElement>, i: int) -> nat
    decreases i,
{
    if i <= 0 {
        0
    } else {
        rendered_prefix_width(line, i - 1) + display_width(line[i - 1].text@)
    }
}

/// The summed display width of a whole rendered line.
pub open spec fn rendered_line_width(line: Seq<RenderedElement>) -> nat {
    rendered_prefix_width(line, line.len() as int)
}

/// How many link elements the first `i` lines of a document hold, in total.
pub open spec fn lines_links_count(lines: Seq<Vec<RenderedElement>>, i: int) -> nat
    decreases i,
{
    if i <= 0 {
        0
    } else {
        lines_links_count(lines, i - 1) + rendered_links_count(
            lines[i - 1]@,
            lines[i - 1]@.len() as int,
        )
    }
}

/// The width of a document: the maximum summed width over its first `i`
/// lines.
pub open spec fn doc_width(lines: Seq<Vec<RenderedElement>>, i: int) -> nat
    decreases i,
{
    if i <= 0 {
        0
    } else {
        let rest = doc_width(lines, i - 1);
        let w = rendered_line_width(lines[i - 1]@);
        if rest >= w {
            rest
        } else {
            w
        }
    }
}

/// The link elements of `line` are numbered consecutively from `base`, in
/// element order.
pub open spec fn line_indices_ok(line: Seq<RenderedElement>, base: nat) -> bool {
    forall|i: int|
        0 <= i < line.len() && (#[trigger] line[i].link_idx) is Some ==> line[i].link_idx->Some_0
            as nat == base + rendered_links_count(line, i)
}

/// Every line of the document numbers its link elements from the total link
/// count of the lines above it.
pub open spec fn doc_indices_ok(lines: Seq<Vec<RenderedElement>>) -> bool {
    forall|r: int|
        0 <= r < lines.len() ==> line_indices_ok(
            (#[trigger] lines[r])@,
            lines_links_count(lines, r),
        )
}

impl Element {
    /// Creates an element with the given text, style and optional link
    /// target.
    pub fn new(text: String, style: Style, link_target: Option<String>) -> (r: Element)
        ensures
            r == (Element { text, style, link_target }),
    {
        Element { text, style, link_target }
    }

    /// Creates an element with the given text, the plain style and no link
    /// target.
    pub fn plain(text: String) -> (r: Element)
        ensures
            r == (Element { text, style: Style::spec_plain(), link_target: None::<String> }),
    {
        Element { text, style: Style::plain(), link_target: None }
    }

    /// Creates an element with the given text and style and no link target.
    pub fn styled(text: String, style: Style) -> (r: Element)
        ensures
            r == (Element { text, style, link_target: None::<String> }),
    {
        Element { text, style, link_target: None }
    }

    /// Creates an element with the given text, style and link target.
    pub fn link(text: String, style: Style, target: String) -> (r: Element)
        ensures
            r == (Element { text, style, link_target: Some(target) }),
    {
        Element { text, style, link_target: Some(target) }
    }
}

impl From<String> for Element {
    /// A bare string becomes a plain element.
    fn from(s: String) -> (r: Element) {
        Element::plain(s)
    }
}

impl vstd::std_specs::convert::FromSpecImpl<String> for Element {
    open spec fn obeys_from_spec() -> bool {
        true
    }

    open spec fn from_spec(s: String) -> Element {
        Element { text: s, style: Style::spec_plain(), link_target: None }
    }
}

/// A rendered hypertext document: an ordered sequence of rendered lines, the
/// navigation engine holding the links found in them, the document's overall
/// size, and the width/height constraint it was built for.
#[derive(Clone, Debug)]
pub struct RenderedDocument {
    /// The rendered lines, in order.
    pub lines: Vec<Vec<RenderedElement>>,
    /// The navigation engine over the links of this document.
    pub link_handler: LinkHandler,
    /// The overall size: the widest line, and the number of lines.
    pub size: Vec2,
    /// The constraint this document was rendered for.  It is stored for cache
    /// comparison only and is not enforced against the content.
    pub constraint: Vec2,
}

impl RenderedDocument {
    /// The structural invariant that `new` establishes and `push_line`
    /// preserves: the focus is in range; the size is derived from the lines
    /// (widest line, line count); the links are exactly the link elements of
    /// the lines, numbered consecutively in reading order; and links sit on
    /// existing rows, in row-ascending order.
    pub open spec fn wf(self) -> bool {
        &&& self.link_handler.wf()
        &&& self.size.y as int == self.lines@.len()
        &&& self.size.x as nat == doc_width(self.lines@, self.lines@.len() as int)
        &&& self.link_handler.links@.len() == lines_links_count(
            self.lines@,
            self.lines@.len() as int,
        )
        &&& doc_indices_ok(self.lines@)
        &&& forall|k: int|
            0 <= k < self.link_handler.links@.len() ==> (#[trigger] self.link_handler.links@[k].position.y)
                < self.lines@.len()
        &&& forall|i: int, j: int|
            0 <= i <= j < self.link_handler.links@.len()
                ==> (#[trigger] self.link_handler.links@[i].position.y) <= (
            #[trigger] self.link_handler.links@[j].position.y)
    }

    /// Creates an empty document scoped to the given constraint.  The
    /// constraint is stored for cache comparison; it is not enforced against
    /// the content pushed later.
    pub fn new(constraint: Vec2) -> (r: RenderedDocument)
        ensures
            r.wf(),
            r.lines@.len() == 0,
            r.link_handler.links@.len() == 0,
            r.link_handler.focus == 0,
            r.size == (Vec2 { x: 0usize, y: 0usize }),
            r.constraint == constraint,
    {
        RenderedDocument {
            lines: Vec::new(),
            link_handler: LinkHandler::new(),
            size: Vec2::zero(),
            constraint,
        }
    }

    /// Appends one visual row.  Each element is placed at the running sum of
    /// the widths of the elements before it; an element that carries a link
    /// target registers a link there and receives the next link index.  The
    /// document grows one row taller and its width becomes the maximum of the
    /// old width and the new row's width.  Fails without any change, only on
    /// the machine limit: when the summed width of the row cannot be
    /// represented.
    pub fn push_line(&mut self, line: Vec<Element>) -> (ok: bool)
        requires
            old(self).wf(),
        ensures
            final(self).wf(),
            ok == (line_width(line@) <= usize::MAX),
            !ok ==> *final(self) == *old(self),
            final(self).link_handler.focus == old(self).link_handler.focus,
            final(self).constraint == old(self).constraint,
            ok ==> final(self).lines@.len() == old(self).lines@.len() + 1,
            ok ==> (forall|r: int|
                0 <= r < old(self).lines@.len() ==> final(self).lines@[r] == old(self).lines@[r]),
            ok ==> final(self).lines@[old(self).lines@.len() as int]@ == rendered_line(
                line@,
                old(self).link_handler.links@.len() as nat,
                line@.len() as int,
            ),
            ok ==> final(self).link_handler.links@ == old(self).link_handler.links@
                + links_of_line(line@, old(self).lines@.len() as nat, line@.len() as int),
            ok ==> final(self).size.y as int == old(self).size.y + 1,
            ok ==> final(self).size.x as nat == (if old(self).size.x as nat >= line_width(line@) {
                old(self).size.x as nat
            } else {
                line_width(line@)
            }),
    {
        // First pass: measure the elements and reject a row whose summed
        // width cannot be represented.
        let mut widths: Vec<usize> = Vec::new();
        let mut total: usize = 0;
        let mut i: usize = 0;
        while i < line.len()
            invariant
                *self == *old(self),
                old(self).wf(),
                i <= line@.len(),
                widths@.len() == i,
                forall|k: int| 0 <= k < i ==> (#[trigger] widths@[k]) as nat == elem_width(line@[k]),
                total as nat == prefix_width(line@, i as int),
            decreases line@.len() - i,
        {
            let w = text_width(&line[i].text);
            if w > usize::MAX - total {
                proof {
                    lemma_prefix_width_mono(line@, i as int + 1, line@.len() as int);
                }
                return false;
            }
            total = total + w;
            widths.push(w);
            i = i + 1;
        }
        // Second pass: register the links and build the rendered row.
        let y = self.lines.len();
        let ghost base = self.link_handler.links@.len() as nat;
        let mut rendered: Vec<RenderedElement> = Vec::new();
        let mut x: usize = 0;
        let mut i: usize = 0;
        proof {
            assert(self.link_handler.links@ =~= self.link_handler.links@ + links_of_line(
                line@,
                y as nat,
                0,
            ));
        }
        while i < line.len()
            invariant
                i <= line@.len(),
                widths@.len() == line@.len(),
                forall|k: int|
                    0 <= k < line@.len() ==> (#[trigger] widths@[k]) as nat == elem_width(line@[k]),
                line_width(line@) <= usize::MAX,
                x as nat == prefix_width(line@, i as int),
                old(self).wf(),
                self.lines@ == old(self).lines@,
                self.size == old(self).size,
                self.constraint == old(self).constraint,
                self.link_handler.focus == old(self).link_handler.focus,
                y as int == old(self).lines@.len(),
                base == old(self).link_handler.links@.len(),
                self.link_handler.links@ == old(self).link_handler.links@ + links_of_line(
                    line@,
                    y as nat,
                    i as int,
                ),
                rendered@ == rendered_line(line@, base, i as int),
            decreases line@.len() - i,
        {
            proof {
                lemma_prefix_width_mono(line@, i as int + 1, line@.len() as int);
                lemma_links_of_line_props(line@, y as nat, i as int);
            }
            let w = widths[i];
            let link_idx: Option<usize> = match &line[i].link_target {
                Some(target) => {
                    let idx = self.link_handler.push(
                        Link {
                            position: Vec2 { x, y },
                            width: w,
                            target: target.clone(),
                        },
                    );
                    proof {
                        assert(self.link_handler.links@ =~= old(self).link_handler.links@
                            + links_of_line(line@, y as nat, i as int + 1));
                    }
                    Some(idx)
                },
                None => {
                    proof {
                        assert(self.link_handler.links@ =~= old(self).link_handler.links@
                            + links_of_line(line@, y as nat, i as int + 1));
                    }
                    None
                },
            };
            rendered.push(
                RenderedElement { text: line[i].text.clone(), style: line[i].style, link_idx },
            );
            proof {
                assert(rendered@ =~= rendered_line(line@, base, i as int + 1));
            }
            x = x + w;
            i = i + 1;
        }
        let ghost old_lines = self.lines@;
        self.lines.push(rendered);
        let h = self.lines.len();
        let new_width = if x > self.size.x {
            x
        } else {
            self.size.x
        };
        self.size = Vec2 { x: new_width, y: h };
        proof {
            lemma_push_line_preserves_wf(
                *old(self),
                *self,
                line@,
                rendered,
                y as nat,
            );
        }
        true
    }
}

/// The summed width of a prefix never exceeds that of a longer prefix.
proof fn lemma_prefix_width_mono(line: Seq<Element>, i: int, j: int)
    requires
        0 <= i <= j,
    ensures
        prefix_width(line, i) <= prefix_width(line, j),
    decreases j,
{
    if i < j {
        lemma_prefix_width_mono(line, i, j - 1);
    }
}

/// The rendered form of a line prefix has one rendered element per source
/// element, with the source's text and style and the consecutive link
/// numbering.
proof fn lemma_rendered_line_props(line: Seq<Element>, base: nat, i: int)
    requires
        0 <= i <= line.len(),
    ensures
        rendered_line(line, base, i).len() == i,
        forall|k: int|
            0 <= k < i ==> (#[trigger] rendered_line(line, base, i)[k]) == (RenderedElement {
                text: line[k].text,
                style: line[k].style,
                link_idx: if line[k].link_target is Some {
                    Some((base + links_count(line, k)) as usize)
                } else {
                    None::<usize>
                },
            }),
    decreases i,
{
    if i > 0 {
        lemma_rendered_line_props(line, base, i - 1);
    }
}

/// A line prefix registers one link per link element, all on row `y`.
proof fn lemma_links_of_line_props(line: Seq<Element>, y: nat, i: int)
    requires
        0 <= i <= line.len(),
    ensures
        links_of_line(line, y, i).len() == links_count(line, i),
        forall|k: int|
            0 <= k < links_count(line, i) ==> (#[trigger] links_of_line(line, y, i)[k]).position.y
                == y as usize,
    decreases i,
{
    if i > 0 {
        lemma_links_of_line_props(line, y, i - 1);
    }
}

/// Counting link elements is monotone in the prefix length.
proof fn lemma_links_count_mono(line: Seq<Element>, i: int, j: int)
    requires
        0 <= i <= j,
    ensures
        links_count(line, i) <= links_count(line, j),
    decreases j,
{
    if i < j {
        lemma_links_count_mono(line, i, j - 1);
    }
}

/// Counting rendered link elements is monotone in the prefix length.
proof fn lemma_rendered_count_mono(line: Seq<RenderedElement>, i: int, j: int)
    requires
        0 <= i <= j,
    ensures
        rendered_links_count(line, i) <= rendered_links_count(line, j),
    decreases j,
{
    if i < j {
        lemma_rendered_count_mono(line, i, j - 1);
    }
}

/// The rendered form of a line prefix has exactly the link elements of the
/// source prefix.
proof fn lemma_rendered_counts(line: Seq<Element>, base: nat, i: int, j: int)
    requires
        0 <= j <= i <= line.len(),
    ensures
        rendered_links_count(rendered_line(line, base, i), j) == links_count(line, j),
    decreases j,
{
    lemma_rendered_line_props(line, base, i);
    if j > 0 {
        lemma_rendered_counts(line, base, i, j - 1);
    }
}

/// The rendered form of a line prefix is exactly as wide as the source
/// prefix.
proof fn lemma_rendered_width(line: Seq<Element>, base: nat, i: int, j: int)
    requires
        0 <= j <= i <= line.len(),
    ensures
        rendered_prefix_width(rendered_line(line, base, i), j) == prefix_width(line, j),
    decreases j,
{
    lemma_rendered_line_props(line, base, i);
    if j > 0 {
        lemma_rendered_width(line, base, i, j - 1);
    }
}

/// Appending a line does not change the link count of the lines before it.
proof fn lemma_lines_links_count_push(
    lines: Seq<Vec<RenderedElement>>,
    v: Vec<RenderedElement>,
    i: int,
)
    requires
        0 <= i <= lines.len(),
    ensures
        lines_links_count(lines.push(v), i) == lines_links_count(lines, i),
    decreases i,
{
    if i > 0 {
        lemma_lines_links_count_push(lines, v, i - 1);
        assert(lines.push(v)[i - 1] == lines[i - 1]);
    }
}

/// The total link count is monotone in the number of lines counted.
proof fn lemma_lines_links_count_mono(lines: Seq<Vec<RenderedElement>>, i: int, j: int)
    requires
        0 <= i <= j,
    ensures
        lines_links_count(lines, i) <= lines_links_count(lines, j),
    decreases j,
{
    if i < j {
        lemma_lines_links_count_mono(lines, i, j - 1);
    }
}

/// Appending a line does not change the width of the lines before it.
proof fn lemma_doc_width_push(lines: Seq<Vec<RenderedElement>>, v: Vec<RenderedElement>, i: int)
    requires
        0 <= i <= lines.len(),
    ensures
        doc_width(lines.push(v), i) == doc_width(lines, i),
    decreases i,
{
    if i > 0 {
        lemma_doc_width_push(lines, v, i - 1);
        assert(lines.push(v)[i - 1] == lines[i - 1]);
    }
}

/// The whole invariant of `push_line`: from a well-formed document and the
/// loop's exact description of the appended row, the grown document is
/// well-formed again.
proof fn lemma_push_line_preserves_wf(
    pre: RenderedDocument,
    post: RenderedDocument,
    line: Seq<Element>,
    rendered: Vec<RenderedElement>,
    y: nat,
)
    requires
        pre.wf(),
        line_width(line) <= usize::MAX,
        y == pre.lines@.len(),
        rendered@ == rendered_line(line, pre.link_handler.links@.len() as nat, line.len() as int),
        post.lines@ == pre.lines@.push(rendered),
        post.link_handler.links@ == pre.link_handler.links@ + links_of_line(
            line,
            y,
            line.len() as int,
        ),
        post.link_handler.focus == pre.link_handler.focus,
        post.size.y as int == post.lines@.len(),
        post.size.x as nat == (if pre.size.x as nat >= line_width(line) {
            pre.size.x as nat
        } else {
            line_width(line)
        }),
    ensures
        post.wf(),
{
    let n = line.len() as int;
    let base = pre.link_handler.links@.len() as nat;
    let ol = pre.lines@;
    let nl = post.lines@;
    let count = links_count(line, n);
    lemma_rendered_line_props(line, base, n);
    lemma_links_of_line_props(line, y, n);
    lemma_rendered_counts(line, base, n, n);
    lemma_rendered_width(line, base, n, n);
    lemma_lines_links_count_push(ol, rendered, ol.len() as int);
    lemma_doc_width_push(ol, rendered, ol.len() as int);
    assert(nl[ol.len() as int] == rendered);
    // The new total link count is the old one plus the new row's links.
    assert(rendered_links_count(nl[ol.len() as int]@, nl[ol.len() as int]@.len() as int)
        == count);
    assert(lines_links_count(nl, nl.len() as int) == lines_links_count(ol, ol.len() as int)
        + count);
    assert(post.link_handler.links@.len() == base + count);
    vstd::std_specs::vec::axiom_spec_len(&post.link_handler.links);
    assert(base + count <= usize::MAX);
    // The focus stays in range: the link sequence only grew.
    assert(post.link_handler.wf());
    // The new width is the maximum over all rows.
    assert(rendered_line_width(nl[ol.len() as int]@) == line_width(line));
    assert(doc_width(nl, nl.len() as int) == (if doc_width(ol, ol.len() as int) >= line_width(
        line,
    ) {
        doc_width(ol, ol.len() as int)
    } else {
        line_width(line)
    }));
    // Link elements of every line keep their consecutive numbering.
    assert forall|r: int| 0 <= r < nl.len() implies line_indices_ok(
        (#[trigger] nl[r])@,
        lines_links_count(nl, r),
    ) by {
        if r < ol.len() {
            assert(nl[r] == ol[r]);
            lemma_lines_links_count_push(ol, rendered, r);
            assert(line_indices_ok(ol[r]@, lines_links_count(ol, r)));
        } else {
            assert(r == ol.len());
            lemma_lines_links_count_push(ol, rendered, r);
            assert(lines_links_count(nl, r) == base);
            assert forall|k: int|
                0 <= k < rendered@.len() && (#[trigger] rendered@[k].link_idx) is Some implies
                rendered@[k].link_idx->Some_0 as nat == base + rendered_links_count(
                    rendered@,
                    k,
                ) by {
                lemma_rendered_counts(line, base, n, k);
                lemma_links_count_mono(line, k, n);
            }
        }
    }
    // Every link sits on an existing row, and rows ascend with the index.
    let links = post.link_handler.links@;
    assert forall|k: int| 0 <= k < links.len() implies (#[trigger] links[k].position.y)
        < nl.len() by {
        if k >= base {
            assert(links[k] == links_of_line(line, y, n)[k - base]);
        }
    }
    assert forall|i: int, j: int| 0 <= i <= j < links.len() implies (
    #[trigger] links[i].position.y) <= (#[trigger] links[j].position.y) by {
        if i >= base {
            assert(links[i] == links_of_line(line, y, n)[i - base]);
        }
        if j >= base {
            assert(links[j] == links_of_line(line, y, n)[j - base]);
        }
    }
}

/// Law: the links of a well-formed document are exactly its link-carrying
/// elements — the count of registered links equals the count of elements
/// that carry a link target, summed over all lines.
pub proof fn lemma_link_count_matches(d: &RenderedDocument)
    requires
        d.wf(),
    ensures
        d.link_handler.links@.len() == lines_links_count(d.lines@, d.lines@.len() as int),
{
}

/// Law: link indices are assigned in strictly increasing insertion order —
/// of two link elements in reading order (earlier row, or same row and
/// earlier column), the earlier one holds the smaller index; and every link
/// index is a valid index into the document's link sequence.
pub proof fn lemma_link_indices_in_order(
    d: &RenderedDocument,
    r1: int,
    i1: int,
    r2: int,
    i2: int,
)
    requires
        d.wf(),
        0 <= r1 <= r2 < d.lines@.len(),
        0 <= i1 < d.lines@[r1]@.len(),
        0 <= i2 < d.lines@[r2]@.len(),
        r1 < r2 || i1 < i2,
        d.lines@[r1]@[i1].link_idx is Some,
        d.lines@[r2]@[i2].link_idx is Some,
    ensures
        d.lines@[r1]@[i1].link_idx->Some_0 < d.lines@[r2]@[i2].link_idx->Some_0,
        (d.lines@[r2]@[i2].link_idx->Some_0 as int) < d.link_handler.links@.len(),
{
    lemma_link_index_valid(d, r2, i2);
    let l1 = d.lines@[r1]@;
    let l2 = d.lines@[r2]@;
    assert(line_indices_ok(l1, lines_links_count(d.lines@, r1)));
    assert(line_indices_ok(l2, lines_links_count(d.lines@, r2)));
    if r1 == r2 {
        lemma_rendered_count_step(l1, i1);
        lemma_rendered_count_mono(l1, i1 + 1, i2);
    } else {
        lemma_rendered_count_step(l1, i1);
        lemma_rendered_count_mono(l1, i1 + 1, l1.len() as int);
        lemma_lines_links_count_step(d.lines@, r1);
        lemma_lines_links_count_mono(d.lines@, r1 + 1, r2);
    }
}

/// Law: every link index held by a rendered element of a well-formed
/// document is a valid index into the document's link sequence.
pub proof fn lemma_link_index_valid(d: &RenderedDocument, r: int, i: int)
    requires
        d.wf(),
        0 <= r < d.lines@.len(),
        0 <= i < d.lines@[r]@.len(),
        d.lines@[r]@[i].link_idx is Some,
    ensures
        (d.lines@[r]@[i].link_idx->Some_0 as int) < d.link_handler.links@.len(),
{
    let l = d.lines@[r]@;
    assert(line_indices_ok(l, lines_links_count(d.lines@, r)));
    lemma_rendered_count_step(l, i);
    lemma_rendered_count_mono(l, i + 1, l.len() as int);
    lemma_lines_links_count_step(d.lines@, r);
    lemma_lines_links_count_mono(d.lines@, r + 1, d.lines@.len() as int);
}

/// Passing a link element increases the rendered link count by one.
proof fn lemma_rendered_count_step(line: Seq<RenderedElement>, i: int)
    requires
        0 <= i < line.len(),
        line[i].link_idx is Some,
    ensures
        rendered_links_count(line, i + 1) == rendered_links_count(line, i) + 1,
{
}

/// Counting one more line adds that line's link elements.
proof fn lemma_lines_links_count_step(lines: Seq<Vec<RenderedElement>>, r: int)
    requires
        0 <= r < lines.len(),
    ensures
        lines_links_count(lines, r + 1) == lines_links_count(lines, r) + rendered_links_count(
            lines[r]@,
            lines[r]@.len() as int,
        ),
{
}

} // verus!
