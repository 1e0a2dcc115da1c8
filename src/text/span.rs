use vstd::prelude::*;

use crate::buffer::{index_spec, Buffer};
use crate::component::Component;
use crate::layout::Rect;
use crate::style::{AsStyle, AsStyleMut, Style, StyledString, Stylize};
use crate::unicode::{contains_control, display_width, graphemes, graphemes_of, has_control, str_width};

verus! {

/// The value of a [`Span`].
pub struct SpanView {
    pub content: Seq<char>,
    pub style: Style,
}

/// Text with a single style.
#[derive(Debug, Hash)]
pub struct Span {
    /// The text.
    pub content: String,
    /// The style of the text.
    pub style: Style,
}

impl View for Span {
    type V = SpanView;

    open spec fn view(&self) -> SpanView {
        SpanView { content: self.content@, style: self.style }
    }
}

/// One grapheme cluster with the style it is drawn in.
#[derive(Debug, Hash)]
pub struct StyledGrapheme {
    pub symbol: String,
    pub style: Style,
}

impl StyledGrapheme {
    /// Pairs a grapheme with a style.
    pub fn new(symbol: &str, style: Style) -> (r: Self)
        ensures
            r.symbol@ == symbol@,
            r.style == style,
    {
        StyledGrapheme { symbol: String::from_str(symbol), style }
    }
}

/// The graphemes among `gs` that hold no control character and are not zero columns
/// wide, in order.
pub open spec fn kept_graphemes(gs: Seq<Seq<char>>) -> Seq<Seq<char>>
    decreases gs.len(),
{
    if gs.len() == 0 {
        seq![]
    } else {
        let rest = kept_graphemes(gs.drop_last());
        if has_control(gs.last()) || str_width(gs.last()) == 0 {
            rest
        } else {
            rest.push(gs.last())
        }
    }
}

impl Span {
    /// Unstyled text.
    pub fn raw(content: &str) -> (r: Self)
        ensures
            r@ == (SpanView { content: content@, style: Style::empty_spec() }),
    {
        Span { content: String::from_str(content), style: Style::new() }
    }

    /// Text with a style.
    pub fn styled(content: &str, style: Style) -> (r: Self)
        ensures
            r@ == (SpanView { content: content@, style }),
    {
        Span { content: String::from_str(content), style }
    }

    /// Replaces the text.
    pub fn content(self, content: &str) -> (r: Self)
        ensures
            r@ == (SpanView { content: content@, style: self.style }),
    {
        Span { content: String::from_str(content), style: self.style }
    }

    /// Replaces the style.
    pub fn style(self, style: Style) -> (r: Self)
        ensures
            r@ == (SpanView { style, ..self@ }),
    {
        Span { style, ..self }
    }

    /// Patches the style with `style` (the span's own colors win where present).
    pub fn patch_style(self, style: Style) -> (r: Self)
        ensures
            r@ == (SpanView { style: self.style.patch_spec(style), ..self@ }),
    {
        let patched = self.style.patch(style);
        Span { style: patched, ..self }
    }

    /// Removes every color and attribute.
    pub fn reset_style(self) -> (r: Self)
        ensures
            r@ == (SpanView { style: Style::empty_spec(), ..self@ }),
    {
        Span { style: Style::new(), ..self }
    }

    /// The display width of the text.
    pub fn width(&self) -> (r: usize)
        ensures
            r == str_width(self.content@),
    {
        display_width(self.content.as_str())
    }

    /// The grapheme clusters of the text that hold no control character and are not
    /// zero columns wide, each with `base_style` patched with the span's style.
    pub fn styled_graphemes(&self, base_style: Style) -> (r: Vec<StyledGrapheme>)
        ensures
            r@.len() == kept_graphemes(graphemes_of(self.content@)).len(),
            forall|i: int|
                0 <= i < r@.len() ==> {
                    &&& (#[trigger] r@[i]).symbol@ == kept_graphemes(graphemes_of(self.content@))[i]
                    &&& r@[i].style == base_style.patch_spec(self.style)
                },
    {
        let style = base_style.patch(self.style);
        let gs = graphemes(self.content.as_str());
        let ghost gsv = graphemes_of(self.content@);
        let mut out: Vec<StyledGrapheme> = Vec::new();
        let mut k: usize = 0;
        while k < gs.len()
            invariant
                gs@.len() == gsv.len(),
                forall|i: int| 0 <= i < gs@.len() ==> #[trigger] gs@[i]@ == gsv[i],
                k <= gs@.len(),
                out@.len() == kept_graphemes(gsv.subrange(0, k as int)).len(),
                forall|i: int|
                    0 <= i < out@.len() ==> {
                        &&& (#[trigger] out@[i]).symbol@ == kept_graphemes(
                            gsv.subrange(0, k as int),
                        )[i]
                        &&& out@[i].style == style
                    },
            decreases gs@.len() - k,
        {
            proof {
                assert(gsv.subrange(0, k + 1).drop_last() == gsv.subrange(0, k as int));
            }
            let g = gs[k].as_str();
            if !contains_control(g) && display_width(g) != 0 {
                out.push(StyledGrapheme::new(g, style));
            }
            k = k + 1;
        }
        proof {
            assert(gsv.subrange(0, gsv.len() as int) == gsv);
        }
        out
    }

    /// Writes the text into the first row of `area`, clipped to `buffer`, in `style`; graphemes that do not fit are dropped whole, and no cell outside that row
    /// of the clipped area changes.
    pub fn render_styled(&self, area: Rect, buffer: &mut Buffer, style: Style)
        requires
            old(buffer).wf(),
            old(buffer).addressable(),
        ensures
            final(buffer).wf(),
            final(buffer).area == old(buffer).area,
            ({
                let a = old(buffer).area.intersection_spec(area);
                forall|t: int|
                    0 <= t < old(buffer).cells().len() && !(index_spec(
                        old(buffer).area,
                        a.x as int,
                        a.y as int,
                    ) <= t < index_spec(old(buffer).area, a.x + a.width, a.y as int))
                        ==> #[trigger] final(buffer).cells()[t] == old(buffer).cells()[t]
            }),
            ({
                let a = old(buffer).area.intersection_spec(area);
                if a.width == 0 || a.height == 0 {
                    final(buffer).cells() == old(buffer).cells()
                } else {
                    final(buffer).cells() == old(buffer).write_result(
                        a.x as int,
                        a.y as int,
                        self.content@,
                        a.width as int,
                        style,
                    ).cells
                }
            }),
    {
        let a = buffer.area.intersection(area);
        if a.width == 0 || a.height == 0 {
            return;
        }
        buffer.set_stringn(a.x, a.y, self.content.as_str(), a.width as usize, style);
    }

    /// Writes the text into the first row of `area`, clipped to `buffer`, in the span's
    /// style; graphemes that do not fit are dropped whole, and no cell outside that row
    /// of the clipped area changes.
    pub fn render_into(&self, area: Rect, buffer: &mut Buffer)
        requires
            old(buffer).wf(),
            old(buffer).addressable(),
        ensures
            final(buffer).wf(),
            final(buffer).area == old(buffer).area,
            ({
                let a = old(buffer).area.intersection_spec(area);
                forall|t: int|
                    0 <= t < old(buffer).cells().len() && !(index_spec(
                        old(buffer).area,
                        a.x as int,
                        a.y as int,
                    ) <= t < index_spec(old(buffer).area, a.x + a.width, a.y as int))
                        ==> #[trigger] final(buffer).cells()[t] == old(buffer).cells()[t]
            }),
            ({
                let a = old(buffer).area.intersection_spec(area);
                if a.width == 0 || a.height == 0 {
                    final(buffer).cells() == old(buffer).cells()
                } else {
                    final(buffer).cells() == old(buffer).write_result(
                        a.x as int,
                        a.y as int,
                        self.content@,
                        a.width as int,
                        self.style,
                    ).cells
                }
            }),
    {
        self.render_styled(area, buffer, self.style);
    }
}

impl Component for Span {
    fn render(self, area: Rect, buffer: &mut Buffer) {
        self.render_into(area, buffer);
    }
}

impl AsStyle for Span {
    fn as_style(&self) -> &Style {
        &self.style
    }
}

impl AsStyleMut for Span {
    fn as_style_mut(&mut self) -> &mut Style {
        &mut self.style
    }
}

impl Stylize for Span {
    type Styled = Span;

    fn stylize(self) -> Span {
        self
    }
}

impl From<StyledString<String>> for Span {
    fn from(value: StyledString<String>) -> (r: Span) {
        Span { content: value.content, style: value.style }
    }
}

impl vstd::std_specs::convert::FromSpecImpl<StyledString<String>> for Span {
    open spec fn obeys_from_spec() -> bool {
        true
    }

    open spec fn from_spec(value: StyledString<String>) -> Span {
        Span { content: value.content, style: value.style }
    }
}

/// Values whose text can become an unstyled [`Span`].
pub trait ToSpan {
    /// The value's text as an unstyled span.
    fn to_span(&self) -> Span;
}

impl<T: std::fmt::Display> ToSpan for T {
    fn to_span(&self) -> Span {
        Span { content: self.to_string(), style: Style::new() }
    }
}

impl Clone for Span {
    fn clone(&self) -> (r: Self)
        ensures
            r@ == self@,
    {
        Span { content: self.content.clone(), style: self.style }
    }
}

impl PartialEq for Span {
    fn eq(&self, other: &Span) -> (r: bool) {
        self.content.eq(&other.content) && self.style == other.style
    }
}

impl vstd::std_specs::cmp::PartialEqSpecImpl for Span {
    open spec fn obeys_eq_spec() -> bool {
        true
    }

    open spec fn eq_spec(&self, other: &Span) -> bool {
        self@ == other@
    }
}

impl Eq for Span {

}

impl Default for Span {
    fn default() -> (r: Self)
        ensures
            r@ == (SpanView { content: Seq::empty(), style: Style::empty_spec() }),
    {
        Span { content: String::new(), style: Style::new() }
    }
}

} // verus!
