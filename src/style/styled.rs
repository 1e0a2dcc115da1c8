use vstd::prelude::*;

use crate::style::{AsStyle, AsStyleMut, Style};

verus! {

/// A value together with the [`Style`] it is to be printed in.
#[derive(Debug, Clone, Copy, PartialEq, Eq, Hash)]
pub struct StyledString<D> {
    pub style: Style,
    pub content: D,
}

impl<D> StyledString<D> {
    /// Pairs `content` with `style`.
    pub fn new(style: Style, content: D) -> (r: Self)
        ensures
            r.style == style,
            r.content == content,
    {
        StyledString { style, content }
    }

    /// The content.
    pub fn content(&self) -> (r: &D)
        ensures
            *r == self.content,
    {
        &self.content
    }

    /// The style.
    pub fn style(&self) -> (r: &Style)
        ensures
            *r == self.style,
    {
        &self.style
    }

    /// The style, for modification.
    pub fn style_mut(&mut self) -> &mut Style {
        &mut self.style
    }
}

impl<D: std::fmt::Display> StyledString<D> {
    /// The number of bytes in the text of the content.
    pub fn len(&self) -> (r: usize)
        ensures
            exists|t: String|
                #[trigger] vstd::string::to_string_from_display_ensures::<D>(&self.content, t) && r
                    == vstd::utf8::encode_utf8(t@).len() as usize,
    {
        let text = self.content.to_string();
        let s = text.as_str();
        let n = s.len();
        assert(s@ == text@);
        assert(n == vstd::utf8::encode_utf8(text@).len() as usize);
        assert(vstd::string::to_string_from_display_ensures::<D>(&self.content, text));
        n
    }
}

impl<D> AsStyle for StyledString<D> {
    fn as_style(&self) -> &Style {
        &self.style
    }
}

impl<D> AsStyleMut for StyledString<D> {
    fn as_style_mut(&mut self) -> &mut Style {
        &mut self.style
    }
}

} // verus!
