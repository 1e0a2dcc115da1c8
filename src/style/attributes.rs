//! Terminal attributes such as bold or italic, and sets of them.

use vstd::prelude::*;

verus! {

/// A single terminal attribute (a Select Graphic Rendition parameter).
#[derive(Debug, Clone, Copy, PartialEq, Eq, Structural, Hash)]
pub enum Attribute {
    /// Resets all attributes
    Reset,
    /// Increases text intensity
    Bold,
    /// Decreases text intensity
    Dim,
    /// Emphasizes the text
    Italic,
    /// Underlines the text
    Underlined,
    /// Makes the text blink slowly
    SlowBlink,
    /// Makes the text blink rapidly
    RapidBlink,
    /// Swaps foreground and background
    Reverse,
    /// Hides the text
    Hidden,
    /// Crosses out the text
    Strikethrough,
    /// Turns off `Bold` (prefer `NormalIntensity`)
    NoBold,
    /// Returns to normal intensity (turns off `Bold` and `Dim`)
    NormalIntensity,
    /// Turns off `Italic`
    NoItalic,
    /// Turns off `Underlined`
    NoUnderline,
    /// Turns off both blink attributes
    NoBlink,
    /// Turns off `Reverse`
    NoReverse,
    /// Turns off `Hidden`
    NoHidden,
    /// Turns off `Strikethrough`
    NoStrikethrough,
}

/// Every attribute, in the order of their codes.
pub open spec fn all_attributes() -> Seq<Attribute> {
    seq![
        Attribute::Reset,
        Attribute::Bold,
        Attribute::Dim,
        Attribute::Italic,
        Attribute::Underlined,
        Attribute::SlowBlink,
        Attribute::RapidBlink,
        Attribute::Reverse,
        Attribute::Hidden,
        Attribute::Strikethrough,
        Attribute::NoBold,
        Attribute::NormalIntensity,
        Attribute::NoItalic,
        Attribute::NoUnderline,
        Attribute::NoBlink,
        Attribute::NoReverse,
        Attribute::NoHidden,
        Attribute::NoStrikethrough,
    ]
}

/// A set bit `k + 1` is found in `a | b` exactly when it is found in `a` or in `b`.
pub proof fn lemma_or_bit(a: u32, b: u32, k: u32)
    requires
        k < 31,
    ensures
        ((a | b) & (1u32 << (k + 1) as u32) != 0) == ((a & (1u32 << (k + 1) as u32) != 0) || (b & (
        1u32 << (k + 1) as u32) != 0)),
{
    assert(((a | b) & (1u32 << (k + 1) as u32) != 0) == ((a & (1u32 << (k + 1) as u32) != 0) || (b
        & (1u32 << (k + 1) as u32) != 0))) by (bit_vector)
        requires
            k < 31,
    ;
}

/// Bit `k + 1` of `a & !b` is set exactly when it is set in `a` and not in `b`.
pub proof fn lemma_minus_bit(a: u32, b: u32, k: u32)
    requires
        k < 31,
    ensures
        ((a & !(a & b)) & (1u32 << (k + 1) as u32) != 0) == ((a & (1u32 << (k + 1) as u32) != 0)
            && (b & (1u32 << (k + 1) as u32) == 0)),
{
    assert(((a & !(a & b)) & (1u32 << (k + 1) as u32) != 0) == ((a & (1u32 << (k + 1) as u32) != 0)
        && (b & (1u32 << (k + 1) as u32) == 0))) by (bit_vector)
        requires
            k < 31,
    ;
}

impl Attribute {
    /// The attribute's SGR parameter.
    pub open spec fn code_spec(self) -> u32 {
        match self {
            Attribute::Reset => 0,
            Attribute::Bold => 1,
            Attribute::Dim => 2,
            Attribute::Italic => 3,
            Attribute::Underlined => 4,
            Attribute::SlowBlink => 5,
            Attribute::RapidBlink => 6,
            Attribute::Reverse => 7,
            Attribute::Hidden => 8,
            Attribute::Strikethrough => 9,
            Attribute::NoBold => 21,
            Attribute::NormalIntensity => 22,
            Attribute::NoItalic => 23,
            Attribute::NoUnderline => 24,
            Attribute::NoBlink => 25,
            Attribute::NoReverse => 27,
            Attribute::NoHidden => 28,
            Attribute::NoStrikethrough => 29,
        }
    }

    /// The attribute's bit in an [`Attributes`] set.
    pub open spec fn bit(self) -> u32 {
        1u32 << (self.code_spec() + 1) as u32
    }

    /// The attribute's SGR parameter.
    pub fn sgr_code(self) -> (r: u32)
        ensures
            r == self.code_spec(),
    {
        match self {
            Attribute::Reset => 0,
            Attribute::Bold => 1,
            Attribute::Dim => 2,
            Attribute::Italic => 3,
            Attribute::Underlined => 4,
            Attribute::SlowBlink => 5,
            Attribute::RapidBlink => 6,
            Attribute::Reverse => 7,
            Attribute::Hidden => 8,
            Attribute::Strikethrough => 9,
            Attribute::NoBold => 21,
            Attribute::NormalIntensity => 22,
            Attribute::NoItalic => 23,
            Attribute::NoUnderline => 24,
            Attribute::NoBlink => 25,
            Attribute::NoReverse => 27,
            Attribute::NoHidden => 28,
            Attribute::NoStrikethrough => 29,
        }
    }

    /// The attribute's bit in an [`Attributes`] set.
    pub fn bytes(self) -> (r: u32)
        ensures
            r == self.bit(),
    {
        let c = self.sgr_code();
        1u32 << (c + 1)
    }

    /// All the attributes, in the order of their codes.
    pub fn iterator() -> (r: Vec<Attribute>)
        ensures
            r@ == all_attributes(),
    {
        let r = vec![
            Attribute::Reset,
            Attribute::Bold,
            Attribute::Dim,
            Attribute::Italic,
            Attribute::Underlined,
            Attribute::SlowBlink,
            Attribute::RapidBlink,
            Attribute::Reverse,
            Attribute::Hidden,
            Attribute::Strikethrough,
            Attribute::NoBold,
            Attribute::NormalIntensity,
            Attribute::NoItalic,
            Attribute::NoUnderline,
            Attribute::NoBlink,
            Attribute::NoReverse,
            Attribute::NoHidden,
            Attribute::NoStrikethrough,
        ];
        assert(r@ == all_attributes());
        r
    }
}

/// A set of attributes, one bit per attribute.
#[derive(Debug, Clone, Copy, PartialEq, Eq, Structural, Hash)]
pub struct Attributes(pub u32);

impl Attributes {
    /// Whether the set holds `a`.
    pub open spec fn has_spec(self, a: Attribute) -> bool {
        self.0 & a.bit() != 0
    }

    /// The empty set.
    pub fn none() -> (r: Self)
        ensures
            r.0 == 0,
    {
        Attributes(0)
    }

    /// The set with `attribute` added.
    pub fn with(self, attribute: Attribute) -> (r: Self)
        ensures
            r.0 == self.0 | attribute.bit(),
    {
        Attributes(self.0 | attribute.bytes())
    }

    /// The set with `attribute` removed.
    pub fn without(self, attribute: Attribute) -> (r: Self)
        ensures
            r.0 == self.0 & !attribute.bit(),
    {
        Attributes(self.0 & !attribute.bytes())
    }

    /// Adds an attribute.
    pub fn set(&mut self, attribute: Attribute)
        ensures
            final(self).0 == old(self).0 | attribute.bit(),
    {
        self.0 = self.0 | attribute.bytes();
    }

    /// Removes an attribute.
    pub fn unset(&mut self, attribute: Attribute)
        ensures
            final(self).0 == old(self).0 & !attribute.bit(),
    {
        self.0 = self.0 & !attribute.bytes();
    }

    /// Adds the attribute if absent, removes it if present.
    pub fn toggle(&mut self, attribute: Attribute)
        ensures
            final(self).0 == old(self).0 ^ attribute.bit(),
    {
        self.0 = self.0 ^ attribute.bytes();
    }

    /// Whether the set holds `attribute`.
    pub fn has(&self, attribute: Attribute) -> (r: bool)
        ensures
            r == self.has_spec(attribute),
    {
        self.0 & attribute.bytes() != 0
    }

    /// Adds every attribute of `attributes`.
    pub fn extend(&mut self, attributes: Attributes)
        ensures
            final(self).0 == old(self).0 | attributes.0,
    {
        self.0 = self.0 | attributes.0;
    }

    /// Whether the set holds no attribute.
    pub fn is_empty(self) -> (r: bool)
        ensures
            r == (self.0 == 0),
    {
        self.0 == 0
    }

    /// The attributes held by both sets.
    pub fn intersection(self, other: Self) -> (r: Self)
        ensures
            r.0 == self.0 & other.0,
    {
        Attributes(self.0 & other.0)
    }

    /// The attributes of `self` that `other` does not hold.
    pub fn difference(self, other: Self) -> (r: Self)
        ensures
            r.0 == self.0 & !(self.0 & other.0),
    {
        let both = self.intersection(other);
        Attributes(self.0 & !both.0)
    }

    /// This set extended with `other`; nothing is removed.
    pub fn patch(self, other: Attributes) -> (r: Self)
        ensures
            r.0 == self.0 | other.0,
    {
        let mut attributes = self;
        attributes.extend(other);
        attributes
    }

    /// The raw bits of the set.
    pub fn bits(self) -> (r: u32)
        ensures
            r == self.0,
    {
        self.0
    }
}

impl Default for Attributes {
    fn default() -> (r: Self)
        ensures
            r.0 == 0,
    {
        Attributes(0)
    }
}

impl From<u32> for Attributes {
    fn from(value: u32) -> (r: Self) {
        Attributes(value)
    }
}

impl vstd::std_specs::convert::FromSpecImpl<u32> for Attributes {
    open spec fn obeys_from_spec() -> bool {
        true
    }

    open spec fn from_spec(v: u32) -> Attributes {
        Attributes(v)
    }
}

impl From<Attributes> for u32 {
    fn from(value: Attributes) -> (r: u32) {
        value.0
    }
}

impl vstd::std_specs::convert::FromSpecImpl<Attributes> for u32 {
    open spec fn obeys_from_spec() -> bool {
        true
    }

    open spec fn from_spec(v: Attributes) -> u32 {
        v.0
    }
}

impl From<Attribute> for Attributes {
    fn from(attribute: Attribute) -> (r: Self) {
        Attributes(attribute.bytes())
    }
}

impl vstd::std_specs::convert::FromSpecImpl<Attribute> for Attributes {
    open spec fn obeys_from_spec() -> bool {
        true
    }

    open spec fn from_spec(a: Attribute) -> Attributes {
        Attributes(a.bit())
    }
}

impl std::ops::Sub for Attributes {
    type Output = Attributes;

    fn sub(self, rhs: Self) -> (r: Attributes)
        ensures
            r.0 == self.0 & !(self.0 & rhs.0),
    {
        self.difference(rhs)
    }
}

impl vstd::std_specs::ops::SubSpecImpl for Attributes {
    open spec fn obeys_sub_spec() -> bool {
        true
    }

    open spec fn sub_req(self, rhs: Attributes) -> bool {
        true
    }

    open spec fn sub_spec(self, rhs: Attributes) -> Attributes {
        Attributes(self.0 & !(self.0 & rhs.0))
    }
}

} // verus!
