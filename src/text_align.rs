//! Alignment of text objects.
use vstd::prelude::*;

verus! {

/// Horizontal alignment of a text object.
#[derive(Debug, Clone, Copy, PartialEq, Eq, Structural)]
pub enum HorizontalAlign {
    AlignLeft,
    AlignHCenter,
    AlignRight,
}

/// Vertical alignment of a text object.
#[derive(Debug, Clone, Copy, PartialEq, Eq, Structural)]
pub enum VerticalAlign {
    AlignBaseline,
    AlignTop,
    AlignVCenter,
    AlignBottom,
}

impl HorizontalAlign {
    /// The alignment's value in the `h_align` attribute.
    pub open spec fn spec_value(self) -> u8 {
        match self {
            HorizontalAlign::AlignLeft => 0,
            HorizontalAlign::AlignHCenter => 1,
            HorizontalAlign::AlignRight => 2,
        }
    }

    /// The alignment's value in the `h_align` attribute.
    pub fn value(&self) -> (r: u8)
        ensures
            r == self.spec_value(),
    {
        match self {
            HorizontalAlign::AlignLeft => 0,
            HorizontalAlign::AlignHCenter => 1,
            HorizontalAlign::AlignRight => 2,
        }
    }

    /// Reads an `h_align` attribute value: one ASCII digit from 0 to 2.
    pub fn from_bytes(bytes: &[u8]) -> (r: Option<HorizontalAlign>)
        ensures
            r is Some <==> bytes@.len() == 1 && 48 <= bytes@[0] <= 50,
            r matches Some(a) ==> a.spec_value() + 48 == bytes@[0],
    {
        if bytes.len() != 1 {
            return None;
        }
        match bytes[0] {
            48u8 => Some(HorizontalAlign::AlignLeft),
            49u8 => Some(HorizontalAlign::AlignHCenter),
            50u8 => Some(HorizontalAlign::AlignRight),
            _ => None,
        }
    }
}

impl VerticalAlign {
    /// The alignment's value in the `v_align` attribute.
    pub open spec fn spec_value(self) -> u8 {
        match self {
            VerticalAlign::AlignBaseline => 0,
            VerticalAlign::AlignTop => 1,
            VerticalAlign::AlignVCenter => 2,
            VerticalAlign::AlignBottom => 3,
        }
    }

    /// The alignment's value in the `v_align` attribute.
    pub fn value(&self) -> (r: u8)
        ensures
            r == self.spec_value(),
    {
        match self {
            VerticalAlign::AlignBaseline => 0,
            VerticalAlign::AlignTop => 1,
            VerticalAlign::AlignVCenter => 2,
            VerticalAlign::AlignBottom => 3,
        }
    }

    /// Reads a `v_align` attribute value: one ASCII digit from 0 to 3.
    pub fn from_bytes(bytes: &[u8]) -> (r: Option<VerticalAlign>)
        ensures
            r is Some <==> bytes@.len() == 1 && 48 <= bytes@[0] <= 51,
            r matches Some(a) ==> a.spec_value() + 48 == bytes@[0],
    {
        if bytes.len() != 1 {
            return None;
        }
        match bytes[0] {
            48u8 => Some(VerticalAlign::AlignBaseline),
            49u8 => Some(VerticalAlign::AlignTop),
            50u8 => Some(VerticalAlign::AlignVCenter),
            51u8 => Some(VerticalAlign::AlignBottom),
            _ => None,
        }
    }
}

} // verus!
