//! Glyphs and colours of the character console.

use vstd::prelude::*;

verus! {

/// A colour with a red, a green and a blue channel.
#[derive(Copy, Clone, Debug, Default, PartialEq, Eq, Structural)]
pub struct Color {
    pub r: u8,
    pub g: u8,
    pub b: u8,
}

/// The sum of two channels, held at 255.
pub open spec fn channel_sum(a: u8, b: u8) -> u8 {
    if a + b > 255 {
        255u8
    } else {
        (a + b) as u8
    }
}

/// The difference of two channels, held at 0.
pub open spec fn channel_difference(a: u8, b: u8) -> u8 {
    if a < b {
        0u8
    } else {
        (a - b) as u8
    }
}

impl Color {
    pub fn new(r: u8, g: u8, b: u8) -> (c: Self)
        ensures
            c == (Color { r, g, b }),
    {
        Self { r, g, b }
    }

    pub open spec fn spec_plus(self, other: Self) -> Self {
        Color {
            r: channel_sum(self.r, other.r),
            g: channel_sum(self.g, other.g),
            b: channel_sum(self.b, other.b),
        }
    }

    pub open spec fn spec_minus(self, other: Self) -> Self {
        Color {
            r: channel_difference(self.r, other.r),
            g: channel_difference(self.g, other.g),
            b: channel_difference(self.b, other.b),
        }
    }

    /// Adds channel by channel; a channel stops at 255.
    pub fn plus(self, other: Self) -> (c: Self)
        ensures
            c == self.spec_plus(other),
    {
        Self {
            r: self.r.saturating_add(other.r),
            g: self.g.saturating_add(other.g),
            b: self.b.saturating_add(other.b),
        }
    }

    /// Subtracts channel by channel; a channel stops at 0.
    pub fn minus(self, other: Self) -> (c: Self)
        ensures
            c == self.spec_minus(other),
    {
        Self {
            r: self.r.saturating_sub(other.r),
            g: self.g.saturating_sub(other.g),
            b: self.b.saturating_sub(other.b),
        }
    }
}

/// Black.
pub fn black() -> (c: Color)
    ensures
        c == (Color { r: 0, g: 0, b: 0 }),
{
    Color { r: 0, g: 0, b: 0 }
}

/// Where a text stands relative to the cell it is printed at.
#[derive(Copy, Clone, Debug, PartialEq, Eq, Structural)]
pub enum TextAlignment {
    Left,
    Right,
    Center,
}

/// White.
pub fn white() -> (c: Color)
    ensures
        c == (Color { r: 255, g: 255, b: 255 }),
{
    Color { r: 255, g: 255, b: 255 }
}

/// Dark grey.
pub fn dark_grey() -> (c: Color)
    ensures
        c == (Color { r: 95, g: 95, b: 95 }),
{
    Color { r: 95, g: 95, b: 95 }
}

/// `String::push`: the character is appended at the end.
pub assume_specification[ String::push ](s: &mut String, c: char)
    ensures
        final(s)@ == old(s)@.push(c),
;

/// The glyphs of the console's code page that have a name.
#[derive(Debug, Copy, Clone, PartialEq, Eq, Structural)]
pub enum Chars {
    HLine,
    VLine,
    Ne,
    Nw,
    Se,
    Sw,
    TeeW,
    TeeE,
    TeeN,
    TeeS,
    Cross,
    DHLine,
    DVLine,
    DNE,
    DNW,
    DSE,
    DSW,
    DTeeW,
    DTeeE,
    DTeeN,
    DTeeS,
    DCross,
    Block1,
    Block2,
    Block3,
    ArrowN,
    ArrowS,
    ArrowE,
    ArrowW,
    Arrow2N,
    Arrow2S,
    Arrow2E,
    Arrow2W,
    DArrowH,
    DArrowV,
    CheckboxUnset,
    CheckboxSet,
    RadioUnset,
    RadioSet,
    SubpNW,
    SubpNE,
    SubpN,
    SubpSE,
    SubpDiag,
    SubpE,
    SubpSW,
    Smilie,
    SmilieInv,
    Heart,
    Diamond,
    Club,
    Spade,
    Bullet,
    BulletInv,
    Male,
    Female,
    Note,
    NoteDouble,
    Light,
    ExclamDouble,
    Pilcrow,
    Section,
    Pound,
    Multiplication,
    Function,
    Reserved,
    Half,
    OneQuarter,
    Copyright,
    Cent,
    Yen,
    Currency,
    ThreeQuarters,
    Division,
    Grade,
    Umlaut,
    Pow1,
    Pow3,
    Pow2,
    BulletSquare,
}

impl Chars {
    /// The place of the glyph in the code page.
    pub open spec fn spec_code(self) -> u8 {
        match self {
            Chars::HLine => 196u8,
            Chars::VLine => 179u8,
            Chars::Ne => 191u8,
            Chars::Nw => 218u8,
            Chars::Se => 217u8,
            Chars::Sw => 192u8,
            Chars::TeeW => 180u8,
            Chars::TeeE => 195u8,
            Chars::TeeN => 193u8,
            Chars::TeeS => 194u8,
            Chars::Cross => 197u8,
            Chars::DHLine => 205u8,
            Chars::DVLine => 186u8,
            Chars::DNE => 187u8,
            Chars::DNW => 201u8,
            Chars::DSE => 188u8,
            Chars::DSW => 200u8,
            Chars::DTeeW => 185u8,
            Chars::DTeeE => 204u8,
            Chars::DTeeN => 202u8,
            Chars::DTeeS => 203u8,
            Chars::DCross => 206u8,
            Chars::Block1 => 176u8,
            Chars::Block2 => 177u8,
            Chars::Block3 => 178u8,
            Chars::ArrowN => 24u8,
            Chars::ArrowS => 25u8,
            Chars::ArrowE => 26u8,
            Chars::ArrowW => 27u8,
            Chars::Arrow2N => 30u8,
            Chars::Arrow2S => 31u8,
            Chars::Arrow2E => 16u8,
            Chars::Arrow2W => 17u8,
            Chars::DArrowH => 29u8,
            Chars::DArrowV => 18u8,
            Chars::CheckboxUnset => 224u8,
            Chars::CheckboxSet => 225u8,
            Chars::RadioUnset => 9u8,
            Chars::RadioSet => 10u8,
            Chars::SubpNW => 226u8,
            Chars::SubpNE => 227u8,
            Chars::SubpN => 228u8,
            Chars::SubpSE => 229u8,
            Chars::SubpDiag => 230u8,
            Chars::SubpE => 231u8,
            Chars::SubpSW => 232u8,
            Chars::Smilie => 1u8,
            Chars::SmilieInv => 2u8,
            Chars::Heart => 3u8,
            Chars::Diamond => 4u8,
            Chars::Club => 5u8,
            Chars::Spade => 6u8,
            Chars::Bullet => 7u8,
            Chars::BulletInv => 8u8,
            Chars::Male => 11u8,
            Chars::Female => 12u8,
            Chars::Note => 13u8,
            Chars::NoteDouble => 14u8,
            Chars::Light => 15u8,
            Chars::ExclamDouble => 19u8,
            Chars::Pilcrow => 20u8,
            Chars::Section => 21u8,
            Chars::Pound => 156u8,
            Chars::Multiplication => 158u8,
            Chars::Function => 159u8,
            Chars::Reserved => 169u8,
            Chars::Half => 171u8,
            Chars::OneQuarter => 172u8,
            Chars::Copyright => 184u8,
            Chars::Cent => 189u8,
            Chars::Yen => 190u8,
            Chars::Currency => 207u8,
            Chars::ThreeQuarters => 243u8,
            Chars::Division => 246u8,
            Chars::Grade => 248u8,
            Chars::Umlaut => 249u8,
            Chars::Pow1 => 251u8,
            Chars::Pow3 => 252u8,
            Chars::Pow2 => 253u8,
            Chars::BulletSquare => 254u8,
        }
    }

    /// The place of the glyph in the code page.
    pub fn code(self) -> (r: u8)
        ensures
            r == self.spec_code(),
    {
        match self {
            Chars::HLine => 196u8,
            Chars::VLine => 179u8,
            Chars::Ne => 191u8,
            Chars::Nw => 218u8,
            Chars::Se => 217u8,
            Chars::Sw => 192u8,
            Chars::TeeW => 180u8,
            Chars::TeeE => 195u8,
            Chars::TeeN => 193u8,
            Chars::TeeS => 194u8,
            Chars::Cross => 197u8,
            Chars::DHLine => 205u8,
            Chars::DVLine => 186u8,
            Chars::DNE => 187u8,
            Chars::DNW => 201u8,
            Chars::DSE => 188u8,
            Chars::DSW => 200u8,
            Chars::DTeeW => 185u8,
            Chars::DTeeE => 204u8,
            Chars::DTeeN => 202u8,
            Chars::DTeeS => 203u8,
            Chars::DCross => 206u8,
            Chars::Block1 => 176u8,
            Chars::Block2 => 177u8,
            Chars::Block3 => 178u8,
            Chars::ArrowN => 24u8,
            Chars::ArrowS => 25u8,
            Chars::ArrowE => 26u8,
            Chars::ArrowW => 27u8,
            Chars::Arrow2N => 30u8,
            Chars::Arrow2S => 31u8,
            Chars::Arrow2E => 16u8,
            Chars::Arrow2W => 17u8,
            Chars::DArrowH => 29u8,
            Chars::DArrowV => 18u8,
            Chars::CheckboxUnset => 224u8,
            Chars::CheckboxSet => 225u8,
            Chars::RadioUnset => 9u8,
            Chars::RadioSet => 10u8,
            Chars::SubpNW => 226u8,
            Chars::SubpNE => 227u8,
            Chars::SubpN => 228u8,
            Chars::SubpSE => 229u8,
            Chars::SubpDiag => 230u8,
            Chars::SubpE => 231u8,
            Chars::SubpSW => 232u8,
            Chars::Smilie => 1u8,
            Chars::SmilieInv => 2u8,
            Chars::Heart => 3u8,
            Chars::Diamond => 4u8,
            Chars::Club => 5u8,
            Chars::Spade => 6u8,
            Chars::Bullet => 7u8,
            Chars::BulletInv => 8u8,
            Chars::Male => 11u8,
            Chars::Female => 12u8,
            Chars::Note => 13u8,
            Chars::NoteDouble => 14u8,
            Chars::Light => 15u8,
            Chars::ExclamDouble => 19u8,
            Chars::Pilcrow => 20u8,
            Chars::Section => 21u8,
            Chars::Pound => 156u8,
            Chars::Multiplication => 158u8,
            Chars::Function => 159u8,
            Chars::Reserved => 169u8,
            Chars::Half => 171u8,
            Chars::OneQuarter => 172u8,
            Chars::Copyright => 184u8,
            Chars::Cent => 189u8,
            Chars::Yen => 190u8,
            Chars::Currency => 207u8,
            Chars::ThreeQuarters => 243u8,
            Chars::Division => 246u8,
            Chars::Grade => 248u8,
            Chars::Umlaut => 249u8,
            Chars::Pow1 => 251u8,
            Chars::Pow3 => 252u8,
            Chars::Pow2 => 253u8,
            Chars::BulletSquare => 254u8,
        }
    }

    /// The character with the glyph's place as its code point.
    pub fn into_char(self) -> (r: char)
        ensures
            r as u32 == self.spec_code(),
    {
        self.code() as char
    }

    /// A string of that one character.
    pub fn into_string(self) -> (r: String)
        ensures
            r@ == seq![(self.spec_code() as char)],
    {
        let mut r = String::new();
        r.push(self.into_char());
        assert(r@ =~= seq![(self.spec_code() as char)]);
        r
    }
}

} // verus!
