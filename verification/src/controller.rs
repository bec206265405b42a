//! The button catalog: the logical output lines and the bytes that name them.

use vstd::prelude::*;

verus! {

/// Number of output lines in the catalog.
pub const LINE_COUNT: u8 = 11;

/// One logical press-and-release of an output line: six general buttons,
/// four directions and start.
#[derive(Clone, Copy, Debug, PartialEq, Eq, Structural)]
pub enum ControlMessages {
    A,
    B,
    C,
    D,
    E,
    F,
    Up,
    Down,
    Left,
    Right,
    Start,
}

impl ControlMessages {
    /// The button that a command byte names, if any.
    pub open spec fn spec_from_byte(i: u8) -> Option<Self> {
        match i {
            0x79 => Some(Self::A),  // `y`
            0x75 => Some(Self::B),  // `u`
            0x69 => Some(Self::C),  // `i`
            0x68 => Some(Self::D),  // `h`
            0x6a => Some(Self::E),  // `j`
            0x6b => Some(Self::F),  // `k`
            0x77 => Some(Self::Up),  // `w`
            0x73 => Some(Self::Down),  // `s`
            0x61 => Some(Self::Left),  // `a`
            0x64 => Some(Self::Right),  // `d`
            0x0a => Some(Self::Start),  // line feed
            _ => None,
        }
    }

    /// Position of the button's output line in the catalog.
    pub open spec fn spec_line(self) -> u8 {
        match self {
            Self::A => 0,
            Self::B => 1,
            Self::C => 2,
            Self::D => 3,
            Self::E => 4,
            Self::F => 5,
            Self::Up => 6,
            Self::Down => 7,
            Self::Left => 8,
            Self::Right => 9,
            Self::Start => 10,
        }
    }

    /// Looks a command byte up in the button table. Bytes outside the table
    /// name no button.
    #[verifier::when_used_as_spec(spec_from_byte)]
    pub fn from_byte(i: u8) -> (r: Option<Self>)
        ensures
            r == Self::spec_from_byte(i),
    {
        match i {
            0x79 => Some(Self::A),  // `y`
            0x75 => Some(Self::B),  // `u`
            0x69 => Some(Self::C),  // `i`
            0x68 => Some(Self::D),  // `h`
            0x6a => Some(Self::E),  // `j`
            0x6b => Some(Self::F),  // `k`
            0x77 => Some(Self::Up),  // `w`
            0x73 => Some(Self::Down),  // `s`
            0x61 => Some(Self::Left),  // `a`
            0x64 => Some(Self::Right),  // `d`
            0x0a => Some(Self::Start),  // line feed
            _ => None,
        }
    }

    /// The output line that this button drives, as an index below
    /// [`LINE_COUNT`].
    #[verifier::when_used_as_spec(spec_line)]
    pub fn line(self) -> (r: u8)
        ensures
            r == self.spec_line(),
            r < LINE_COUNT,
    {
        match self {
            Self::A => 0,
            Self::B => 1,
            Self::C => 2,
            Self::D => 3,
            Self::E => 4,
            Self::F => 5,
            Self::Up => 6,
            Self::Down => 7,
            Self::Left => 8,
            Self::Right => 9,
            Self::Start => 10,
        }
    }

    /// Every button has a line of its own: two buttons that drive the same
    /// line are the same button.
    pub proof fn lemma_line_is_injective(a: Self, b: Self)
        requires
            a.spec_line() == b.spec_line(),
        ensures
            a == b,
    {
    }

    /// The table names each button exactly once: distinct bytes that both
    /// name a button name different buttons.
    pub proof fn lemma_from_byte_is_injective(x: u8, y: u8)
        requires
            Self::spec_from_byte(x) is Some,
            Self::spec_from_byte(x) == Self::spec_from_byte(y),
        ensures
            x == y,
    {
    }
}

} // verus!
