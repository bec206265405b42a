//! The keycap grid: the keys of the on-screen keyboard, the bytes that name
//! them and where each one sits.

use vstd::prelude::*;

verus! {

/// Number of rows of the keycap grid.
pub const GRID_ROWS: i8 = 4;

/// Number of columns of the keycap grid.
pub const GRID_COLUMNS: i8 = 10;

/// A key of the on-screen keyboard, or one of the tokens that travel with the
/// keys on the wire.
#[derive(Clone, Copy, Debug, PartialEq, Eq, Structural)]
pub enum VirtualKeyaboardMatrixItem {
    N1,
    N2,
    N3,
    N4,
    N5,
    N6,
    N7,
    N8,
    N9,
    N0,
    Q,
    W,
    E,
    R,
    T,
    Y,
    U,
    I,
    O,
    P,
    A,
    S,
    D,
    F,
    G,
    H,
    J,
    K,
    L,
    Trash,
    Z,
    X,
    C,
    V,
    Space,
    B,
    N,
    M,
    Dash,
    Backspace,
    EOL,
    Quit,
}

/// The keys that a run of bytes names, in order. Bytes that name no key are
/// left out.
pub open spec fn decode_keys(bytes: Seq<u8>) -> Seq<VirtualKeyaboardMatrixItem>
    decreases bytes.len(),
{
    if bytes.len() == 0 {
        Seq::empty()
    } else {
        let rest = decode_keys(bytes.drop_first());
        match VirtualKeyaboardMatrixItem::spec_byte_to_matrix(bytes[0]) {
            Some(key) => seq![key] + rest,
            None => rest,
        }
    }
}

/// Decoding bytes one after the other is decoding them as a whole.
pub proof fn lemma_decode_keys_concat(a: Seq<u8>, b: Seq<u8>)
    ensures
        decode_keys(a + b) == decode_keys(a) + decode_keys(b),
    decreases a.len(),
{
    if a.len() == 0 {
        assert(a + b == b);
    } else {
        assert((a + b).drop_first() == a.drop_first() + b);
        lemma_decode_keys_concat(a.drop_first(), b);
    }
}

/// Walks a byte buffer and hands out the keys that its bytes name.
pub struct VirtualKeyaboardMatrixBufferIterator<'a> {
    index: usize,
    buf: &'a [u8],
}

impl<'a> VirtualKeyaboardMatrixBufferIterator<'a> {
    #[verifier::type_invariant]
    spec fn in_bounds(self) -> bool {
        self.index <= self.buf@.len()
    }

    /// The keys that are still to come.
    pub closed spec fn remaining(self) -> Seq<VirtualKeyaboardMatrixItem> {
        decode_keys(self.buf@.skip(self.index as int))
    }

    /// Hands out the next key and moves past it, skipping bytes that name no
    /// key. `None` once the buffer holds no further key.
    pub fn next(&mut self) -> (r: Option<VirtualKeyaboardMatrixItem>)
        ensures
            old(self).remaining().len() == 0 ==> r is None && final(self).remaining().len() == 0,
            old(self).remaining().len() > 0 ==> r == Some(old(self).remaining()[0])
                && final(self).remaining() == old(self).remaining().drop_first(),
    {
        proof {
            use_type_invariant(&*self);
        }
        while self.index < self.buf.len()
            invariant
                self.index <= self.buf@.len(),
                self.buf == old(self).buf,
                self.remaining() == old(self).remaining(),
            decreases self.buf@.len() - self.index,
        {
            let byte = self.buf[self.index];
            proof {
                let here = self.buf@.skip(self.index as int);
                assert(here.drop_first() == self.buf@.skip(self.index + 1));
                assert(here[0] == byte);
            }
            self.index = self.index + 1;
            match VirtualKeyaboardMatrixItem::byte_to_matrix(byte) {
                Some(key) => {
                    proof {
                        let rest = self.remaining();
                        assert((seq![key] + rest)[0] == key);
                        assert((seq![key] + rest).drop_first() == rest);
                    }
                    return Some(key);
                },
                None => {},
            }
        }
        None
    }
}

impl VirtualKeyaboardMatrixItem {
    /// The key that a byte names, if any: digits, letters in either case,
    /// space, dash, line feed, and the three control codes.
    pub open spec fn spec_byte_to_matrix(i: u8) -> Option<Self> {
        match i {
            0x31 => Some(Self::N1),  // `1`
            0x32 => Some(Self::N2),  // `2`
            0x33 => Some(Self::N3),  // `3`
            0x34 => Some(Self::N4),  // `4`
            0x35 => Some(Self::N5),  // `5`
            0x36 => Some(Self::N6),  // `6`
            0x37 => Some(Self::N7),  // `7`
            0x38 => Some(Self::N8),  // `8`
            0x39 => Some(Self::N9),  // `9`
            0x30 => Some(Self::N0),  // `0`
            0x71 | 0x51 => Some(Self::Q),  // `q`, `Q`
            0x77 | 0x57 => Some(Self::W),  // `w`, `W`
            0x65 | 0x45 => Some(Self::E),  // `e`, `E`
            0x72 | 0x52 => Some(Self::R),  // `r`, `R`
            0x74 | 0x54 => Some(Self::T),  // `t`, `T`
            0x79 | 0x59 => Some(Self::Y),  // `y`, `Y`
            0x75 | 0x55 => Some(Self::U),  // `u`, `U`
            0x69 | 0x49 => Some(Self::I),  // `i`, `I`
            0x6f | 0x4f => Some(Self::O),  // `o`, `O`
            0x70 | 0x50 => Some(Self::P),  // `p`, `P`
            0x61 | 0x41 => Some(Self::A),  // `a`, `A`
            0x73 | 0x53 => Some(Self::S),  // `s`, `S`
            0x64 | 0x44 => Some(Self::D),  // `d`, `D`
            0x66 | 0x46 => Some(Self::F),  // `f`, `F`
            0x67 | 0x47 => Some(Self::G),  // `g`, `G`
            0x68 | 0x48 => Some(Self::H),  // `h`, `H`
            0x6a | 0x4a => Some(Self::J),  // `j`, `J`
            0x6b | 0x4b => Some(Self::K),  // `k`, `K`
            0x6c | 0x4c => Some(Self::L),  // `l`, `L`
            0x7a | 0x5a => Some(Self::Z),  // `z`, `Z`
            0x78 | 0x58 => Some(Self::X),  // `x`, `X`
            0x63 | 0x43 => Some(Self::C),  // `c`, `C`
            0x76 | 0x56 => Some(Self::V),  // `v`, `V`
            0x20 => Some(Self::Space),  // space
            0x62 | 0x42 => Some(Self::B),  // `b`, `B`
            0x6e | 0x4e => Some(Self::N),  // `n`, `N`
            0x6d | 0x4d => Some(Self::M),  // `m`, `M`
            0x2d => Some(Self::Dash),  // `-`
            0x0a => Some(Self::EOL),  // line feed
            0x01 => Some(Self::Trash),  // control code
            0x02 => Some(Self::Backspace),  // control code
            0x03 => Some(Self::Quit),  // control code
            _ => None,
        }
    }

    /// Where a key sits in the grid, as `(row, column)`. The control tokens
    /// and the end of line sit nowhere.
    pub open spec fn spec_location(&self) -> Option<(i8, i8)> {
        match self {
            Self::N1 => Some((0, 0)),
            Self::N2 => Some((0, 1)),
            Self::N3 => Some((0, 2)),
            Self::N4 => Some((0, 3)),
            Self::N5 => Some((0, 4)),
            Self::N6 => Some((0, 5)),
            Self::N7 => Some((0, 6)),
            Self::N8 => Some((0, 7)),
            Self::N9 => Some((0, 8)),
            Self::N0 => Some((0, 9)),
            Self::Q => Some((1, 0)),
            Self::W => Some((1, 1)),
            Self::E => Some((1, 2)),
            Self::R => Some((1, 3)),
            Self::T => Some((1, 4)),
            Self::Y => Some((1, 5)),
            Self::U => Some((1, 6)),
            Self::I => Some((1, 7)),
            Self::O => Some((1, 8)),
            Self::P => Some((1, 9)),
            Self::A => Some((2, 0)),
            Self::S => Some((2, 1)),
            Self::D => Some((2, 2)),
            Self::F => Some((2, 3)),
            Self::G => Some((2, 4)),
            Self::H => Some((2, 5)),
            Self::J => Some((2, 6)),
            Self::K => Some((2, 7)),
            Self::L => Some((2, 8)),
            Self::Z => Some((3, 0)),
            Self::X => Some((3, 1)),
            Self::C => Some((3, 2)),
            Self::V => Some((3, 3)),
            Self::Space => Some((3, 4)),
            Self::B => Some((3, 5)),
            Self::N => Some((3, 6)),
            Self::M => Some((3, 7)),
            Self::Dash => Some((3, 8)),
            _ => None,
        }
    }

    /// The step from one key to another, as the difference of their places,
    /// target minus origin. There is none unless both keys sit in the grid.
    pub open spec fn spec_move_delta(self, to: Self) -> Option<(int, int)> {
        match (self.spec_location(), to.spec_location()) {
            (Some(from), Some(target)) => Some((target.0 - from.0, target.1 - from.1)),
            _ => None,
        }
    }

    /// Starts a walk over the keys that the bytes of `i` name.
    pub fn convert_bytes(i: &[u8]) -> (r: VirtualKeyaboardMatrixBufferIterator<'_>)
        ensures
            r.remaining() == decode_keys(i@),
    {
        assert(i@.skip(0) == i@);
        VirtualKeyaboardMatrixBufferIterator { index: 0, buf: i }
    }

    /// Looks a byte up in the key table. Bytes outside the table name no key.
    #[verifier::when_used_as_spec(spec_byte_to_matrix)]
    pub fn byte_to_matrix(i: u8) -> (r: Option<Self>)
        ensures
            r == Self::spec_byte_to_matrix(i),
    {
        match i {
            0x31 => Some(Self::N1),  // `1`
            0x32 => Some(Self::N2),  // `2`
            0x33 => Some(Self::N3),  // `3`
            0x34 => Some(Self::N4),  // `4`
            0x35 => Some(Self::N5),  // `5`
            0x36 => Some(Self::N6),  // `6`
            0x37 => Some(Self::N7),  // `7`
            0x38 => Some(Self::N8),  // `8`
            0x39 => Some(Self::N9),  // `9`
            0x30 => Some(Self::N0),  // `0`
            0x71 | 0x51 => Some(Self::Q),  // `q`, `Q`
            0x77 | 0x57 => Some(Self::W),  // `w`, `W`
            0x65 | 0x45 => Some(Self::E),  // `e`, `E`
            0x72 | 0x52 => Some(Self::R),  // `r`, `R`
            0x74 | 0x54 => Some(Self::T),  // `t`, `T`
            0x79 | 0x59 => Some(Self::Y),  // `y`, `Y`
            0x75 | 0x55 => Some(Self::U),  // `u`, `U`
            0x69 | 0x49 => Some(Self::I),  // `i`, `I`
            0x6f | 0x4f => Some(Self::O),  // `o`, `O`
            0x70 | 0x50 => Some(Self::P),  // `p`, `P`
            0x61 | 0x41 => Some(Self::A),  // `a`, `A`
            0x73 | 0x53 => Some(Self::S),  // `s`, `S`
            0x64 | 0x44 => Some(Self::D),  // `d`, `D`
            0x66 | 0x46 => Some(Self::F),  // `f`, `F`
            0x67 | 0x47 => Some(Self::G),  // `g`, `G`
            0x68 | 0x48 => Some(Self::H),  // `h`, `H`
            0x6a | 0x4a => Some(Self::J),  // `j`, `J`
            0x6b | 0x4b => Some(Self::K),  // `k`, `K`
            0x6c | 0x4c => Some(Self::L),  // `l`, `L`
            0x7a | 0x5a => Some(Self::Z),  // `z`, `Z`
            0x78 | 0x58 => Some(Self::X),  // `x`, `X`
            0x63 | 0x43 => Some(Self::C),  // `c`, `C`
            0x76 | 0x56 => Some(Self::V),  // `v`, `V`
            0x20 => Some(Self::Space),  // space
            0x62 | 0x42 => Some(Self::B),  // `b`, `B`
            0x6e | 0x4e => Some(Self::N),  // `n`, `N`
            0x6d | 0x4d => Some(Self::M),  // `m`, `M`
            0x2d => Some(Self::Dash),  // `-`
            0x0a => Some(Self::EOL),  // line feed
            0x01 => Some(Self::Trash),  // control code
            0x02 => Some(Self::Backspace),  // control code
            0x03 => Some(Self::Quit),  // control code
            _ => None,
        }
    }

    /// The place of the key in the grid, as `(row, column)`.
    #[verifier::when_used_as_spec(spec_location)]
    pub fn location(&self) -> (r: Option<(i8, i8)>)
        ensures
            r == self.spec_location(),
            r matches Some(place) ==> 0 <= place.0 < GRID_ROWS && 0 <= place.1 < GRID_COLUMNS,
    {
        match self {
            Self::N1 => Some((0, 0)),
            Self::N2 => Some((0, 1)),
            Self::N3 => Some((0, 2)),
            Self::N4 => Some((0, 3)),
            Self::N5 => Some((0, 4)),
            Self::N6 => Some((0, 5)),
            Self::N7 => Some((0, 6)),
            Self::N8 => Some((0, 7)),
            Self::N9 => Some((0, 8)),
            Self::N0 => Some((0, 9)),
            Self::Q => Some((1, 0)),
            Self::W => Some((1, 1)),
            Self::E => Some((1, 2)),
            Self::R => Some((1, 3)),
            Self::T => Some((1, 4)),
            Self::Y => Some((1, 5)),
            Self::U => Some((1, 6)),
            Self::I => Some((1, 7)),
            Self::O => Some((1, 8)),
            Self::P => Some((1, 9)),
            Self::A => Some((2, 0)),
            Self::S => Some((2, 1)),
            Self::D => Some((2, 2)),
            Self::F => Some((2, 3)),
            Self::G => Some((2, 4)),
            Self::H => Some((2, 5)),
            Self::J => Some((2, 6)),
            Self::K => Some((2, 7)),
            Self::L => Some((2, 8)),
            Self::Z => Some((3, 0)),
            Self::X => Some((3, 1)),
            Self::C => Some((3, 2)),
            Self::V => Some((3, 3)),
            Self::Space => Some((3, 4)),
            Self::B => Some((3, 5)),
            Self::N => Some((3, 6)),
            Self::M => Some((3, 7)),
            Self::Dash => Some((3, 8)),
            _ => None,
        }
    }

    /// The step that takes the cursor from this key to `to`: the difference
    /// of the two places, component by component. `None` when either key has
    /// no place.
    pub fn compute_move_delta(&self, to: &Self) -> (r: Option<(i8, i8)>)
        ensures
            self.spec_location() is None || to.spec_location() is None ==> r is None,
            self.spec_location() is Some && to.spec_location() is Some ==> r is Some
                && r.unwrap().0 == to.spec_location().unwrap().0 - self.spec_location().unwrap().0
                && r.unwrap().1 == to.spec_location().unwrap().1 - self.spec_location().unwrap().1,
            match self.spec_move_delta(*to) {
                Some((dx, dy)) => r matches Some(d) && d.0 == dx && d.1 == dy,
                None => r is None,
            },
    {
        let Some((self_x, self_y)) = self.location() else {
            return None;
        };
        let Some((to_x, to_y)) = to.location() else {
            return None;
        };
        Some((to_x - self_x, to_y - self_y))
    }

    /// A key without a place takes part in no step, whichever side it is on.
    pub proof fn lemma_no_place_no_step(self, other: Self)
        requires
            self.spec_location() is None,
        ensures
            self.spec_move_delta(other) is None,
            other.spec_move_delta(self) is None,
    {
    }

    /// A step between two placed keys stays within the grid's span.
    pub proof fn lemma_step_is_bounded(self, to: Self)
        requires
            self.spec_move_delta(to) is Some,
        ensures
            -GRID_ROWS < self.spec_move_delta(to).unwrap().0 < GRID_ROWS,
            -GRID_COLUMNS < self.spec_move_delta(to).unwrap().1 < GRID_COLUMNS,
    {
    }
}

} // verus!
