//! The session decoder: what one read from the socket means, given where the
//! cursor of the on-screen keyboard stands.

use vstd::prelude::*;
use vstd::slice::slice_subrange;

use crate::config::Config;
use crate::config::Mode;
use crate::controller::ControlMessages;
use crate::virtual_keyboard_matrix::decode_keys;
use crate::virtual_keyboard_matrix::VirtualKeyaboardMatrixItem;

verus! {

/// What a read amounts to: the button events that it stands for, in order,
/// whether it is acknowledged, whether the connection ends with it, and where
/// the cursor stands afterwards.
pub struct Decoded {
    pub events: Seq<ControlMessages>,
    pub acknowledge: bool,
    pub close: bool,
    pub cursor: VirtualKeyaboardMatrixItem,
}

/// `count` times the same event; nothing for a count of zero or less.
pub open spec fn repeated(event: ControlMessages, count: int) -> Seq<ControlMessages> {
    if count <= 0 {
        Seq::empty()
    } else {
        Seq::new(count as nat, |i: int| event)
    }
}

/// The presses that carry the cursor over a step of `(dx, dy)` and select the
/// key it arrives at.
///
/// The first component is walked with `Right` when positive and `Left` when
/// negative. The second is walked with `Down`, and only when negative: a
/// positive second component moves nothing. The select press `A` closes
/// every step.
pub open spec fn move_events(dx: int, dy: int) -> Seq<ControlMessages> {
    let first = if dx > 0 {
        repeated(ControlMessages::Right, dx)
    } else {
        repeated(ControlMessages::Left, -dx)
    };
    let second = if dy < 0 {
        repeated(ControlMessages::Down, -dy)
    } else {
        Seq::empty()
    };
    first + second + seq![ControlMessages::A]
}

/// The presses for one key, with the cursor at `cursor`. A key that takes
/// part in no step gives none.
pub open spec fn key_events(
    cursor: VirtualKeyaboardMatrixItem,
    key: VirtualKeyaboardMatrixItem,
) -> Seq<ControlMessages> {
    match cursor.spec_move_delta(key) {
        Some((dx, dy)) => move_events(dx, dy),
        None => Seq::empty(),
    }
}

/// Where the cursor stands after one key: on the key if there was a step to
/// it, else where it stood.
pub open spec fn cursor_after(
    cursor: VirtualKeyaboardMatrixItem,
    key: VirtualKeyaboardMatrixItem,
) -> VirtualKeyaboardMatrixItem {
    if cursor.spec_move_delta(key) is Some {
        key
    } else {
        cursor
    }
}

/// A run of keys in Matrix Mode, from the cursor at `cursor`.
///
/// Each key other than the end of line gives its presses and moves the
/// cursor. An end of line asks for the acknowledgment; where the
/// acknowledgment closes the connection, the keys behind it are not looked
/// at.
pub open spec fn matrix_run(
    close_after_ack: bool,
    cursor: VirtualKeyaboardMatrixItem,
    keys: Seq<VirtualKeyaboardMatrixItem>,
) -> Decoded
    decreases keys.len(),
{
    if keys.len() == 0 {
        Decoded { events: Seq::empty(), acknowledge: false, close: false, cursor }
    } else if keys[0] == VirtualKeyaboardMatrixItem::EOL {
        if close_after_ack {
            Decoded { events: Seq::empty(), acknowledge: true, close: true, cursor }
        } else {
            let rest = matrix_run(close_after_ack, cursor, keys.drop_first());
            Decoded { acknowledge: true, ..rest }
        }
    } else {
        let rest = matrix_run(close_after_ack, cursor_after(cursor, keys[0]), keys.drop_first());
        Decoded { events: key_events(cursor, keys[0]) + rest.events, ..rest }
    }
}

/// The buttons that a run of bytes names in Direct Mode, in order. Bytes that
/// name no button are left out.
pub open spec fn direct_events(bytes: Seq<u8>) -> Seq<ControlMessages>
    decreases bytes.len(),
{
    if bytes.len() == 0 {
        Seq::empty()
    } else {
        let rest = direct_events(bytes.drop_first());
        match ControlMessages::spec_from_byte(bytes[0]) {
            Some(event) => seq![event] + rest,
            None => rest,
        }
    }
}

/// What a read of `bytes` amounts to, with the cursor at `cursor`.
///
/// The first byte selects the mode and the bytes behind it are the payload.
/// An empty read, or one whose first byte selects no mode, amounts to
/// nothing.
pub open spec fn decode_read(
    config: Config,
    cursor: VirtualKeyaboardMatrixItem,
    bytes: Seq<u8>,
) -> Decoded {
    if bytes.len() == 0 {
        Decoded { events: Seq::empty(), acknowledge: false, close: false, cursor }
    } else {
        match config.spec_mode_for(bytes[0]) {
            Some(Mode::Matrix) => matrix_run(
                config.close_after_ack,
                cursor,
                decode_keys(bytes.drop_first()),
            ),
            Some(Mode::Direct) => Decoded {
                events: direct_events(bytes.drop_first()),
                acknowledge: true,
                close: config.close_after_ack,
                cursor,
            },
            None => Decoded { events: Seq::empty(), acknowledge: false, close: false, cursor },
        }
    }
}

/// The bytes of the acknowledgment: `OK` and a line feed.
pub open spec fn spec_acknowledgment() -> Seq<u8> {
    seq![0x4f, 0x4b, 0x0a]
}

/// The acknowledgment that is written back to the client.
pub fn acknowledgment() -> (bytes: [u8; 3])
    ensures
        bytes@ == spec_acknowledgment(),
{
    let bytes: [u8; 3] = [0x4f, 0x4b, 0x0a];
    assert(bytes@ =~= spec_acknowledgment());
    bytes
}

/// What the caller has to do after a read.
#[derive(Debug, PartialEq, Eq)]
pub struct ReadOutcome {
    /// The button events to queue, in order.
    pub events: Vec<ControlMessages>,
    /// Whether the acknowledgment is written once the events are queued.
    pub acknowledge: bool,
    /// Whether the connection is closed after that.
    pub close: bool,
}

impl ReadOutcome {
    /// The outcome of a read that amounts to nothing.
    pub fn idle() -> (outcome: Self)
        ensures
            outcome.events@ == Seq::<ControlMessages>::empty(),
            !outcome.acknowledge,
            !outcome.close,
    {
        ReadOutcome { events: Vec::new(), acknowledge: false, close: false }
    }

    /// Whether the outcome is what `decoded` says of events, acknowledgment
    /// and closing.
    pub open spec fn matches_decoded(&self, decoded: Decoded) -> bool {
        &&& self.events@ == decoded.events
        &&& self.acknowledge == decoded.acknowledge
        &&& self.close == decoded.close
    }
}

/// Appends `count` times `event` to `events`; nothing for a count of zero or
/// less.
pub fn push_repeated(events: &mut Vec<ControlMessages>, event: ControlMessages, count: i16)
    ensures
        final(events)@ == old(events)@ + repeated(event, count as int),
{
    let mut done: i16 = 0;
    while done < count
        invariant
            0 <= done,
            done <= count || done == 0,
            events@ == old(events)@ + repeated(event, done as int),
        decreases count - done,
    {
        events.push(event);
        done = done + 1;
    }
}

/// Appends the presses of a step of `(dx, dy)` to `events`.
pub fn push_move(events: &mut Vec<ControlMessages>, dx: i8, dy: i8)
    ensures
        final(events)@ == old(events)@ + move_events(dx as int, dy as int),
{
    let across: i16 = dx as i16;
    let along: i16 = dy as i16;
    if across > 0 {
        push_repeated(events, ControlMessages::Right, across);
    } else {
        push_repeated(events, ControlMessages::Left, -across);
    }
    if along < 0 {
        push_repeated(events, ControlMessages::Down, -along);
    }
    events.push(ControlMessages::A);
}

/// Appends to `events` the buttons that the bytes of `payload` name.
pub fn push_direct(events: &mut Vec<ControlMessages>, payload: &[u8])
    ensures
        final(events)@ == old(events)@ + direct_events(payload@),
{
    let mut index: usize = 0;
    assert(payload@.skip(0) == payload@);
    while index < payload.len()
        invariant
            index <= payload@.len(),
            old(events)@ + direct_events(payload@) == events@ + direct_events(
                payload@.skip(index as int),
            ),
        decreases payload@.len() - index,
    {
        let byte = payload[index];
        proof {
            let here = payload@.skip(index as int);
            assert(here[0] == byte);
            assert(here.drop_first() == payload@.skip(index + 1));
        }
        match ControlMessages::from_byte(byte) {
            Some(event) => {
                events.push(event);
            },
            None => {},
        }
        index = index + 1;
    }
}

/// The state of one connection: the cursor of the on-screen keyboard.
#[derive(Clone, Copy, Debug, PartialEq, Eq)]
pub struct Session {
    cursor: VirtualKeyaboardMatrixItem,
}

impl Session {
    #[verifier::type_invariant]
    spec fn cursor_has_place(self) -> bool {
        self.cursor.spec_location() is Some
    }

    /// The key that the cursor stands on.
    pub closed spec fn view(&self) -> VirtualKeyaboardMatrixItem {
        self.cursor
    }

    /// A session at its start: the cursor stands on the first key of the
    /// grid.
    pub fn new() -> (session: Self)
        ensures
            session@ == VirtualKeyaboardMatrixItem::N1,
    {
        Session { cursor: VirtualKeyaboardMatrixItem::N1 }
    }

    /// The key that the cursor stands on.
    pub fn cursor(&self) -> (key: VirtualKeyaboardMatrixItem)
        ensures
            key == self@,
            key.spec_location() is Some,
    {
        proof {
            use_type_invariant(self);
        }
        self.cursor
    }

    /// Takes one key: appends its presses to `events` and moves the cursor.
    pub fn press_key(&mut self, key: VirtualKeyaboardMatrixItem, events: &mut Vec<ControlMessages>)
        ensures
            final(events)@ == old(events)@ + key_events(old(self)@, key),
            final(self)@ == cursor_after(old(self)@, key),
    {
        match self.cursor.compute_move_delta(&key) {
            Some((dx, dy)) => {
                push_move(events, dx, dy);
                self.cursor = key;
            },
            None => {},
        }
    }

    /// Decodes a payload in Matrix Mode.
    pub fn decode_matrix(&mut self, close_after_ack: bool, payload: &[u8]) -> (outcome: ReadOutcome)
        ensures
            outcome.matches_decoded(matrix_run(close_after_ack, old(self)@, decode_keys(payload@))),
            final(self)@ == matrix_run(close_after_ack, old(self)@, decode_keys(payload@)).cursor,
    {
        let ghost whole = matrix_run(close_after_ack, self@, decode_keys(payload@));
        let mut keys = VirtualKeyaboardMatrixItem::convert_bytes(payload);
        let mut events: Vec<ControlMessages> = Vec::new();
        let mut acknowledge = false;
        loop
            invariant_except_break
                whole.events == events@ + matrix_run(
                    close_after_ack,
                    self@,
                    keys.remaining(),
                ).events,
                whole.cursor == matrix_run(close_after_ack, self@, keys.remaining()).cursor,
                whole.acknowledge == (acknowledge || matrix_run(
                    close_after_ack,
                    self@,
                    keys.remaining(),
                ).acknowledge),
                whole.close == ((acknowledge && close_after_ack) || matrix_run(
                    close_after_ack,
                    self@,
                    keys.remaining(),
                ).close),
                acknowledge ==> !close_after_ack,
            ensures
                whole.events == events@,
                whole.cursor == self@,
                whole.acknowledge == acknowledge,
                whole.close == (acknowledge && close_after_ack),
            decreases keys.remaining().len(),
        {
            let ghost before = keys.remaining();
            match keys.next() {
                None => {
                    break ;
                },
                Some(key) => {
                    assert(before.len() > 0 && before[0] == key);
                    match key {
                        VirtualKeyaboardMatrixItem::EOL => {
                            acknowledge = true;
                            if close_after_ack {
                                break ;
                            }
                        },
                        _ => {
                            self.press_key(key, &mut events);
                        },
                    }
                },
            }
        }
        ReadOutcome { events, acknowledge, close: acknowledge && close_after_ack }
    }

    /// Decodes a payload in Direct Mode. The cursor plays no part in it.
    pub fn decode_direct(close_after_ack: bool, payload: &[u8]) -> (outcome: ReadOutcome)
        ensures
            outcome.events@ == direct_events(payload@),
            outcome.acknowledge,
            outcome.close == close_after_ack,
    {
        let mut events: Vec<ControlMessages> = Vec::new();
        push_direct(&mut events, payload);
        ReadOutcome { events, acknowledge: true, close: close_after_ack }
    }

    /// Decodes one read from the socket: selects the mode by the first byte
    /// and decodes the bytes behind it.
    pub fn decode(&mut self, config: &Config, buf: &[u8]) -> (outcome: ReadOutcome)
        ensures
            outcome.matches_decoded(decode_read(*config, old(self)@, buf@)),
            final(self)@ == decode_read(*config, old(self)@, buf@).cursor,
    {
        if buf.len() == 0 {
            return ReadOutcome::idle();
        }
        let payload = slice_subrange(buf, 1, buf.len());
        assert(payload@ == buf@.drop_first());
        match config.mode_for(buf[0]) {
            Some(Mode::Matrix) => self.decode_matrix(config.close_after_ack, payload),
            Some(Mode::Direct) => Session::decode_direct(config.close_after_ack, payload),
            None => ReadOutcome::idle(),
        }
    }
}

/// In Direct Mode every byte is looked up by itself: decoding bytes one run
/// after the other is decoding them as a whole.
pub proof fn lemma_direct_events_concat(a: Seq<u8>, b: Seq<u8>)
    ensures
        direct_events(a + b) == direct_events(a) + direct_events(b),
    decreases a.len(),
{
    if a.len() == 0 {
        assert(a + b == b);
    } else {
        assert((a + b).drop_first() == a.drop_first() + b);
        lemma_direct_events_concat(a.drop_first(), b);
    }
}

/// In Direct Mode a byte of the button table gives exactly its button, and
/// any other byte gives nothing.
pub proof fn lemma_direct_single_byte(byte: u8)
    ensures
        ControlMessages::spec_from_byte(byte) matches Some(event) ==> direct_events(seq![byte])
            == seq![event],
        ControlMessages::spec_from_byte(byte) is None ==> direct_events(seq![byte])
            == Seq::<ControlMessages>::empty(),
{
    let one = seq![byte];
    assert(one.len() == 1 && one[0] == byte);
    assert(one.drop_first() =~= Seq::<u8>::empty());
    reveal_with_fuel(direct_events, 2);
    assert(direct_events(one.drop_first()) =~= Seq::<ControlMessages>::empty());
    match ControlMessages::spec_from_byte(byte) {
        Some(event) => {
            assert(direct_events(one) =~= seq![event]);
        },
        None => {},
    }
}

/// The presses of a step: as many sideways presses as the first component is
/// long, `Right` or `Left` by its sign; then, for a negative second
/// component only, as many `Down` presses as it is long; then the select
/// press.
pub proof fn lemma_move_events_shape(dx: int, dy: int)
    ensures
        ({
            let across = if dx > 0 {
                dx
            } else {
                -dx
            };
            let along = if dy < 0 {
                -dy
            } else {
                0
            };
            let presses = move_events(dx, dy);
            &&& presses.len() == across + along + 1
            &&& forall|i: int|
                0 <= i < across ==> #[trigger] presses[i] == if dx > 0 {
                    ControlMessages::Right
                } else {
                    ControlMessages::Left
                }
            &&& forall|i: int| across <= i < across + along ==> #[trigger] presses[i] == ControlMessages::Down
            &&& presses[across + along] == ControlMessages::A
        }),
{
}

/// A key without a place, or a cursor without one, gives no press at all and
/// leaves the cursor where it stood.
pub proof fn lemma_unplaced_key_is_inert(
    cursor: VirtualKeyaboardMatrixItem,
    key: VirtualKeyaboardMatrixItem,
)
    requires
        cursor.spec_location() is None || key.spec_location() is None,
    ensures
        key_events(cursor, key) == Seq::<ControlMessages>::empty(),
        cursor_after(cursor, key) == cursor,
{
}

/// A key with a place, taken with the cursor on a key with a place, gives
/// the presses of the step between the two places, and the cursor ends on
/// the key.
pub proof fn lemma_placed_key_moves_cursor(
    cursor: VirtualKeyaboardMatrixItem,
    key: VirtualKeyaboardMatrixItem,
)
    requires
        cursor.spec_location() is Some,
        key.spec_location() is Some,
    ensures
        key_events(cursor, key) == move_events(
            key.spec_location().unwrap().0 - cursor.spec_location().unwrap().0,
            key.spec_location().unwrap().1 - cursor.spec_location().unwrap().1,
        ),
        cursor_after(cursor, key) == key,
{
}

/// The cursor never leaves the grid: a run that starts on a key with a place
/// ends on one.
pub proof fn lemma_run_keeps_cursor_placed(
    close_after_ack: bool,
    cursor: VirtualKeyaboardMatrixItem,
    keys: Seq<VirtualKeyaboardMatrixItem>,
)
    requires
        cursor.spec_location() is Some,
    ensures
        matrix_run(close_after_ack, cursor, keys).cursor.spec_location() is Some,
    decreases keys.len(),
{
    if keys.len() > 0 {
        if keys[0] == VirtualKeyaboardMatrixItem::EOL {
            lemma_run_keeps_cursor_placed(close_after_ack, cursor, keys.drop_first());
        } else {
            lemma_run_keeps_cursor_placed(
                close_after_ack,
                cursor_after(cursor, keys[0]),
                keys.drop_first(),
            );
        }
    }
}

/// A run closes the connection exactly when it is acknowledged and the
/// acknowledgment closes.
pub proof fn lemma_run_closes_on_ack(
    close_after_ack: bool,
    cursor: VirtualKeyaboardMatrixItem,
    keys: Seq<VirtualKeyaboardMatrixItem>,
)
    ensures
        matrix_run(close_after_ack, cursor, keys).close == (close_after_ack && matrix_run(
            close_after_ack,
            cursor,
            keys,
        ).acknowledge),
        matrix_run(close_after_ack, cursor, keys).acknowledge == keys.contains(
            VirtualKeyaboardMatrixItem::EOL,
        ),
    decreases keys.len(),
{
    if keys.len() > 0 {
        let rest = keys.drop_first();
        if keys[0] == VirtualKeyaboardMatrixItem::EOL {
            lemma_run_closes_on_ack(close_after_ack, cursor, rest);
        } else {
            lemma_run_closes_on_ack(close_after_ack, cursor_after(cursor, keys[0]), rest);
            if keys.contains(VirtualKeyaboardMatrixItem::EOL) {
                let at = choose|i: int|
                    0 <= i < keys.len() && keys[i] == VirtualKeyaboardMatrixItem::EOL;
                assert(rest[at - 1] == VirtualKeyaboardMatrixItem::EOL);
            }
            if rest.contains(VirtualKeyaboardMatrixItem::EOL) {
                let at = choose|i: int|
                    0 <= i < rest.len() && rest[i] == VirtualKeyaboardMatrixItem::EOL;
                assert(keys[at + 1] == VirtualKeyaboardMatrixItem::EOL);
            }
        }
    }
}

/// Keys are taken strictly one after the other: a run over two stretches of
/// keys is the run over the first, followed by the run over the second from
/// where the first left the cursor. This holds unless the first stretch ends
/// the read, which it does when it is acknowledged and the acknowledgment
/// closes.
pub proof fn lemma_matrix_run_concat(
    close_after_ack: bool,
    cursor: VirtualKeyaboardMatrixItem,
    first: Seq<VirtualKeyaboardMatrixItem>,
    second: Seq<VirtualKeyaboardMatrixItem>,
)
    requires
        !matrix_run(close_after_ack, cursor, first).close,
    ensures
        ({
            let head = matrix_run(close_after_ack, cursor, first);
            let tail = matrix_run(close_after_ack, head.cursor, second);
            let whole = matrix_run(close_after_ack, cursor, first + second);
            &&& whole.events == head.events + tail.events
            &&& whole.cursor == tail.cursor
            &&& whole.acknowledge == (head.acknowledge || tail.acknowledge)
            &&& whole.close == tail.close
        }),
    decreases first.len(),
{
    if first.len() == 0 {
        assert(first + second == second);
    } else {
        assert((first + second).drop_first() == first.drop_first() + second);
        assert((first + second)[0] == first[0]);
        if first[0] == VirtualKeyaboardMatrixItem::EOL {
            lemma_matrix_run_concat(close_after_ack, cursor, first.drop_first(), second);
        } else {
            lemma_matrix_run_concat(
                close_after_ack,
                cursor_after(cursor, first[0]),
                first.drop_first(),
                second,
            );
        }
    }
}

} // verus!
