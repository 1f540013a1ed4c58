//! Per-key colours and the ninety-key frame that effects produce.

use vstd::prelude::*;

verus! {

/// Number of key positions of a frame.
pub const KEY_COUNT: usize = 90;

/// Number of key positions in one row of the keyboard matrix.
pub const KEYS_PER_ROW: usize = 15;

/// One key's colour. Each channel covers the whole colour range `0..=255`.
#[derive(Clone, Copy, Debug, PartialEq, Eq, Structural)]
pub struct KeyColour {
    pub red: u8,
    pub green: u8,
    pub blue: u8,
}

/// One full-keyboard frame: a colour for each of the ninety key positions.
/// The index of a key is its fixed position in the hardware matrix.
#[derive(Clone, Copy, Debug, PartialEq, Eq)]
pub struct KeyboardData {
    pub keys: [KeyColour; 90],
}

impl View for KeyboardData {
    type V = Seq<KeyColour>;

    open spec fn view(&self) -> Seq<KeyColour> {
        self.keys@
    }
}

/// The frame that shows `colour` at every key.
pub open spec fn uniform_frame(colour: KeyColour) -> Seq<KeyColour> {
    Seq::new(KEY_COUNT as nat, |k: int| colour)
}

/// The frame whose keys show `colours`, which holds one colour per key.
pub open spec fn frame_of(colours: Seq<KeyColour>) -> KeyboardData
    recommends
        colours.len() == KEY_COUNT,
{
    choose|k: KeyboardData| k@ == colours
}

/// A frame is what its colours say: two frames with the same colours are one.
pub proof fn lemma_frame_of_view(k: KeyboardData)
    ensures
        frame_of(k@) == k,
{
    let other = frame_of(k@);
    assert(other@ == k@);
    assert(other.keys =~= k.keys);
}

/// The colour channels of `frame`, key by key: red, green, blue.
pub open spec fn frame_bytes(frame: Seq<KeyColour>) -> Seq<u8> {
    Seq::new(
        3 * frame.len(),
        |i: int|
            if i % 3 == 0 {
                frame[i / 3].red
            } else if i % 3 == 1 {
                frame[i / 3].green
            } else {
                frame[i / 3].blue
            },
    )
}

impl KeyColour {
    pub fn new(red: u8, green: u8, blue: u8) -> (c: KeyColour)
        ensures
            c == (KeyColour { red, green, blue }),
    {
        KeyColour { red, green, blue }
    }

    /// All channels off.
    pub open spec fn black() -> KeyColour {
        KeyColour { red: 0, green: 0, blue: 0 }
    }
}

impl KeyboardData {
    /// A frame with every key off.
    pub fn new() -> (k: KeyboardData)
        ensures
            k@ == uniform_frame(KeyColour::black()),
    {
        let mut k = KeyboardData { keys: [KeyColour { red: 0, green: 0, blue: 0 }; 90] };
        k.set_kbd_colour(0, 0, 0);
        k
    }

    /// Writes one key. A position outside the frame is ignored.
    pub fn set_key_at(&mut self, pos: usize, col: KeyColour)
        ensures
            pos < KEY_COUNT ==> final(self)@ == old(self)@.update(pos as int, col),
            pos >= KEY_COUNT ==> *final(self) == *old(self),
    {
        if pos < KEY_COUNT {
            self.keys[pos] = col;
            assert(self@ =~= old(self)@.update(pos as int, col));
        }
    }

    /// Reads one key. A position outside the frame reads as black.
    pub fn get_key_at(&self, pos: usize) -> (col: KeyColour)
        ensures
            pos < KEY_COUNT ==> col == self@[pos as int],
            pos >= KEY_COUNT ==> col == KeyColour::black(),
    {
        if pos < KEY_COUNT {
            self.keys[pos]
        } else {
            KeyColour { red: 0, green: 0, blue: 0 }
        }
    }

    /// Paints every key in one colour.
    pub fn set_kbd_colour(&mut self, red: u8, green: u8, blue: u8)
        ensures
            final(self)@ == uniform_frame(KeyColour { red, green, blue }),
    {
        let colour = KeyColour { red, green, blue };
        let mut k: usize = 0;
        while k < KEY_COUNT
            invariant
                k <= KEY_COUNT,
                forall|i: int| 0 <= i < k ==> self@[i] == colour,
            decreases KEY_COUNT - k,
        {
            self.set_key_at(k, colour);
            k += 1;
        }
        assert(self@ =~= uniform_frame(colour));
    }

    /// The frame as 270 bytes, three per key.
    pub fn to_bytes(&self) -> (bytes: Vec<u8>)
        ensures
            bytes@ == frame_bytes(self@),
    {
        let mut bytes: Vec<u8> = Vec::new();
        let mut k: usize = 0;
        while k < KEY_COUNT
            invariant
                k <= KEY_COUNT,
                bytes@.len() == 3 * k,
                forall|i: int| 0 <= i < 3 * k ==> bytes@[i] == #[trigger] frame_bytes(self@)[i],
            decreases KEY_COUNT - k,
        {
            let c = self.keys[k];
            bytes.push(c.red);
            bytes.push(c.green);
            bytes.push(c.blue);
            k += 1;
        }
        assert(bytes@ =~= frame_bytes(self@));
        bytes
    }
}

} // verus!
