use vstd::prelude::*;
use vstd::std_specs::bits::axiom_u64_trailing_zeros;
use vstd::std_specs::bits::u64_trailing_zeros;

verus! {

/// How many keys there are. Every key has an index below this number, and
/// every index below it belongs to exactly one key.
pub const NUMBER_OF_KEYS: usize = 64;

/// A physical input symbol: a mouse button or a keyboard key.
#[derive(Clone, Copy, Debug, PartialEq, Eq, Hash, Structural)]
pub enum Key {
    UnknownKey,
    // Mouse buttons
    Lmb,
    Rmb,
    Mmb,
    // Letters
    KeyA,
    KeyB,
    KeyC,
    KeyD,
    KeyE,
    KeyF,
    KeyG,
    KeyH,
    KeyI,
    KeyJ,
    KeyK,
    KeyL,
    KeyM,
    KeyN,
    KeyO,
    KeyP,
    KeyQ,
    KeyR,
    KeyS,
    KeyT,
    KeyU,
    KeyV,
    KeyW,
    KeyX,
    KeyY,
    KeyZ,
    // Digits
    Key0,
    Key1,
    Key2,
    Key3,
    Key4,
    Key5,
    Key6,
    Key7,
    Key8,
    Key9,
    // Editing, modifiers and navigation
    KeyEnter,
    KeyEquals,
    KeyMinus,
    KeyPlus,
    KeyShift,
    KeySpace,
    KeyControl,
    KeyDelete,
    KeyBackspace,
    KeyAlt,
    KeyEscape,
    KeyTab,
    KeyArrowUp,
    KeyArrowDown,
    KeyArrowLeft,
    KeyArrowRight,
    KeyLeftBracket,
    KeyRightBracket,
    KeyLeftCurlyBracket,
    KeyRightCurlyBracket,
    KeyPageUp,
    KeyPageDown,
    KeyComma,
    KeyPeriod,
}

impl Key {
    /// The position of the key in the enumeration, counted from zero.
    pub open spec fn spec_index(self) -> nat {
        match self {
            Key::UnknownKey => 0,
            Key::Lmb => 1,
            Key::Rmb => 2,
            Key::Mmb => 3,
            Key::KeyA => 4,
            Key::KeyB => 5,
            Key::KeyC => 6,
            Key::KeyD => 7,
            Key::KeyE => 8,
            Key::KeyF => 9,
            Key::KeyG => 10,
            Key::KeyH => 11,
            Key::KeyI => 12,
            Key::KeyJ => 13,
            Key::KeyK => 14,
            Key::KeyL => 15,
            Key::KeyM => 16,
            Key::KeyN => 17,
            Key::KeyO => 18,
            Key::KeyP => 19,
            Key::KeyQ => 20,
            Key::KeyR => 21,
            Key::KeyS => 22,
            Key::KeyT => 23,
            Key::KeyU => 24,
            Key::KeyV => 25,
            Key::KeyW => 26,
            Key::KeyX => 27,
            Key::KeyY => 28,
            Key::KeyZ => 29,
            Key::Key0 => 30,
            Key::Key1 => 31,
            Key::Key2 => 32,
            Key::Key3 => 33,
            Key::Key4 => 34,
            Key::Key5 => 35,
            Key::Key6 => 36,
            Key::Key7 => 37,
            Key::Key8 => 38,
            Key::Key9 => 39,
            Key::KeyEnter => 40,
            Key::KeyEquals => 41,
            Key::KeyMinus => 42,
            Key::KeyPlus => 43,
            Key::KeyShift => 44,
            Key::KeySpace => 45,
            Key::KeyControl => 46,
            Key::KeyDelete => 47,
            Key::KeyBackspace => 48,
            Key::KeyAlt => 49,
            Key::KeyEscape => 50,
            Key::KeyTab => 51,
            Key::KeyArrowUp => 52,
            Key::KeyArrowDown => 53,
            Key::KeyArrowLeft => 54,
            Key::KeyArrowRight => 55,
            Key::KeyLeftBracket => 56,
            Key::KeyRightBracket => 57,
            Key::KeyLeftCurlyBracket => 58,
            Key::KeyRightCurlyBracket => 59,
            Key::KeyPageUp => 60,
            Key::KeyPageDown => 61,
            Key::KeyComma => 62,
            Key::KeyPeriod => 63,
        }
    }

    /// The key whose index is `index`; `Key::UnknownKey` at and above
    /// `NUMBER_OF_KEYS`.
    pub open spec fn spec_from_index(index: nat) -> Key {
        if index == 1 {
            Key::Lmb
        }         else if index == 2 {
            Key::Rmb
        }         else if index == 3 {
            Key::Mmb
        }         else if index == 4 {
            Key::KeyA
        }         else if index == 5 {
            Key::KeyB
        }         else if index == 6 {
            Key::KeyC
        }         else if index == 7 {
            Key::KeyD
        }         else if index == 8 {
            Key::KeyE
        }         else if index == 9 {
            Key::KeyF
        }         else if index == 10 {
            Key::KeyG
        }         else if index == 11 {
            Key::KeyH
        }         else if index == 12 {
            Key::KeyI
        }         else if index == 13 {
            Key::KeyJ
        }         else if index == 14 {
            Key::KeyK
        }         else if index == 15 {
            Key::KeyL
        }         else if index == 16 {
            Key::KeyM
        }         else if index == 17 {
            Key::KeyN
        }         else if index == 18 {
            Key::KeyO
        }         else if index == 19 {
            Key::KeyP
        }         else if index == 20 {
            Key::KeyQ
        }         else if index == 21 {
            Key::KeyR
        }         else if index == 22 {
            Key::KeyS
        }         else if index == 23 {
            Key::KeyT
        }         else if index == 24 {
            Key::KeyU
        }         else if index == 25 {
            Key::KeyV
        }         else if index == 26 {
            Key::KeyW
        }         else if index == 27 {
            Key::KeyX
        }         else if index == 28 {
            Key::KeyY
        }         else if index == 29 {
            Key::KeyZ
        }         else if index == 30 {
            Key::Key0
        }         else if index == 31 {
            Key::Key1
        }         else if index == 32 {
            Key::Key2
        }         else if index == 33 {
            Key::Key3
        }         else if index == 34 {
            Key::Key4
        }         else if index == 35 {
            Key::Key5
        }         else if index == 36 {
            Key::Key6
        }         else if index == 37 {
            Key::Key7
        }         else if index == 38 {
            Key::Key8
        }         else if index == 39 {
            Key::Key9
        }         else if index == 40 {
            Key::KeyEnter
        }         else if index == 41 {
            Key::KeyEquals
        }         else if index == 42 {
            Key::KeyMinus
        }         else if index == 43 {
            Key::KeyPlus
        }         else if index == 44 {
            Key::KeyShift
        }         else if index == 45 {
            Key::KeySpace
        }         else if index == 46 {
            Key::KeyControl
        }         else if index == 47 {
            Key::KeyDelete
        }         else if index == 48 {
            Key::KeyBackspace
        }         else if index == 49 {
            Key::KeyAlt
        }         else if index == 50 {
            Key::KeyEscape
        }         else if index == 51 {
            Key::KeyTab
        }         else if index == 52 {
            Key::KeyArrowUp
        }         else if index == 53 {
            Key::KeyArrowDown
        }         else if index == 54 {
            Key::KeyArrowLeft
        }         else if index == 55 {
            Key::KeyArrowRight
        }         else if index == 56 {
            Key::KeyLeftBracket
        }         else if index == 57 {
            Key::KeyRightBracket
        }         else if index == 58 {
            Key::KeyLeftCurlyBracket
        }         else if index == 59 {
            Key::KeyRightCurlyBracket
        }         else if index == 60 {
            Key::KeyPageUp
        }         else if index == 61 {
            Key::KeyPageDown
        }         else if index == 62 {
            Key::KeyComma
        }         else if index == 63 {
            Key::KeyPeriod
        } else {
            Key::UnknownKey
        }
    }

    /// The key's index, for tables that hold one slot per key.
    pub fn index(self) -> (index: usize)
        ensures
            index == self.spec_index(),
            index < NUMBER_OF_KEYS,
    {
        match self {
            Key::UnknownKey => 0,
            Key::Lmb => 1,
            Key::Rmb => 2,
            Key::Mmb => 3,
            Key::KeyA => 4,
            Key::KeyB => 5,
            Key::KeyC => 6,
            Key::KeyD => 7,
            Key::KeyE => 8,
            Key::KeyF => 9,
            Key::KeyG => 10,
            Key::KeyH => 11,
            Key::KeyI => 12,
            Key::KeyJ => 13,
            Key::KeyK => 14,
            Key::KeyL => 15,
            Key::KeyM => 16,
            Key::KeyN => 17,
            Key::KeyO => 18,
            Key::KeyP => 19,
            Key::KeyQ => 20,
            Key::KeyR => 21,
            Key::KeyS => 22,
            Key::KeyT => 23,
            Key::KeyU => 24,
            Key::KeyV => 25,
            Key::KeyW => 26,
            Key::KeyX => 27,
            Key::KeyY => 28,
            Key::KeyZ => 29,
            Key::Key0 => 30,
            Key::Key1 => 31,
            Key::Key2 => 32,
            Key::Key3 => 33,
            Key::Key4 => 34,
            Key::Key5 => 35,
            Key::Key6 => 36,
            Key::Key7 => 37,
            Key::Key8 => 38,
            Key::Key9 => 39,
            Key::KeyEnter => 40,
            Key::KeyEquals => 41,
            Key::KeyMinus => 42,
            Key::KeyPlus => 43,
            Key::KeyShift => 44,
            Key::KeySpace => 45,
            Key::KeyControl => 46,
            Key::KeyDelete => 47,
            Key::KeyBackspace => 48,
            Key::KeyAlt => 49,
            Key::KeyEscape => 50,
            Key::KeyTab => 51,
            Key::KeyArrowUp => 52,
            Key::KeyArrowDown => 53,
            Key::KeyArrowLeft => 54,
            Key::KeyArrowRight => 55,
            Key::KeyLeftBracket => 56,
            Key::KeyRightBracket => 57,
            Key::KeyLeftCurlyBracket => 58,
            Key::KeyRightCurlyBracket => 59,
            Key::KeyPageUp => 60,
            Key::KeyPageDown => 61,
            Key::KeyComma => 62,
            Key::KeyPeriod => 63,
        }
    }

    /// The key that has the given index, if the index is one of a key.
    pub fn from_index(index: usize) -> (key: Option<Key>)
        ensures
            index < NUMBER_OF_KEYS ==> key == Some(Key::spec_from_index(index as nat)),
            index >= NUMBER_OF_KEYS ==> key.is_none(),
            key matches Some(k) ==> k.spec_index() == index,
    {
        match index {
            0 => Some(Key::UnknownKey),
            1 => Some(Key::Lmb),
            2 => Some(Key::Rmb),
            3 => Some(Key::Mmb),
            4 => Some(Key::KeyA),
            5 => Some(Key::KeyB),
            6 => Some(Key::KeyC),
            7 => Some(Key::KeyD),
            8 => Some(Key::KeyE),
            9 => Some(Key::KeyF),
            10 => Some(Key::KeyG),
            11 => Some(Key::KeyH),
            12 => Some(Key::KeyI),
            13 => Some(Key::KeyJ),
            14 => Some(Key::KeyK),
            15 => Some(Key::KeyL),
            16 => Some(Key::KeyM),
            17 => Some(Key::KeyN),
            18 => Some(Key::KeyO),
            19 => Some(Key::KeyP),
            20 => Some(Key::KeyQ),
            21 => Some(Key::KeyR),
            22 => Some(Key::KeyS),
            23 => Some(Key::KeyT),
            24 => Some(Key::KeyU),
            25 => Some(Key::KeyV),
            26 => Some(Key::KeyW),
            27 => Some(Key::KeyX),
            28 => Some(Key::KeyY),
            29 => Some(Key::KeyZ),
            30 => Some(Key::Key0),
            31 => Some(Key::Key1),
            32 => Some(Key::Key2),
            33 => Some(Key::Key3),
            34 => Some(Key::Key4),
            35 => Some(Key::Key5),
            36 => Some(Key::Key6),
            37 => Some(Key::Key7),
            38 => Some(Key::Key8),
            39 => Some(Key::Key9),
            40 => Some(Key::KeyEnter),
            41 => Some(Key::KeyEquals),
            42 => Some(Key::KeyMinus),
            43 => Some(Key::KeyPlus),
            44 => Some(Key::KeyShift),
            45 => Some(Key::KeySpace),
            46 => Some(Key::KeyControl),
            47 => Some(Key::KeyDelete),
            48 => Some(Key::KeyBackspace),
            49 => Some(Key::KeyAlt),
            50 => Some(Key::KeyEscape),
            51 => Some(Key::KeyTab),
            52 => Some(Key::KeyArrowUp),
            53 => Some(Key::KeyArrowDown),
            54 => Some(Key::KeyArrowLeft),
            55 => Some(Key::KeyArrowRight),
            56 => Some(Key::KeyLeftBracket),
            57 => Some(Key::KeyRightBracket),
            58 => Some(Key::KeyLeftCurlyBracket),
            59 => Some(Key::KeyRightCurlyBracket),
            60 => Some(Key::KeyPageUp),
            61 => Some(Key::KeyPageDown),
            62 => Some(Key::KeyComma),
            63 => Some(Key::KeyPeriod),
            _ => None,
        }
    }

    /// The key's name, as shown to the user before any shortening.
    pub open spec fn spec_name(self) -> Seq<char> {
        match self {
            Key::UnknownKey => "UnknownKey"@,
            Key::Lmb => "Lmb"@,
            Key::Rmb => "Rmb"@,
            Key::Mmb => "Mmb"@,
            Key::KeyA => "KeyA"@,
            Key::KeyB => "KeyB"@,
            Key::KeyC => "KeyC"@,
            Key::KeyD => "KeyD"@,
            Key::KeyE => "KeyE"@,
            Key::KeyF => "KeyF"@,
            Key::KeyG => "KeyG"@,
            Key::KeyH => "KeyH"@,
            Key::KeyI => "KeyI"@,
            Key::KeyJ => "KeyJ"@,
            Key::KeyK => "KeyK"@,
            Key::KeyL => "KeyL"@,
            Key::KeyM => "KeyM"@,
            Key::KeyN => "KeyN"@,
            Key::KeyO => "KeyO"@,
            Key::KeyP => "KeyP"@,
            Key::KeyQ => "KeyQ"@,
            Key::KeyR => "KeyR"@,
            Key::KeyS => "KeyS"@,
            Key::KeyT => "KeyT"@,
            Key::KeyU => "KeyU"@,
            Key::KeyV => "KeyV"@,
            Key::KeyW => "KeyW"@,
            Key::KeyX => "KeyX"@,
            Key::KeyY => "KeyY"@,
            Key::KeyZ => "KeyZ"@,
            Key::Key0 => "Key0"@,
            Key::Key1 => "Key1"@,
            Key::Key2 => "Key2"@,
            Key::Key3 => "Key3"@,
            Key::Key4 => "Key4"@,
            Key::Key5 => "Key5"@,
            Key::Key6 => "Key6"@,
            Key::Key7 => "Key7"@,
            Key::Key8 => "Key8"@,
            Key::Key9 => "Key9"@,
            Key::KeyEnter => "KeyEnter"@,
            Key::KeyEquals => "KeyEquals"@,
            Key::KeyMinus => "KeyMinus"@,
            Key::KeyPlus => "KeyPlus"@,
            Key::KeyShift => "KeyShift"@,
            Key::KeySpace => "KeySpace"@,
            Key::KeyControl => "KeyControl"@,
            Key::KeyDelete => "KeyDelete"@,
            Key::KeyBackspace => "KeyBackspace"@,
            Key::KeyAlt => "KeyAlt"@,
            Key::KeyEscape => "KeyEscape"@,
            Key::KeyTab => "KeyTab"@,
            Key::KeyArrowUp => "KeyArrowUp"@,
            Key::KeyArrowDown => "KeyArrowDown"@,
            Key::KeyArrowLeft => "KeyArrowLeft"@,
            Key::KeyArrowRight => "KeyArrowRight"@,
            Key::KeyLeftBracket => "KeyLeftBracket"@,
            Key::KeyRightBracket => "KeyRightBracket"@,
            Key::KeyLeftCurlyBracket => "KeyLeftCurlyBracket"@,
            Key::KeyRightCurlyBracket => "KeyRightCurlyBracket"@,
            Key::KeyPageUp => "KeyPageUp"@,
            Key::KeyPageDown => "KeyPageDown"@,
            Key::KeyComma => "KeyComma"@,
            Key::KeyPeriod => "KeyPeriod"@,
        }
    }

    /// The key's name, as shown to the user before any shortening.
    pub fn name(self) -> (name: &'static str)
        ensures
            name@ == self.spec_name(),
    {
        match self {
            Key::UnknownKey => "UnknownKey",
            Key::Lmb => "Lmb",
            Key::Rmb => "Rmb",
            Key::Mmb => "Mmb",
            Key::KeyA => "KeyA",
            Key::KeyB => "KeyB",
            Key::KeyC => "KeyC",
            Key::KeyD => "KeyD",
            Key::KeyE => "KeyE",
            Key::KeyF => "KeyF",
            Key::KeyG => "KeyG",
            Key::KeyH => "KeyH",
            Key::KeyI => "KeyI",
            Key::KeyJ => "KeyJ",
            Key::KeyK => "KeyK",
            Key::KeyL => "KeyL",
            Key::KeyM => "KeyM",
            Key::KeyN => "KeyN",
            Key::KeyO => "KeyO",
            Key::KeyP => "KeyP",
            Key::KeyQ => "KeyQ",
            Key::KeyR => "KeyR",
            Key::KeyS => "KeyS",
            Key::KeyT => "KeyT",
            Key::KeyU => "KeyU",
            Key::KeyV => "KeyV",
            Key::KeyW => "KeyW",
            Key::KeyX => "KeyX",
            Key::KeyY => "KeyY",
            Key::KeyZ => "KeyZ",
            Key::Key0 => "Key0",
            Key::Key1 => "Key1",
            Key::Key2 => "Key2",
            Key::Key3 => "Key3",
            Key::Key4 => "Key4",
            Key::Key5 => "Key5",
            Key::Key6 => "Key6",
            Key::Key7 => "Key7",
            Key::Key8 => "Key8",
            Key::Key9 => "Key9",
            Key::KeyEnter => "KeyEnter",
            Key::KeyEquals => "KeyEquals",
            Key::KeyMinus => "KeyMinus",
            Key::KeyPlus => "KeyPlus",
            Key::KeyShift => "KeyShift",
            Key::KeySpace => "KeySpace",
            Key::KeyControl => "KeyControl",
            Key::KeyDelete => "KeyDelete",
            Key::KeyBackspace => "KeyBackspace",
            Key::KeyAlt => "KeyAlt",
            Key::KeyEscape => "KeyEscape",
            Key::KeyTab => "KeyTab",
            Key::KeyArrowUp => "KeyArrowUp",
            Key::KeyArrowDown => "KeyArrowDown",
            Key::KeyArrowLeft => "KeyArrowLeft",
            Key::KeyArrowRight => "KeyArrowRight",
            Key::KeyLeftBracket => "KeyLeftBracket",
            Key::KeyRightBracket => "KeyRightBracket",
            Key::KeyLeftCurlyBracket => "KeyLeftCurlyBracket",
            Key::KeyRightCurlyBracket => "KeyRightCurlyBracket",
            Key::KeyPageUp => "KeyPageUp",
            Key::KeyPageDown => "KeyPageDown",
            Key::KeyComma => "KeyComma",
            Key::KeyPeriod => "KeyPeriod",
        }
    }

    /// Indices and keys correspond one to one.
    pub proof fn lemma_index_bijective()
        ensures
            forall|key: Key| #[trigger] key.spec_index() < NUMBER_OF_KEYS,
            forall|key: Key| Key::spec_from_index(#[trigger] key.spec_index()) == key,
            forall|index: nat|
                index < NUMBER_OF_KEYS ==> (#[trigger] Key::spec_from_index(index)).spec_index()
                    == index,
    {
    }
}

/// Whether bit `index` of `bits` is one.
spec fn bit_is_set(bits: u64, index: u64) -> bool {
    (bits >> index) & 1 == 1
}

proof fn lemma_bit_ops(a: u64, b: u64, index: u64)
    by (bit_vector)
    requires
        index < 64,
    ensures
        bit_is_set(a & b, index) == (bit_is_set(a, index) && bit_is_set(b, index)),
        bit_is_set(a ^ b, index) == (bit_is_set(a, index) != bit_is_set(b, index)),
        !bit_is_set(0, index),
{
}

proof fn lemma_bit_update(bits: u64, index: u64, other: u64)
    by (bit_vector)
    requires
        index < 64,
        other < 64,
    ensures
        bit_is_set(bits | (1u64 << index), other) == (other == index || bit_is_set(bits, other)),
        bit_is_set(bits & !(1u64 << index), other) == (other != index && bit_is_set(bits, other)),
        bit_is_set(bits ^ (1u64 << index), other) == (bit_is_set(bits, other) != (other == index)),
{
}

/// A word that is not zero has a bit that is one.
proof fn lemma_nonzero_has_bit(bits: u64) -> (index: u64)
    requires
        bits != 0,
    ensures
        index < 64,
        bit_is_set(bits, index),
{
    axiom_u64_trailing_zeros(bits);
    u64_trailing_zeros(bits) as u64
}

/// The set of keys that are held down, one bit for each key.
#[derive(Clone, Copy, Debug, PartialEq, Eq, Hash, Structural)]
pub struct KeyStates {
    bits: u64,
}

impl View for KeyStates {
    type V = Set<Key>;

    /// The keys that are held.
    closed spec fn view(&self) -> Set<Key> {
        Set::new(|key: Key| bit_is_set(self.bits, key.spec_index() as u64))
    }
}

impl KeyStates {
    /// The keys of `self` whose index is below `bound`.
    spec fn below(self, bound: nat) -> Set<Key> {
        Set::new(|key: Key| key.spec_index() < bound && self@.contains(key))
    }

    proof fn lemma_below_step(self, bound: nat)
        requires
            bound < NUMBER_OF_KEYS,
            self.below(bound).finite(),
        ensures
            self.below(bound + 1).finite(),
            self.below(bound + 1).len() == self.below(bound).len() + (if bit_is_set(
                self.bits,
                bound as u64,
            ) {
                1nat
            } else {
                0nat
            }),
    {
        Key::lemma_index_bijective();
        let key = Key::spec_from_index(bound);
        if bit_is_set(self.bits, bound as u64) {
            assert(self.below(bound + 1) =~= self.below(bound).insert(key));
        } else {
            assert(self.below(bound + 1) =~= self.below(bound));
        }
    }

    /// Only finitely many keys exist, so only finitely many are held.
    pub proof fn lemma_finite(self)
        ensures
            self@.finite(),
    {
        self.lemma_below_all(NUMBER_OF_KEYS as nat);
        Key::lemma_index_bijective();
        assert(self.below(NUMBER_OF_KEYS as nat) =~= self@);
    }

    proof fn lemma_below_all(self, bound: nat)
        requires
            bound <= NUMBER_OF_KEYS,
        ensures
            self.below(bound).finite(),
        decreases bound,
    {
        if bound == 0 {
            assert(self.below(0) =~= Set::<Key>::empty());
        } else {
            self.lemma_below_all((bound - 1) as nat);
            self.lemma_below_step((bound - 1) as nat);
        }
    }

    /// The state in which no key is held.
    pub fn new() -> (states: KeyStates)
        ensures
            states@ == Set::<Key>::empty(),
    {
        let states = KeyStates { bits: 0 };
        proof {
            assert forall|key: Key| !states@.contains(key) by {
                Key::lemma_index_bijective();
                lemma_bit_ops(0, 0, key.spec_index() as u64);
            }
            assert(states@ =~= Set::<Key>::empty());
        }
        states
    }

    /// Marks `key` as held.
    pub fn set(&mut self, key: Key)
        ensures
            final(self)@ == old(self)@.insert(key),
    {
        let index: u64 = key.index() as u64;
        let bits: u64 = self.bits | (1u64 << index);
        proof {
            Key::lemma_index_bijective();
            assert forall|other: Key|
                bit_is_set(bits, other.spec_index() as u64) == (other == key || bit_is_set(
                    self.bits,
                    other.spec_index() as u64,
                )) by {
                lemma_bit_update(self.bits, index, other.spec_index() as u64);
            }
        }
        self.bits = bits;
        assert(self@ =~= old(self)@.insert(key));
    }

    /// Marks `key` as released.
    pub fn clear(&mut self, key: Key)
        ensures
            final(self)@ == old(self)@.remove(key),
    {
        let index: u64 = key.index() as u64;
        let bits: u64 = self.bits & !(1u64 << index);
        proof {
            Key::lemma_index_bijective();
            assert forall|other: Key|
                bit_is_set(bits, other.spec_index() as u64) == (other != key && bit_is_set(
                    self.bits,
                    other.spec_index() as u64,
                )) by {
                lemma_bit_update(self.bits, index, other.spec_index() as u64);
            }
        }
        self.bits = bits;
        assert(self@ =~= old(self)@.remove(key));
    }

    /// Whether `key` is held.
    pub fn get(&self, key: Key) -> (held: bool)
        ensures
            held == self@.contains(key),
    {
        let index: u64 = key.index() as u64;
        (self.bits >> index) & 1 == 1
    }

    /// Whether no key is held.
    pub fn is_empty(&self) -> (empty: bool)
        ensures
            empty == (self@ == Set::<Key>::empty()),
    {
        proof {
            Key::lemma_index_bijective();
            if self.bits != 0 {
                let index = lemma_nonzero_has_bit(self.bits);
                assert(self@.contains(Key::spec_from_index(index as nat)));
            } else {
                assert forall|key: Key| !self@.contains(key) by {
                    lemma_bit_ops(0, 0, key.spec_index() as u64);
                }
                assert(self@ =~= Set::<Key>::empty());
            }
        }
        self.bits == 0
    }

    /// How many keys are held.
    pub fn ones(&self) -> (count: u32)
        ensures
            count == self@.len(),
            count <= NUMBER_OF_KEYS,
    {
        let mut count: u32 = 0;
        let mut index: u64 = 0;
        proof {
            assert(self.below(0) =~= Set::<Key>::empty());
        }
        while index < 64
            invariant
                index <= 64,
                count <= index,
                self.below(index as nat).finite(),
                count == self.below(index as nat).len(),
            decreases 64 - index,
        {
            proof {
                self.lemma_below_step(index as nat);
            }
            if (self.bits >> index) & 1 == 1 {
                count = count + 1;
            }
            index = index + 1;
        }
        proof {
            Key::lemma_index_bijective();
            assert(self.below(64) =~= self@);
        }
        count
    }

    /// The keys held in both `self` and `other`.
    pub fn and(&self, other: &KeyStates) -> (both: KeyStates)
        ensures
            both@ == self@.intersect(other@),
    {
        let both = KeyStates { bits: self.bits & other.bits };
        proof {
            Key::lemma_index_bijective();
            assert forall|key: Key|
                both@.contains(key) == (self@.contains(key) && other@.contains(key)) by {
                lemma_bit_ops(self.bits, other.bits, key.spec_index() as u64);
            }
            assert(both@ =~= self@.intersect(other@));
        }
        both
    }

    /// The keys held in exactly one of `self` and `other`.
    pub fn xor(&self, other: &KeyStates) -> (either: KeyStates)
        ensures
            either@ == self@.difference(other@).union(other@.difference(self@)),
    {
        let either = KeyStates { bits: self.bits ^ other.bits };
        proof {
            Key::lemma_index_bijective();
            assert forall|key: Key|
                either@.contains(key) == (self@.contains(key) != other@.contains(key)) by {
                lemma_bit_ops(self.bits, other.bits, key.spec_index() as u64);
            }
            assert(either@ =~= self@.difference(other@).union(other@.difference(self@)));
        }
        either
    }

    /// Whether every key of `required` is held in `self`. Keys that are held
    /// in `self` and not asked for by `required` do not matter: the test asks
    /// for at least the required keys, not for exactly them.
    pub fn is_subset_of(&self, required: &KeyStates) -> (covered: bool)
        ensures
            covered == required@.subset_of(self@),
    {
        let missing = self.and(required).xor(required);
        proof {
            assert(missing@ =~= required@.difference(self@));
            if required@.subset_of(self@) {
                assert(missing@ =~= Set::<Key>::empty());
            } else {
                let key = choose|key: Key| required@.contains(key) && !self@.contains(key);
                assert(missing@.contains(key));
            }
        }
        missing.is_empty()
    }
}

impl Default for KeyStates {
    fn default() -> (states: KeyStates)
        ensures
            states@ == Set::<Key>::empty(),
    {
        KeyStates::new()
    }
}

/// Extra keys that are held never change whether the required ones are: the
/// answer of `is_subset_of` is the same for every live state that agrees with
/// `live` on the keys of `required`.
pub proof fn lemma_subset_ignores_extra_keys(live: KeyStates, other: KeyStates, required: KeyStates)
    requires
        forall|key: Key| required@.contains(key) ==> (live@.contains(key) == other@.contains(key)),
    ensures
        required@.subset_of(live@) == required@.subset_of(other@),
{
}

} // verus!
