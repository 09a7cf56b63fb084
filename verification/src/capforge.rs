//! Capability bitmaps: what a device says that it can do, and what it is
//! taken for on that account.
use vstd::prelude::*;
use crate::text::{letters, parse_unsigned, parsed, texts, words, words_from};

verus! {

#[derive(Clone, Copy, Debug, PartialEq, Eq, Structural)]
pub enum CapabilityKind {
    Unknown,
    Keyboard,
    Key,
    Mouse,
    Touchpad,
    Touchscreen,
    Tablet,
    Joystick,
    Switch,
}

impl CapabilityKind {
    /// The number that stands for a kind.
    pub open spec fn code_spec(self) -> i32 {
        match self {
            CapabilityKind::Unknown => 0,
            CapabilityKind::Keyboard => 1,
            CapabilityKind::Key => 2,
            CapabilityKind::Mouse => 3,
            CapabilityKind::Touchpad => 4,
            CapabilityKind::Touchscreen => 5,
            CapabilityKind::Tablet => 6,
            CapabilityKind::Joystick => 7,
            CapabilityKind::Switch => 8,
        }
    }

    /// The kind that a number stands for; any other number is unknown.
    pub fn from_code(code: i32) -> (kind: CapabilityKind)
        ensures
            1 <= code <= 8 ==> kind.code_spec() == code,
            !(1 <= code <= 8) ==> kind == CapabilityKind::Unknown,
    {
        match code {
            1 => CapabilityKind::Keyboard,
            2 => CapabilityKind::Key,
            3 => CapabilityKind::Mouse,
            4 => CapabilityKind::Touchpad,
            5 => CapabilityKind::Touchscreen,
            6 => CapabilityKind::Tablet,
            7 => CapabilityKind::Joystick,
            8 => CapabilityKind::Switch,
            _ => CapabilityKind::Unknown,
        }
    }
}

// ---------------------------------------------------------------------------
// Bits
// ---------------------------------------------------------------------------
pub open spec fn word_bit(word: u64, offset: u64) -> bool {
    (word >> offset) & 1 == 1
}

/// Whether a code is in a bitmap of 64-bit words, lowest word first.
pub open spec fn bit_spec(bits: Seq<u64>, code: u16) -> bool {
    code / 64 < bits.len() && word_bit(bits[code as int / 64], (code % 64) as u64)
}

/// Whether `after` is `before` with one code added. A code beyond the bitmap
/// changes nothing.
pub open spec fn bit_added(before: Seq<u64>, after: Seq<u64>, code: u16) -> bool {
    &&& after.len() == before.len()
    &&& forall|other: u16| #[trigger]
        bit_spec(after, other) == (bit_spec(before, other) || (other == code && code / 64
            < before.len()))
}

proof fn lemma_set_bit(word: u64, offset: u64, other: u64)
    requires
        offset < 64,
        other < 64,
    ensures
        word_bit(word | (1u64 << offset), other) == (word_bit(word, other) || other == offset),
{
    assert(((word | (1u64 << offset)) >> other) & 1 == 1 <==> ((word >> other) & 1 == 1 || other
        == offset)) by (bit_vector)
        requires
            offset < 64,
            other < 64,
    ;
}

fn set_bit<const N: usize>(bits: &mut [u64; N], code: u16)
    ensures
        bit_added(old(bits)@, final(bits)@, code),
{
    let index: usize = (code / 64) as usize;
    let offset: u64 = (code % 64) as u64;
    if index < N {
        let word: u64 = bits[index];
        let next: u64 = word | (1u64 << offset);
        bits[index] = next;
        proof {
            assert forall|other: u16| #[trigger]
                bit_spec(bits@, other) == (bit_spec(old(bits)@, other) || other == code) by {
                if other as int / 64 == index {
                    lemma_set_bit(word, offset, (other % 64) as u64);
                }
            }
        }
    }
}

/// Whether `after` is `before` with codes added. Codes beyond the bitmap
/// change nothing.
pub open spec fn codes_added(before: Seq<u64>, after: Seq<u64>, codes: Seq<u16>) -> bool {
    &&& after.len() == before.len()
    &&& forall|code: u16| #[trigger]
        bit_spec(after, code) == (bit_spec(before, code) || (codes.contains(code) && code / 64
            < before.len()))
}

fn set_bits<const N: usize>(bits: &mut [u64; N], codes: &Vec<u16>)
    ensures
        codes_added(old(bits)@, final(bits)@, codes@),
{
    let ghost before = bits@;
    let mut i: usize = 0;
    while i < codes.len()
        invariant
            i <= codes.len(),
            bits@.len() == before.len(),
            forall|code: u16| #[trigger]
                bit_spec(bits@, code) == (bit_spec(before, code) || (codes@.take(i as int).contains(
                    code,
                ) && code / 64 < before.len())),
        decreases codes.len() - i,
    {
        let ghost middle = bits@;
        set_bit(bits, codes[i]);
        proof {
            let now = codes@.take(i + 1);
            let so_far = codes@.take(i as int);
            assert(now =~= so_far.push(codes@[i as int]));
            assert forall|code: u16| #[trigger]
                bit_spec(bits@, code) == (bit_spec(before, code) || (now.contains(code) && code
                    / 64 < before.len())) by {
                assert(bit_spec(middle, code) == (bit_spec(before, code) || (so_far.contains(code)
                    && code / 64 < before.len())));
                if so_far.contains(code) {
                    let j = choose|j: int| 0 <= j < so_far.len() && so_far[j] == code;
                    assert(now[j] == code);
                }
                assert(now[i as int] == codes@[i as int]);
            }
        }
        i += 1;
    }
    assert(codes@.take(i as int) =~= codes@);
}

fn bit(bits: &[u64], code: u16) -> (set: bool)
    ensures
        set == bit_spec(bits@, code),
{
    let index: usize = (code / 64) as usize;
    let offset: u64 = (code % 64) as u64;
    index < bits.len() && (bits[index] >> offset) & 1 == 1
}

/// How many codes from `low` up to, but without, `high` are in a bitmap.
pub open spec fn count_spec(bits: Seq<u64>, low: int, high: int) -> nat
    decreases high - low,
{
    if high <= low {
        0
    } else {
        count_spec(bits, low, high - 1) + if bit_spec(bits, (high - 1) as u16) {
            1nat
        } else {
            0nat
        }
    }
}

fn count(bits: &[u64], low: u16, high: u16) -> (n: usize)
    requires
        low <= high,
    ensures
        n == count_spec(bits@, low as int, high as int),
        n <= high - low,
{
    let mut n: usize = 0;
    let mut code: u16 = low;
    while code < high
        invariant
            low <= code <= high,
            n == count_spec(bits@, low as int, code as int),
            n <= code - low,
        decreases high - code,
    {
        if bit(bits, code) {
            n += 1;
        }
        code += 1;
    }
    n
}

// ---------------------------------------------------------------------------
// Words of sysfs
// ---------------------------------------------------------------------------
/// The value of a hexadecimal word; what is no such word counts as 0.
pub open spec fn word_value(word: Seq<char>) -> int {
    match parsed(word, 16, false, 0, u64::MAX as int) {
        Some(value) => value,
        None => 0,
    }
}

/// The `index`th word of a bitmap: sysfs writes the highest word first.
pub open spec fn sysfs_word(list: Seq<Seq<char>>, index: int) -> int {
    if index < list.len() {
        word_value(list[list.len() - 1 - index])
    } else {
        0
    }
}

/// Reads a bitmap as sysfs writes it: hexadecimal words, highest word first.
/// Words beyond the bitmap are dropped.
pub fn parse_sysfs_hex<const WORDS: usize>(input: &str) -> (bits: [u64; WORDS])
    ensures
        forall|i: int|
            0 <= i < WORDS ==> #[trigger] bits@[i] == sysfs_word(words_from(input@, 0), i),
{
    let chars = letters(input);
    let list = words(chars.as_slice());
    let mut bits: [u64; WORDS] = [0;WORDS];
    let mut i: usize = 0;
    let n: usize = list.len();
    assert(texts(list@).len() == n);
    while i < WORDS && i < n
        invariant
            i <= WORDS,
            i <= n,
            n == list.len(),
            texts(list@) == words_from(input@, 0),
            texts(list@).len() == n,
            bits@.len() == WORDS,
            forall|j: int|
                0 <= j < i ==> #[trigger] bits@[j] == sysfs_word(words_from(input@, 0), j),
            forall|j: int| i <= j < WORDS ==> #[trigger] bits@[j] == 0,
        decreases WORDS - i,
    {
        let word: &[char] = list[n - 1 - i];
        assert(word@ == texts(list@)[n - 1 - i]);
        let value: u64 = match parse_unsigned(word, 16, u64::MAX) {
            Some(value) => value,
            None => 0,
        };
        bits[i] = value;
        i += 1;
    }
    bits
}

// ---------------------------------------------------------------------------
// Capabilities
// ---------------------------------------------------------------------------
/// The codes of keys end here.
pub const KEY_END: u16 = 0x300;

#[derive(Clone, Copy, Debug, PartialEq, Eq)]
pub struct CapabilityBits {
    pub ev: [u64; 1],
    pub key: [u64; 12],
    pub rel: [u64; 1],
    pub absolute: [u64; 2],
    pub properties: [u64; 1],
}

impl Default for CapabilityBits {
    fn default() -> (bits: CapabilityBits)
        ensures
            forall|code: u16|
                !#[trigger] bits.event(code) && !bits.has_key_spec(code) && !bits.relative(code)
                    && !bits.absolute_axis(code) && !bits.property(code),
    {
        let bits = CapabilityBits {
            ev: [0;1],
            key: [0;12],
            rel: [0;1],
            absolute: [0;2],
            properties: [0;1],
        };
        proof {
            assert forall|code: u16|
                !#[trigger] bits.event(code) && !bits.has_key_spec(code) && !bits.relative(code)
                    && !bits.absolute_axis(code) && !bits.property(code) by {
                let offset = (code % 64) as u64;
                assert((0u64 >> offset) & 1 == 0) by (bit_vector);
            }
        }
        bits
    }
}

impl CapabilityBits {
    pub open spec fn event(self, code: u16) -> bool {
        bit_spec(self.ev@, code)
    }

    pub open spec fn has_key_spec(self, code: u16) -> bool {
        bit_spec(self.key@, code)
    }

    pub open spec fn relative(self, code: u16) -> bool {
        bit_spec(self.rel@, code)
    }

    pub open spec fn absolute_axis(self, code: u16) -> bool {
        bit_spec(self.absolute@, code)
    }

    pub open spec fn property(self, code: u16) -> bool {
        bit_spec(self.properties@, code)
    }

    /// The bitmaps of a device as sysfs shows them.
    pub fn from_sysfs(ev: &str, key: &str, rel: &str, absolute: &str, properties: &str) -> (bits:
        CapabilityBits)
        ensures
            forall|i: int|
                0 <= i < 1 ==> #[trigger] bits.ev@[i] == sysfs_word(words_from(ev@, 0), i),
            forall|i: int|
                0 <= i < 12 ==> #[trigger] bits.key@[i] == sysfs_word(words_from(key@, 0), i),
            forall|i: int|
                0 <= i < 1 ==> #[trigger] bits.rel@[i] == sysfs_word(words_from(rel@, 0), i),
            forall|i: int|
                0 <= i < 2 ==> #[trigger] bits.absolute@[i] == sysfs_word(
                    words_from(absolute@, 0),
                    i,
                ),
            forall|i: int|
                0 <= i < 1 ==> #[trigger] bits.properties@[i] == sysfs_word(
                    words_from(properties@, 0),
                    i,
                ),
    {
        CapabilityBits {
            ev: parse_sysfs_hex::<1>(ev),
            key: parse_sysfs_hex::<12>(key),
            rel: parse_sysfs_hex::<1>(rel),
            absolute: parse_sysfs_hex::<2>(absolute),
            properties: parse_sysfs_hex::<1>(properties),
        }
    }

    pub fn set_event(&mut self, code: u16)
        ensures
            bit_added(old(self).ev@, final(self).ev@, code),
            *final(self) == (CapabilityBits { ev: final(self).ev, ..*old(self) }),
    {
        set_bit(&mut self.ev, code);
    }

    pub fn set_key(&mut self, code: u16)
        ensures
            bit_added(old(self).key@, final(self).key@, code),
            *final(self) == (CapabilityBits { key: final(self).key, ..*old(self) }),
    {
        set_bit(&mut self.key, code);
    }

    pub fn set_relative(&mut self, code: u16)
        ensures
            bit_added(old(self).rel@, final(self).rel@, code),
            *final(self) == (CapabilityBits { rel: final(self).rel, ..*old(self) }),
    {
        set_bit(&mut self.rel, code);
    }

    pub fn set_absolute(&mut self, code: u16)
        ensures
            bit_added(old(self).absolute@, final(self).absolute@, code),
            *final(self) == (CapabilityBits { absolute: final(self).absolute, ..*old(self) }),
    {
        set_bit(&mut self.absolute, code);
    }

    pub fn set_property(&mut self, code: u16)
        ensures
            bit_added(old(self).properties@, final(self).properties@, code),
            *final(self) == (CapabilityBits { properties: final(self).properties, ..*old(self) }),
    {
        set_bit(&mut self.properties, code);
    }

    /// Adds what the kernel says of a device to what is known already.
    pub fn add_events(&mut self, codes: &Vec<u16>)
        ensures
            codes_added(old(self).ev@, final(self).ev@, codes@),
            *final(self) == (CapabilityBits { ev: final(self).ev, ..*old(self) }),
    {
        set_bits(&mut self.ev, codes);
    }

    pub fn add_keys(&mut self, codes: &Vec<u16>)
        ensures
            codes_added(old(self).key@, final(self).key@, codes@),
            *final(self) == (CapabilityBits { key: final(self).key, ..*old(self) }),
    {
        set_bits(&mut self.key, codes);
    }

    pub fn add_relative(&mut self, codes: &Vec<u16>)
        ensures
            codes_added(old(self).rel@, final(self).rel@, codes@),
            *final(self) == (CapabilityBits { rel: final(self).rel, ..*old(self) }),
    {
        set_bits(&mut self.rel, codes);
    }

    pub fn add_absolute(&mut self, codes: &Vec<u16>)
        ensures
            codes_added(old(self).absolute@, final(self).absolute@, codes@),
            *final(self) == (CapabilityBits { absolute: final(self).absolute, ..*old(self) }),
    {
        set_bits(&mut self.absolute, codes);
    }

    pub fn add_properties(&mut self, codes: &Vec<u16>)
        ensures
            codes_added(old(self).properties@, final(self).properties@, codes@),
            *final(self) == (CapabilityBits { properties: final(self).properties, ..*old(self) }),
    {
        set_bits(&mut self.properties, codes);
    }

    pub fn has_event(&self, code: u16) -> (has: bool)
        ensures
            has == self.event(code),
    {
        bit(self.ev.as_slice(), code)
    }

    pub fn has_key(&self, code: u16) -> (has: bool)
        ensures
            has == self.has_key_spec(code),
    {
        bit(self.key.as_slice(), code)
    }

    pub fn has_relative(&self, code: u16) -> (has: bool)
        ensures
            has == self.relative(code),
    {
        bit(self.rel.as_slice(), code)
    }

    pub fn has_absolute(&self, code: u16) -> (has: bool)
        ensures
            has == self.absolute_axis(code),
    {
        bit(self.absolute.as_slice(), code)
    }

    fn has_property(&self, code: u16) -> (has: bool)
        ensures
            has == self.property(code),
    {
        bit(self.properties.as_slice(), code)
    }

    /// How many keys and buttons a device has.
    pub fn key_count(&self) -> (n: usize)
        ensures
            n == count_spec(self.key@, 0, KEY_END as int),
            n <= KEY_END,
    {
        count(self.key.as_slice(), 0, KEY_END)
    }

    /// Both coordinates of an absolute position.
    pub open spec fn has_xy(self) -> bool {
        self.event(3) && self.absolute_axis(0) && self.absolute_axis(1)
    }

    /// What a device is taken for. A pen makes a tablet; a finger, or a touch
    /// on an indirect pointer, a touchpad; direct or multiple touch a
    /// touchscreen; movement with a button a mouse. Everything else with keys
    /// is a keyboard if it has more than 20 of them.
    pub open spec fn kind(self) -> CapabilityKind {
        let finger = self.has_key_spec(0x145);
        let touch = self.has_key_spec(0x14a);
        let direct = self.property(1);
        let multitouch = self.absolute_axis(0x2f) || self.absolute_axis(0x35);
        let keys = count_spec(self.key@, 1, 255);
        if self.has_key_spec(0x140) && self.has_xy() {
            CapabilityKind::Tablet
        } else if (finger || (touch && self.property(0) && !direct)) && self.has_xy() {
            CapabilityKind::Touchpad
        } else if (direct || (touch && multitouch)) && self.has_xy() {
            CapabilityKind::Touchscreen
        } else if self.event(2) && (self.relative(0) || self.relative(1)) && self.has_key_spec(
            0x110,
        ) {
            CapabilityKind::Mouse
        } else if self.has_key_spec(0x120) && self.event(3) {
            CapabilityKind::Joystick
        } else if self.event(1) {
            if keys > 20 {
                CapabilityKind::Keyboard
            } else if keys > 0 {
                CapabilityKind::Key
            } else {
                CapabilityKind::Unknown
            }
        } else if self.event(5) {
            CapabilityKind::Switch
        } else {
            CapabilityKind::Unknown
        }
    }

    pub fn classify(&self) -> (kind: CapabilityKind)
        ensures
            kind == self.kind(),
    {
        let xy = self.has_event(3) && self.has_absolute(0) && self.has_absolute(1);
        let multitouch = self.has_absolute(0x2f) || self.has_absolute(0x35);
        let finger = self.has_key(0x145);
        let touch = self.has_key(0x14a);
        let direct = self.has_property(1);
        let pointer = self.has_property(0);
        if self.has_key(0x140) && xy {
            CapabilityKind::Tablet
        } else if (finger || (touch && pointer && !direct)) && xy {
            CapabilityKind::Touchpad
        } else if (direct || (touch && multitouch)) && xy {
            CapabilityKind::Touchscreen
        } else if self.has_event(2) && (self.has_relative(0) || self.has_relative(1))
            && self.has_key(0x110) {
            CapabilityKind::Mouse
        } else if self.has_key(0x120) && self.has_event(3) {
            CapabilityKind::Joystick
        } else if self.has_event(1) {
            let keys: usize = count(self.key.as_slice(), 1, 255);
            if keys > 20 {
                CapabilityKind::Keyboard
            } else if keys > 0 {
                CapabilityKind::Key
            } else {
                CapabilityKind::Unknown
            }
        } else if self.has_event(5) {
            CapabilityKind::Switch
        } else {
            CapabilityKind::Unknown
        }
    }
}

/// Evidence for a pointing device outweighs any number of keys.
pub proof fn law_keys_do_not_hide_a_touchpad(bits: CapabilityBits, more: CapabilityBits)
    requires
        bits.kind() == CapabilityKind::Touchpad,
        more == (CapabilityBits { key: more.key, ..bits }),
        forall|code: u16| bits.has_key_spec(code) ==> #[trigger] more.has_key_spec(code),
        !more.has_key_spec(0x140),
    ensures
        more.kind() == CapabilityKind::Touchpad,
{
    assert(more.has_key_spec(0x145) || bits.has_key_spec(0x14a));
    assert(bits.has_key_spec(0x14a) ==> more.has_key_spec(0x14a));
    assert(bits.has_key_spec(0x145) ==> more.has_key_spec(0x145));
}

/// Nothing is taken for a pointing device without evidence of positions or
/// movement.
pub proof fn law_pointing_takes_evidence(bits: CapabilityBits)
    ensures
        ({
            let kind = bits.kind();
            (kind == CapabilityKind::Tablet || kind == CapabilityKind::Touchpad || kind
                == CapabilityKind::Touchscreen) ==> bits.has_xy()
        }),
        bits.kind() == CapabilityKind::Mouse ==> bits.event(2) && (bits.relative(0)
            || bits.relative(1)),
        bits.kind() == CapabilityKind::Joystick ==> bits.event(3),
{
}

/// Whether every code of one bitmap is in another.
pub open spec fn is_part(a: Seq<u64>, b: Seq<u64>) -> bool {
    forall|code: u16| #[trigger] bit_spec(a, code) ==> bit_spec(b, code)
}

/// Evidence adds up: what comes out holds both sources, and nothing that
/// neither of them holds.
pub proof fn law_evidence_is_the_least_upper_bound(
    before: Seq<u64>,
    after: Seq<u64>,
    codes: Seq<u16>,
    bound: Seq<u64>,
)
    requires
        codes_added(before, after, codes),
    ensures
        is_part(before, after),
        forall|code: u16|
            codes.contains(code) && code / 64 < before.len() ==> #[trigger] bit_spec(after, code),
        is_part(before, bound) && (forall|code: u16|
            codes.contains(code) && code / 64 < before.len() ==> #[trigger] bit_spec(bound, code))
            ==> is_part(after, bound),
{
    if is_part(before, bound) && (forall|code: u16|
        codes.contains(code) && code / 64 < before.len() ==> #[trigger] bit_spec(bound, code)) {
        assert forall|code: u16| #[trigger] bit_spec(after, code) implies bit_spec(bound, code) by {
            if bit_spec(before, code) {
                assert(bit_spec(bound, code));
            }
        }
    }
}

/// The order in which evidence comes in does not matter.
pub proof fn law_evidence_commutes(
    start: Seq<u64>,
    first: Seq<u64>,
    both: Seq<u64>,
    other_first: Seq<u64>,
    other_both: Seq<u64>,
    a: Seq<u16>,
    b: Seq<u16>,
    code: u16,
)
    requires
        codes_added(start, first, a),
        codes_added(first, both, b),
        codes_added(start, other_first, b),
        codes_added(other_first, other_both, a),
    ensures
        bit_spec(both, code) == bit_spec(other_both, code),
{
}

} // verus!
