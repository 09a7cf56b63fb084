//! Hardware discovery: which notifications matter, when to look again, and
//! what the udev database says of a device.
use vstd::prelude::*;
use crate::clock::{elapsed, elapsed_spec, SECOND};
use crate::text::{
    decimal, equal, halves, is_decimal, letters, lines, lines_of, split_once, string_of, strip,
    stripped, texts,
};

verus! {

/// The devices are looked over at least this often.
pub const RECONCILE_INTERVAL: u64 = 5 * SECOND;

// ---------------------------------------------------------------------------
// Kernel messages
// ---------------------------------------------------------------------------
/// Whether bytes spell a text of ASCII characters.
pub open spec fn spells(bytes: Seq<u8>, text: Seq<char>) -> bool {
    bytes.len() == text.len() && forall|i: int|
        0 <= i < bytes.len() ==> #[trigger] bytes[i] as char == text[i]
}

/// Whether bytes begin with a text of ASCII characters.
pub open spec fn opens_with(bytes: Seq<u8>, text: Seq<char>) -> bool {
    text.len() <= bytes.len() && spells(bytes.take(text.len() as int), text)
}

/// Whether a field of a message announces an input device.
pub open spec fn is_input_field(field: Seq<u8>) -> bool {
    spells(field, "SUBSYSTEM=input"@) || opens_with(field, "DEVNAME=input/event"@)
}

/// Where the field that begins at `from` ends: at a zero byte or at the end.
pub open spec fn field_end(message: Seq<u8>, from: int) -> int
    decreases message.len() - from,
{
    if from >= message.len() {
        message.len() as int
    } else if message[from] == 0 {
        from
    } else {
        field_end(message, from + 1)
    }
}

/// Whether any field that begins at `from` or later announces an input
/// device.
pub open spec fn announces_input(message: Seq<u8>, from: int) -> bool
    decreases message.len() - from,
    via fields_decrease
{
    if 0 <= from <= message.len() {
        let end = field_end(message, from);
        is_input_field(message.subrange(from, end)) || (end < message.len() && announces_input(
            message,
            end + 1,
        ))
    } else {
        false
    }
}

proof fn lemma_field_end(message: Seq<u8>, from: int)
    requires
        0 <= from <= message.len(),
    ensures
        from <= field_end(message, from) <= message.len(),
    decreases message.len() - from,
{
    if from < message.len() && message[from] != 0 {
        lemma_field_end(message, from + 1);
    }
}

#[via_fn]
proof fn fields_decrease(message: Seq<u8>, from: int) {
    if 0 <= from <= message.len() {
        lemma_field_end(message, from);
    }
}

fn spells_at(message: &[u8], from: usize, text: &str) -> (same: bool)
    requires
        from <= message.len(),
    ensures
        same == opens_with(message@.skip(from as int), text@),
{
    let chars = letters(text);
    if chars.len() > message.len() - from {
        return false;
    }
    let ghost field = message@.skip(from as int).take(text@.len() as int);
    let mut i: usize = 0;
    while i < chars.len()
        invariant
            from + chars.len() <= message.len(),
            i <= chars.len(),
            chars@ == text@,
            field == message@.skip(from as int).take(text@.len() as int),
            forall|j: int| 0 <= j < i ==> #[trigger] field[j] as char == text@[j],
        decreases chars.len() - i,
    {
        assert(field[i as int] == message@[from + i]);
        if message[from + i] as char != chars[i] {
            return false;
        }
        i += 1;
    }
    true
}

fn field_is_input(message: &[u8], from: usize, to: usize) -> (input: bool)
    requires
        from <= to <= message.len(),
    ensures
        input == is_input_field(message@.subrange(from as int, to as int)),
{
    let field = vstd::slice::slice_subrange(message, from, to);
    proof {
        reveal_strlit("SUBSYSTEM=input");
        assert(field@.skip(0) =~= field@);
        assert(field@.take(field@.len() as int) =~= field@);
    }
    (field.len() == 15 && spells_at(field, 0, "SUBSYSTEM=input")) || spells_at(
        field,
        0,
        "DEVNAME=input/event",
    )
}

/// Whether a kernel message is about an input device.
pub fn is_input_uevent(message: &[u8]) -> (input: bool)
    ensures
        input == announces_input(message@, 0),
{
    let mut from: usize = 0;
    loop
        invariant
            from <= message.len(),
            announces_input(message@, 0) == announces_input(message@, from as int),
        decreases message.len() - from,
    {
        let mut end: usize = from;
        while end < message.len() && message[end] != 0
            invariant
                from <= end <= message.len(),
                field_end(message@, from as int) == field_end(message@, end as int),
            decreases message.len() - end,
        {
            end += 1;
        }
        if field_is_input(message, from, end) {
            return true;
        }
        if end >= message.len() {
            return false;
        }
        from = end + 1;
    }
}

// ---------------------------------------------------------------------------
// Properties
// ---------------------------------------------------------------------------
/// The properties of a device by their names. No name occurs twice.
pub struct Properties {
    pub entries: Vec<(String, String)>,
}

/// The first `n` properties as a map.
pub open spec fn map_of(entries: Seq<(String, String)>, n: int) -> Map<Seq<char>, Seq<char>>
    decreases n,
{
    if n <= 0 {
        Map::empty()
    } else {
        map_of(entries, n - 1).insert(entries[n - 1].0@, entries[n - 1].1@)
    }
}

pub open spec fn distinct(entries: Seq<(String, String)>) -> bool {
    forall|i: int, j: int|
        0 <= i < j < entries.len() ==> (#[trigger] entries[i]).0@ != (#[trigger] entries[j]).0@
}

proof fn lemma_map_of(entries: Seq<(String, String)>, n: int, k: int)
    requires
        distinct(entries),
        0 <= k < n <= entries.len(),
    ensures
        map_of(entries, n).contains_key(entries[k].0@),
        map_of(entries, n)[entries[k].0@] == entries[k].1@,
    decreases n,
{
    if k < n - 1 {
        lemma_map_of(entries, n - 1, k);
    }
}

proof fn lemma_map_keys(entries: Seq<(String, String)>, n: int, key: Seq<char>)
    requires
        0 <= n <= entries.len(),
        forall|i: int| 0 <= i < n ==> (#[trigger] entries[i]).0@ != key,
    ensures
        !map_of(entries, n).contains_key(key),
    decreases n,
{
    if n > 0 {
        lemma_map_keys(entries, n - 1, key);
    }
}

proof fn lemma_map_prefix(a: Seq<(String, String)>, b: Seq<(String, String)>, n: int)
    requires
        0 <= n <= a.len(),
        n <= b.len(),
        forall|i: int| 0 <= i < n ==> (#[trigger] a[i]).0@ == b[i].0@ && a[i].1@ == b[i].1@,
    ensures
        map_of(a, n) == map_of(b, n),
    decreases n,
{
    if n > 0 {
        lemma_map_prefix(a, b, n - 1);
        assert(a[n - 1].0@ == b[n - 1].0@);
    }
}

proof fn lemma_map_update(a: Seq<(String, String)>, b: Seq<(String, String)>, n: int, k: int)
    requires
        distinct(a),
        0 <= k < n <= a.len(),
        a.len() == b.len(),
        a[k].0@ == b[k].0@,
        forall|i: int| 0 <= i < a.len() && i != k ==> #[trigger] a[i] == b[i],
    ensures
        map_of(b, n) =~= map_of(a, n).insert(a[k].0@, b[k].1@),
    decreases n,
{
    if k < n - 1 {
        lemma_map_update(a, b, n - 1, k);
        assert(a[n - 1] == b[n - 1]);
        assert(a[k].0@ != a[n - 1].0@);
    } else {
        lemma_map_prefix(a, b, n - 1);
    }
}

proof fn lemma_map_size(entries: Seq<(String, String)>, n: int)
    requires
        distinct(entries),
        0 <= n <= entries.len(),
    ensures
        map_of(entries, n).dom().finite(),
        map_of(entries, n).len() == n,
    decreases n,
{
    if n > 0 {
        lemma_map_size(entries, n - 1);
        lemma_map_keys(entries, n - 1, entries[n - 1].0@);
    }
}

impl Properties {
    pub open spec fn view(&self) -> Map<Seq<char>, Seq<char>> {
        map_of(self.entries@, self.entries@.len() as int)
    }

    pub open spec fn wf(&self) -> bool {
        distinct(self.entries@)
    }

    pub fn new() -> (p: Properties)
        ensures
            p.wf(),
            p@ == Map::<Seq<char>, Seq<char>>::empty(),
    {
        Properties { entries: Vec::new() }
    }

    fn find(&self, name: &str) -> (place: Option<usize>)
        ensures
            match place {
                Some(i) => i < self.entries.len() && self.entries@[i as int].0@ == name@,
                None => forall|i: int|
                    0 <= i < self.entries.len() ==> (#[trigger] self.entries@[i]).0@ != name@,
            },
    {
        let mut i: usize = 0;
        while i < self.entries.len()
            invariant
                i <= self.entries.len(),
                forall|j: int| 0 <= j < i ==> (#[trigger] self.entries@[j]).0@ != name@,
            decreases self.entries.len() - i,
        {
            if equal(self.entries[i].0.as_str(), name) {
                return Some(i);
            }
            i += 1;
        }
        None
    }

    /// The value of a property.
    pub fn get(&self, name: &str) -> (value: Option<&String>)
        requires
            self.wf(),
        ensures
            match value {
                Some(value) => self@.contains_key(name@) && value@ == self@[name@],
                None => !self@.contains_key(name@),
            },
    {
        match self.find(name) {
            Some(i) => {
                proof {
                    lemma_map_of(self.entries@, self.entries@.len() as int, i as int);
                }
                Some(&self.entries[i].1)
            },
            None => {
                proof {
                    lemma_map_keys(self.entries@, self.entries@.len() as int, name@);
                }
                None
            },
        }
    }

    /// Whether a property has a value.
    pub fn equals(&self, name: &str, value: &str) -> (same: bool)
        requires
            self.wf(),
        ensures
            same == (self@.contains_key(name@) && self@[name@] == value@),
    {
        match self.get(name) {
            Some(known) => equal(known.as_str(), value),
            None => false,
        }
    }

    pub fn len(&self) -> (n: usize)
        requires
            self.wf(),
        ensures
            n == self@.len(),
    {
        proof {
            lemma_map_size(self.entries@, self.entries@.len() as int);
        }
        self.entries.len()
    }

    /// Sets a property; the latest value counts.
    pub fn insert(&mut self, name: String, value: String)
        requires
            old(self).wf(),
        ensures
            final(self).wf(),
            final(self)@ == old(self)@.insert(name@, value@),
    {
        let ghost before = self.entries@;
        let ghost n = before.len() as int;
        match self.find(name.as_str()) {
            Some(i) => {
                self.entries.set(i, (name, value));
                proof {
                    lemma_map_update(before, self.entries@, n, i as int);
                }
            },
            None => {
                self.entries.push((name, value));
                proof {
                    lemma_map_prefix(before, self.entries@, n);
                }
            },
        }
    }
}

/// The name and value that a line of the udev database gives, if any.
pub open spec fn property_line(line: Seq<char>) -> Option<(Seq<char>, Seq<char>)> {
    match stripped(line, "E:"@) {
        Some(property) => halves(property, '='),
        None => None,
    }
}

/// The properties after the first `n` lines.
pub open spec fn properties_after(
    rows: Seq<Seq<char>>,
    n: int,
    known: Map<Seq<char>, Seq<char>>,
) -> Map<Seq<char>, Seq<char>>
    decreases n,
{
    if n <= 0 {
        known
    } else {
        let before = properties_after(rows, n - 1, known);
        match property_line(rows[n - 1]) {
            Some((name, value)) => before.insert(name, value),
            None => before,
        }
    }
}

/// Adds the properties that an entry of the udev database holds. Lines of
/// other kinds are passed over.
pub fn parse_udev_database(contents: &str, properties: &mut Properties)
    requires
        old(properties).wf(),
    ensures
        final(properties).wf(),
        final(properties)@ == properties_after(
            lines_of(contents@),
            lines_of(contents@).len() as int,
            old(properties)@,
        ),
{
    let chars = letters(contents);
    let rows = lines(chars.as_slice());
    let ghost known = properties@;
    let ghost all = lines_of(contents@);
    let mut i: usize = 0;
    assert(texts(rows@).len() == rows.len());
    while i < rows.len()
        invariant
            i <= rows.len() == all.len(),
            texts(rows@) == all,
            properties.wf(),
            properties@ == properties_after(all, i as int, known),
        decreases rows.len() - i,
    {
        let row: &[char] = rows[i];
        assert(row@ == texts(rows@)[i as int]);
        if let Some(property) = strip(row, "E:") {
            if let Some((name, value)) = split_once(property, '=') {
                properties.insert(string_of(name), string_of(value));
            }
        }
        i += 1;
    }
}

// ---------------------------------------------------------------------------
// Where the database is
// ---------------------------------------------------------------------------
pub open spec fn major_of(rdev: u64) -> u64 {
    ((rdev >> 32) & 0xffff_f000) | ((rdev >> 8) & 0x0000_0fff)
}

pub open spec fn minor_of(rdev: u64) -> u64 {
    ((rdev >> 12) & 0xffff_ff00) | (rdev & 0x0000_00ff)
}

/// `nix::sys::stat::major` splits a Linux device number: bits 8 to 19 and 44
/// to 63 of it make up the major number.
pub assume_specification[ nix::sys::stat::major ](dev: nix::libc::dev_t) -> (major: u64)
    ensures
        major == major_of(dev),
;

/// `nix::sys::stat::minor` splits a Linux device number: its lowest eight
/// bits and bits 20 to 43 make up the minor number.
pub assume_specification[ nix::sys::stat::minor ](dev: nix::libc::dev_t) -> (minor: u64)
    ensures
        minor == minor_of(dev),
;

/// The name of a character device's entry in the udev database: `c`, the
/// major number, a colon and the minor number.
pub open spec fn is_database_name(name: Seq<char>, rdev: u64) -> bool {
    exists|major: Seq<char>, minor: Seq<char>| #[trigger]
        is_decimal(major, major_of(rdev) as int) && #[trigger] is_decimal(
            minor,
            minor_of(rdev) as int,
        ) && name == seq!['c'] + major + seq![':'] + minor
}

pub fn udev_database_name(rdev: u64) -> (name: String)
    ensures
        is_database_name(name@, rdev),
{
    let major = decimal(nix::sys::stat::major(rdev));
    let minor = decimal(nix::sys::stat::minor(rdev));
    let mut name = String::new();
    name.push('c');
    name.append(major.as_str());
    name.push(':');
    name.append(minor.as_str());
    proof {
        assert(name@ =~= seq!['c'] + major@ + seq![':'] + minor@);
        assert(is_decimal(major@, major_of(rdev) as int));
        assert(is_decimal(minor@, minor_of(rdev) as int));
    }
    name
}

/// Whether any of the places where the database may be is there.
pub fn udev_database_is_present(present: &Vec<bool>) -> (found: bool)
    ensures
        found == present@.contains(true),
{
    let mut i: usize = 0;
    while i < present.len()
        invariant
            i <= present.len(),
            forall|j: int| 0 <= j < i ==> !#[trigger] present@[j],
        decreases present.len() - i,
    {
        if present[i] {
            assert(present@[i as int]);
            return true;
        }
        i += 1;
    }
    false
}

// ---------------------------------------------------------------------------
// When to look again
// ---------------------------------------------------------------------------
#[derive(Clone, Copy, Debug, PartialEq, Eq, Structural)]
pub struct HardwareDiscovery {
    pub last_reconcile: u64,
}

impl HardwareDiscovery {
    pub fn new(now: u64) -> (d: HardwareDiscovery)
        ensures
            d.last_reconcile == now,
    {
        HardwareDiscovery { last_reconcile: now }
    }

    /// Whether the devices are to be looked over: after any notification, and
    /// when the interval is over.
    pub fn drain_changed(&mut self, changed: bool, now: u64) -> (look: bool)
        ensures
            look == (changed || elapsed_spec(now, old(self).last_reconcile) >= RECONCILE_INTERVAL),
            final(self).last_reconcile == (if look {
                now
            } else {
                old(self).last_reconcile
            }),
    {
        let due = elapsed(now, self.last_reconcile) >= RECONCILE_INTERVAL;
        if changed || due {
            self.last_reconcile = now;
        }
        changed || due
    }

    pub fn mark_reconciled(&mut self, now: u64)
        ensures
            final(self).last_reconcile == now,
    {
        self.last_reconcile = now;
    }

    /// How long until the interval is over.
    pub fn next_reconcile(&self, now: u64) -> (span: u64)
        ensures
            span == (if elapsed_spec(now, self.last_reconcile) <= RECONCILE_INTERVAL {
                RECONCILE_INTERVAL - elapsed_spec(now, self.last_reconcile)
            } else {
                0
            }),
    {
        let past: u64 = elapsed(now, self.last_reconcile);
        if past <= RECONCILE_INTERVAL {
            RECONCILE_INTERVAL - past
        } else {
            0
        }
    }
}

/// Without notifications the devices are looked over as soon as the announced
/// waiting time is over, and not before.
pub proof fn law_reconciliation_is_punctual(last: u64, now: u64, later: u64)
    requires
        last <= now <= later,
        now - last <= RECONCILE_INTERVAL,
    ensures
        elapsed_spec(later, last) >= RECONCILE_INTERVAL <==> later - now >= RECONCILE_INTERVAL
            - elapsed_spec(now, last),
{
}

} // verus!
