//! Helpers of the udev callouts: axis fuzz and device groups.
use vstd::prelude::*;
use crate::codes::{ABS_MT_POSITION_X, ABS_MT_POSITION_Y, ABS_X, ABS_Y};
use crate::text::{
    find_last, find_text, hexadecimal, is_hexadecimal, last_place, letters, parse_i32,
    parse_unsigned, parsed, part_place, parts, split, string_of, texts,
};

verus! {

/// Whether an axis carries a fuzz that the library takes over from the
/// kernel.
pub open spec fn is_fuzz_axis_spec(code: u16) -> bool {
    code == ABS_X || code == ABS_Y || code == ABS_MT_POSITION_X || code == ABS_MT_POSITION_Y
}

pub fn is_fuzz_axis(code: u16) -> (is: bool)
    ensures
        is == is_fuzz_axis_spec(code),
{
    code == ABS_X || code == ABS_Y || code == ABS_MT_POSITION_X || code == ABS_MT_POSITION_Y
}

/// The property under which the fuzz of an axis is handed on.
pub fn fuzz_property(code: u16) -> (name: Option<&'static str>)
    ensures
        name is Some <==> is_fuzz_axis_spec(code),
        code == ABS_X ==> (name->0)@ == "LIBINPUT_FUZZ_00"@,
        code == ABS_Y ==> (name->0)@ == "LIBINPUT_FUZZ_01"@,
        code == ABS_MT_POSITION_X ==> (name->0)@ == "LIBINPUT_FUZZ_35"@,
        code == ABS_MT_POSITION_Y ==> (name->0)@ == "LIBINPUT_FUZZ_36"@,
{
    if code == ABS_X {
        Some("LIBINPUT_FUZZ_00")
    } else if code == ABS_Y {
        Some("LIBINPUT_FUZZ_01")
    } else if code == ABS_MT_POSITION_X {
        Some("LIBINPUT_FUZZ_35")
    } else if code == ABS_MT_POSITION_Y {
        Some("LIBINPUT_FUZZ_36")
    } else {
        None
    }
}

/// The property that describes an axis whose fuzz is handed on.
pub fn axis_property(code: u16) -> (name: Option<&'static str>)
    ensures
        name is Some <==> is_fuzz_axis_spec(code),
        code == ABS_X ==> (name->0)@ == "EVDEV_ABS_00"@,
        code == ABS_Y ==> (name->0)@ == "EVDEV_ABS_01"@,
        code == ABS_MT_POSITION_X ==> (name->0)@ == "EVDEV_ABS_35"@,
        code == ABS_MT_POSITION_Y ==> (name->0)@ == "EVDEV_ABS_36"@,
{
    if code == ABS_X {
        Some("EVDEV_ABS_00")
    } else if code == ABS_Y {
        Some("EVDEV_ABS_01")
    } else if code == ABS_MT_POSITION_X {
        Some("EVDEV_ABS_35")
    } else if code == ABS_MT_POSITION_Y {
        Some("EVDEV_ABS_36")
    } else {
        None
    }
}

/// The fuzz in a description of an axis: the fourth of the fields between
/// colons.
pub fn parse_evdev_abs_fuzz(value: &str) -> (fuzz: Option<i32>)
    ensures
        ({
            let fields = parts(value@, ':');
            let field = fields[3];
            match fuzz {
                Some(fuzz) => fields.len() > 3 && parsed(
                    field,
                    10,
                    true,
                    i32::MIN as int,
                    i32::MAX as int,
                ) == Some(fuzz as int),
                None => fields.len() <= 3 || parsed(
                    field,
                    10,
                    true,
                    i32::MIN as int,
                    i32::MAX as int,
                ) is None,
            }
        }),
{
    let chars = letters(value);
    let fields = split(chars.as_slice(), ':');
    assert(texts(fields@).len() == fields.len());
    if fields.len() <= 3 {
        return None;
    }
    assert(fields@[3]@ == texts(fields@)[3]);
    parse_i32(fields[3])
}

/// What is to be done with the fuzz of an axis that is to become `wanted`;
/// `known` is its fuzz now, if the device has the axis at all.
pub fn fuzz_needs_change(known: Option<i32>, wanted: i32) -> (change: bool)
    ensures
        change == (known is Some && known->0 != wanted),
{
    match known {
        Some(fuzz) => fuzz != wanted,
        None => false,
    }
}

// ---------------------------------------------------------------------------
// Device groups
// ---------------------------------------------------------------------------
pub open spec fn is_graphic(c: char) -> bool {
    0x21 <= c as u32 <= 0x7e
}

/// A text in which everything but visible ASCII is replaced by underscores.
pub open spec fn sanitized(text: Seq<char>) -> Seq<char> {
    Seq::new(
        text.len(),
        |i: int|
            if is_graphic(text[i]) {
                text[i]
            } else {
                '_'
            },
    )
}

pub fn sanitize(value: &str) -> (out: String)
    ensures
        out@ == sanitized(value@),
{
    let chars = letters(value);
    let mut out = String::new();
    let mut i: usize = 0;
    while i < chars.len()
        invariant
            i <= chars.len(),
            chars@ == value@,
            out@ == sanitized(value@).take(i as int),
        decreases chars.len() - i,
    {
        let c = chars[i];
        let code: u32 = c as u32;
        let kept = if 0x21 <= code && code <= 0x7e {
            c
        } else {
            '_'
        };
        proof {
            assert(sanitized(value@).take(i + 1) =~= sanitized(value@).take(i as int).push(kept));
        }
        out.push(kept);
        i += 1;
    }
    assert(sanitized(value@).take(i as int) =~= sanitized(value@));
    out
}

/// The numbers in a product description, if all of its fields are
/// hexadecimal numbers.
pub open spec fn product_number(field: Seq<char>) -> Option<int> {
    parsed(field, 16, false, 0, u32::MAX as int)
}

/// Whether a product is described by four numbers: bus, vendor, product and
/// version.
pub open spec fn is_numbered(product: Seq<char>) -> bool {
    let fields = parts(product, '/');
    fields.len() == 4 && forall|i: int| 0 <= i < 4 ==> product_number(#[trigger] fields[i]) is Some
}

/// The beginning of a group's name: bus, vendor and product without leading
/// zeros, or the product description as it stands.
pub open spec fn is_group_product(text: Seq<char>, product: Seq<char>) -> bool {
    if is_numbered(product) {
        let fields = parts(product, '/');
        exists|a: Seq<char>, b: Seq<char>, c: Seq<char>| #[trigger]
            is_hexadecimal(a, product_number(fields[0])->0) && #[trigger] is_hexadecimal(
                b,
                product_number(fields[1])->0,
            ) && #[trigger] is_hexadecimal(c, product_number(fields[2])->0) && text == a + seq!['/']
                + b + seq!['/'] + c
    } else {
        text == product
    }
}

/// A name without the part that tells the inputs of one device apart: from
/// the first `/input` on, and from the last dot on if no dash follows it.
pub open spec fn without_port(name: Seq<char>) -> Seq<char> {
    let name = name.take(part_place(name, "/input"@, 0));
    let dot = last_place(name, '.', name.len() as int);
    let dash = last_place(name, '-', name.len() as int);
    if dot is Some && dash is Some && dot->0 > dash->0 {
        name.take(dot->0)
    } else {
        name
    }
}

fn numbered_product(product: &str) -> (text: Option<String>)
    ensures
        text is Some <==> is_numbered(product@),
        text matches Some(text) ==> is_group_product(text@, product@),
{
    let chars = letters(product);
    let fields = split(chars.as_slice(), '/');
    proof {
        assert(texts(fields@).len() == fields.len());
        if fields.len() == 4 {
            assert(fields@[0]@ == texts(fields@)[0]);
            assert(fields@[1]@ == texts(fields@)[1]);
            assert(fields@[2]@ == texts(fields@)[2]);
            assert(fields@[3]@ == texts(fields@)[3]);
        }
    }
    if fields.len() != 4 {
        return None;
    }
    let bus = parse_unsigned(fields[0], 16, u32::MAX as u64);
    let vendor = parse_unsigned(fields[1], 16, u32::MAX as u64);
    let model = parse_unsigned(fields[2], 16, u32::MAX as u64);
    let version = parse_unsigned(fields[3], 16, u32::MAX as u64);
    if let (Some(bus), Some(vendor), Some(model), Some(_)) = (bus, vendor, model, version) {
        let a = hexadecimal(bus);
        let b = hexadecimal(vendor);
        let c = hexadecimal(model);
        let mut text = String::new();
        text.append(a.as_str());
        text.push('/');
        text.append(b.as_str());
        text.push('/');
        text.append(c.as_str());
        proof {
            assert(text@ =~= a@ + seq!['/'] + b@ + seq!['/'] + c@);
            assert(forall|i: int|
                0 <= i < 4 ==> product_number(#[trigger] texts(fields@)[i]) is Some);
            assert(is_hexadecimal(a@, product_number(texts(fields@)[0])->0));
            assert(is_hexadecimal(b@, product_number(texts(fields@)[1])->0));
            assert(is_hexadecimal(c@, product_number(texts(fields@)[2])->0));
        }
        Some(text)
    } else {
        None
    }
}

pub open spec fn product_text(product: Option<&str>) -> Seq<char> {
    match product {
        Some(product) => product@,
        None => "00/00/00/00"@,
    }
}

/// Whether `group` names the group of a product at a place on the bus.
pub open spec fn is_group(group: Seq<char>, product: Seq<char>, phys: Seq<char>) -> bool {
    exists|head: Seq<char>| #[trigger]
        is_group_product(head, product) && group == without_port(
            head + seq![':'] + sanitized(phys),
        )
}

/// The group that a device belongs to: devices with the same product and the
/// same place on the bus belong together. Without a product description the
/// product counts as all zeros.
pub fn device_group(product: Option<&str>, phys: &str) -> (group: String)
    ensures
        is_group(group@, product_text(product), phys@),
{
    let described: &str = match product {
        Some(product) => product,
        None => "00/00/00/00",
    };
    let mut name = match numbered_product(described) {
        Some(text) => text,
        None => string_of(letters(described).as_slice()),
    };
    let ghost head = name@;
    name.push(':');
    let port = sanitize(phys);
    name.append(port.as_str());
    assert(name@ =~= head + seq![':'] + sanitized(phys@));
    let chars = letters(name.as_str());
    let end: usize = find_text(chars.as_slice(), "/input");
    let whole = vstd::slice::slice_subrange(chars.as_slice(), 0, end);
    proof {
        assert(whole@ =~= name@.take(end as int));
    }
    let dot = find_last(whole, '.');
    let dash = find_last(whole, '-');
    let mut cut: usize = whole.len();
    if let (Some(dot), Some(dash)) = (dot, dash) {
        if dot > dash {
            cut = dot;
        }
    }
    let out = vstd::slice::slice_subrange(whole, 0, cut);
    proof {
        assert(whole@.subrange(0, cut as int) =~= whole@.take(cut as int));
        assert(whole@.take(whole@.len() as int) =~= whole@);
        assert(out@ == without_port(name@));
        assert(is_group_product(head, described@));
    }
    string_of(out)
}

} // verus!
