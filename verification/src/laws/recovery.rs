//! The recovery of controllers, and the groups that devices belong to.
use vstd::prelude::*;
use crate::elan_recover::{
    is_affected, is_i2c_id, request_from, Action, Failure, Goal, OptionsView, Outcome, RequestView,
    Stage,
};
use crate::laws::texts::{
    law_halves_make_the_text, law_the_first_place_is_the_first, law_the_last_place_is_the_last,
};
use crate::text::{begins, trimmed};
use crate::udev_callout::{is_fuzz_axis_spec, sanitized, without_port};

verus! {

/// What is written and waited for, step by step: the driver lets go of the
/// device and takes it again, and each step is seen to have happened before
/// the next.
pub proof fn law_recovery_unbinds_and_binds(now: u64)
    requires
        now <= u64::MAX - 3_000_000_000,
    ensures
        ({
            let unbinding = Stage::Unbinding;
            let let_go = unbinding.after(Outcome::Succeeded, now);
            let settling = let_go.after(Outcome::Succeeded, now);
            let binding = settling.after(Outcome::Slept, now);
            let taken = binding.after(Outcome::Succeeded, now);
            let nodes = taken.after(Outcome::Succeeded, now);
            let done = nodes.after(Outcome::Succeeded, now);
            &&& unbinding.due() == Action::WriteUnbind
            &&& let_go.due() == Action::Look(Goal::Unbound)
            &&& let_go is Waiting && let_go->deadline == now + 1_000_000_000 && !let_go->last
            &&& settling.due() == Action::Sleep(100_000_000)
            &&& binding.due() == Action::WriteBind
            &&& taken.due() == Action::Look(Goal::Bound)
            &&& taken is Waiting && taken->deadline == now + 3_000_000_000 && !taken->last
            &&& nodes.due() == Action::Look(Goal::Nodes)
            &&& nodes is Waiting && nodes->deadline == now + 3_000_000_000 && !nodes->last
            &&& done == Stage::Done && done.due() == Action::Stop
        }),
{
}

/// The driver is offered the device five times at most, with a longer pause
/// each time.
pub proof fn law_binding_is_tried_again(now: u64, attempt: u8)
    requires
        attempt < 5,
    ensures
        ({
            let failed = Stage::Binding { attempt }.after(Outcome::Failed, now);
            &&& attempt == 4 ==> failed == Stage::Failed(Failure::Bind) && failed.due()
                == Action::Stop
            &&& attempt < 4 ==> failed.after(Outcome::Slept, now) == (Stage::Binding {
                attempt: (attempt + 1) as u8,
            })
            &&& attempt == 0 ==> failed.due() == Action::Sleep(100_000_000)
            &&& attempt == 1 ==> failed.due() == Action::Sleep(250_000_000)
            &&& attempt == 2 ==> failed.due() == Action::Sleep(500_000_000)
            &&& attempt == 3 ==> failed.due() == Action::Sleep(1_000_000_000)
        }),
{
}

/// A look in vain is followed by a pause of 20 milliseconds and another look,
/// until time is up; the last look in vain ends the recovery.
pub proof fn law_looks_are_repeated(goal: Goal, deadline: u64, now: u64)
    ensures
        ({
            let waiting = Stage::Waiting { goal, deadline, last: false };
            let last = Stage::Waiting { goal, deadline, last: true };
            &&& waiting.after(Outcome::Failed, now) == waiting
            &&& waiting.action_after(Outcome::Failed, now) == Action::Sleep(20_000_000)
            &&& now < deadline ==> waiting.after(Outcome::Slept, now) == waiting
            &&& now >= deadline ==> waiting.after(Outcome::Slept, now) == last
            &&& waiting.action_after(Outcome::Slept, now) == Action::Look(goal)
            &&& last.after(Outcome::Failed, now) == Stage::Failed(Failure::TimedOut)
            &&& last.action_after(Outcome::Failed, now) == Action::Stop
        }),
{
}

/// A device that was not let go of is not offered again.
pub proof fn law_unbinding_must_succeed(now: u64)
    ensures
        Stage::Unbinding.after(Outcome::Failed, now) == Stage::Failed(Failure::Unbind),
        Stage::Unbinding.action_after(Outcome::Failed, now) == Action::Stop,
{
}

/// The name of a device on an I2C bus is decimal digits, a dash and four
/// hexadecimal digits.
pub proof fn law_i2c_names_have_bus_and_address(bus: Seq<char>, address: Seq<char>)
    requires
        !bus.contains('-'),
    ensures
        is_i2c_id(bus + seq!['-'] + address) <==> {
            &&& bus.len() > 0
            &&& forall|i: int| 0 <= i < bus.len() ==> '0' <= #[trigger] bus[i] <= '9'
            &&& address.len() == 4
            &&& forall|i: int|
                0 <= i < address.len() ==> '0' <= #[trigger] address[i] <= '9' || 'a' <= address[i]
                    <= 'f' || 'A' <= address[i] <= 'F'
        },
{
    let id = bus + seq!['-'] + address;
    law_halves_make_the_text(id, '-');
    assert(id[bus.len() as int] == '-');
    assert(id.contains('-'));
    let halves = crate::text::halves(id, '-');
    match halves {
        Some((first, second)) => {
            assert(first == bus) by {
                if first.len() < bus.len() {
                    assert(id[first.len() as int] == '-');
                    assert(bus[first.len() as int] == '-');
                }
                if first.len() > bus.len() {
                    assert(first[bus.len() as int] == id[bus.len() as int]);
                    assert(first.contains('-'));
                }
                assert(first =~= id.take(bus.len() as int));
                assert(bus =~= id.take(bus.len() as int));
            }
            assert(second =~= id.skip(bus.len() + 1int));
            assert(address =~= id.skip(bus.len() + 1int));
            assert(forall|i: int|
                0 <= i < bus.len() ==> (crate::nodes::is_digit(#[trigger] bus[i]) <==> '0' <= bus[i]
                    <= '9'));
        },
        None => {},
    }
}

/// Only the P53 of one maker needs the recovery, and only where both names are
/// known.
pub proof fn law_few_machines_are_affected(vendor: Option<Seq<char>>, version: Option<Seq<char>>)
    ensures
        is_affected(vendor, version) <==> vendor is Some && version is Some && trimmed(vendor->0)
            == "LENOVO"@ && begins(trimmed(version->0), "ThinkPad P53"@),
        is_affected(vendor, version) ==> vendor is Some && version is Some,
{
}

/// In a group's name everything but visible ASCII is an underscore; the length
/// stays.
pub proof fn law_names_are_made_visible(text: Seq<char>, i: int)
    requires
        0 <= i < text.len(),
    ensures
        sanitized(text).len() == text.len(),
        0x21 <= sanitized(text)[i] as u32 <= 0x7e,
        0x21 <= text[i] as u32 <= 0x7e ==> sanitized(text)[i] == text[i],
        !(0x21 <= text[i] as u32 <= 0x7e) ==> sanitized(text)[i] == '_',
{
}

/// What tells the inputs of one device apart is cut off: nothing from the first
/// `/input` on is left, and nothing from the last dot on unless a dash follows
/// it. What is left is how the name begins.
pub proof fn law_inputs_of_a_device_share_its_name(name: Seq<char>)
    ensures
        ({
            let cut = without_port(name);
            &&& cut.len() <= name.len() && cut == name.take(cut.len() as int)
            &&& cut.len() <= crate::text::part_place(name, "/input"@, 0)
        }),
{
    law_the_first_place_is_the_first(name, "/input"@, 0);
    let at = crate::text::part_place(name, "/input"@, 0);
    let head = name.take(at);
    law_the_last_place_is_the_last(head, '.', head.len() as int);
    law_the_last_place_is_the_last(head, '-', head.len() as int);
    let cut = without_port(name);
    assert(cut =~= name.take(cut.len() as int));
}

/// Two inputs of one device, which differ only behind `/input`, get one name.
pub proof fn law_ports_do_not_matter(device: Seq<char>, a: Seq<char>, b: Seq<char>)
    requires
        forall|i: int|
            0 <= i < device.len() ==> !#[trigger] crate::text::found_at(
                device + "/input"@ + a,
                "/input"@,
                i,
            ),
        forall|i: int|
            0 <= i < device.len() ==> !#[trigger] crate::text::found_at(
                device + "/input"@ + b,
                "/input"@,
                i,
            ),
    ensures
        without_port(device + "/input"@ + a) == without_port(device + "/input"@ + b),
{
    reveal_strlit("/input");
    lemma_cut(device, a);
    lemma_cut(device, b);
}

proof fn lemma_cut(device: Seq<char>, port: Seq<char>)
    requires
        "/input"@.len() == 6,
        forall|i: int|
            0 <= i < device.len() ==> !#[trigger] crate::text::found_at(
                device + "/input"@ + port,
                "/input"@,
                i,
            ),
    ensures
        crate::text::part_place(device + "/input"@ + port, "/input"@, 0) == device.len(),
        (device + "/input"@ + port).take(device.len() as int) == device,
{
    let whole = device + "/input"@ + port;
    law_the_first_place_is_the_first(whole, "/input"@, 0);
    assert(whole.subrange(device.len() as int, device.len() + 6int) =~= "/input"@);
    assert(crate::text::found_at(whole, "/input"@, device.len() as int));
    assert(whole.take(device.len() as int) =~= device);
}

/// A product is numbered if its description is four hexadecimal numbers without
/// signs between slashes.
pub proof fn law_products_have_four_numbers(product: Seq<char>)
    ensures
        ({
            let fields = crate::text::parts(product, '/');
            crate::udev_callout::is_numbered(product) <==> {
                &&& fields.len() == 4
                &&& crate::text::parsed(fields[0], 16, false, 0, 0xffff_ffff) is Some
                &&& crate::text::parsed(fields[1], 16, false, 0, 0xffff_ffff) is Some
                &&& crate::text::parsed(fields[2], 16, false, 0, 0xffff_ffff) is Some
                &&& crate::text::parsed(fields[3], 16, false, 0, 0xffff_ffff) is Some
            }
        }),
{
    let fields = crate::text::parts(product, '/');
    if crate::udev_callout::is_numbered(product) {
        assert(crate::udev_callout::product_number(fields[0]) is Some);
        assert(crate::udev_callout::product_number(fields[1]) is Some);
        assert(crate::udev_callout::product_number(fields[2]) is Some);
        assert(crate::udev_callout::product_number(fields[3]) is Some);
    }
}

/// The coordinates carry a tolerance, of the device and of its contacts.
pub proof fn law_coordinates_carry_tolerance(code: u16)
    ensures
        is_fuzz_axis_spec(code) <==> code == 0 || code == 1 || code == 0x35 || code == 0x36,
{
}

/// The last argument asks for what it says.
pub proof fn law_options_are_what_they_say(args: Seq<Option<String>>, options: OptionsView)
    requires
        args.len() > 0,
        args.last() is Some,
    ensures
        ({
            let last = (args.last()->0)@;
            let asked = request_from(args, args.len() - 1, options);
            &&& last == "--help"@ ==> asked is Help
            &&& last == "-h"@ ==> asked is Help
            &&& last == "--device"@ ==> asked is MissingDevice
            &&& last == "--all"@ ==> asked == RequestView::Run(options)
            &&& last == "--quiet"@ ==> asked == RequestView::Run(
                OptionsView { quiet: true, ..options },
            )
            &&& last == "--affected-only"@ ==> asked == RequestView::Run(
                OptionsView { affected_only: true, ..options },
            )
        }),
{
    reveal_with_fuel(request_from, 2);
    reveal_strlit("--help");
    reveal_strlit("-h");
    reveal_strlit("--device");
    reveal_strlit("--all");
    reveal_strlit("--quiet");
    reveal_strlit("--affected-only");
    assert("--help"@.len() == 6);
    assert("-h"@.len() == 2);
    assert("--device"@.len() == 8);
    assert("--all"@.len() == 5);
    assert("--quiet"@.len() == 7);
    assert("--affected-only"@.len() == 15);
}

/// Each device that is asked for is kept, in turn.
pub proof fn law_requested_devices_are_kept(
    args: Seq<Option<String>>,
    options: OptionsView,
    at: int,
)
    requires
        0 <= at,
        at + 2 == args.len(),
        args[at] is Some && args[at + 1] is Some,
        (args[at]->0)@ == "--device"@,
    ensures
        request_from(args, at, options) == RequestView::Run(
            OptionsView { requested: options.requested.push((args[at + 1]->0)@), ..options },
        ),
{
    reveal_with_fuel(request_from, 2);
    reveal_strlit("--help");
    reveal_strlit("-h");
    reveal_strlit("--device");
    assert("--help"@.len() == 6);
    assert("-h"@.len() == 2);
    assert("--device"@.len() == 8);
}

} // verus!
