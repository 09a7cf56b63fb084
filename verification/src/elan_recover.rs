//! Narrow recovery support for ELAN I2C controllers that stop reporting: the
//! kernel driver is unbound from the device and bound to it again.
use vstd::prelude::*;
use crate::clock::{later, later_spec, MILLISECOND, SECOND};
use crate::nodes::{all_decimal, in_order, insert_name, names, only_digits};
use crate::text::{begins, begins_with, equal, halves, letters, same_text, split_once, trim, trimmed};

verus! {

/// A device that works again, and the event nodes it came back with.
pub struct RecoveredDevice {
    pub id: String,
    pub event_nodes: Vec<String>,
}

pub open spec fn is_hex_digit(c: char) -> bool {
    '0' <= c <= '9' || 'a' <= c <= 'f' || 'A' <= c <= 'F'
}

pub open spec fn all_hex(text: Seq<char>) -> bool {
    forall|i: int| 0 <= i < text.len() ==> is_hex_digit(#[trigger] text[i])
}

fn only_hex(text: &[char]) -> (only: bool)
    ensures
        only == all_hex(text@),
{
    let mut i: usize = 0;
    while i < text.len()
        invariant
            i <= text.len(),
            forall|j: int| 0 <= j < i ==> is_hex_digit(#[trigger] text@[j]),
        decreases text.len() - i,
    {
        let c = text[i];
        if !(('0' <= c && c <= '9') || ('a' <= c && c <= 'f') || ('A' <= c && c <= 'F')) {
            assert(!is_hex_digit(text@[i as int]));
            return false;
        }
        i += 1;
    }
    true
}

/// An I2C device's name: the number of its bus, a dash, and its address in
/// four hexadecimal digits.
pub open spec fn is_i2c_id(id: Seq<char>) -> bool {
    match halves(id, '-') {
        Some((bus, address)) => bus.len() > 0 && all_decimal(bus) && address.len() == 4 && all_hex(
            address,
        ),
        None => false,
    }
}

pub fn valid_i2c_id(id: &str) -> (valid: bool)
    ensures
        valid == is_i2c_id(id@),
{
    let chars = letters(id);
    match split_once(chars.as_slice(), '-') {
        Some((bus, address)) => bus.len() > 0 && only_digits(bus) && address.len() == 4
            && only_hex(address),
        None => false,
    }
}

/// Whether one of the first `n` entries has a name, and the driver has the
/// device of that name.
pub open spec fn is_bound(
    entries: Seq<Seq<char>>,
    uses_driver: Seq<bool>,
    n: int,
    id: Seq<char>,
) -> bool {
    exists|i: int| 0 <= i < n && #[trigger] entries[i] == id && uses_driver[i]
}

/// The controllers among the entries of the driver's directory, in order:
/// those that are named as I2C devices are and that the driver has.
pub fn bound_controllers(entries: &Vec<String>, uses_driver: &Vec<bool>) -> (out: Vec<String>)
    requires
        entries.len() == uses_driver.len(),
    ensures
        in_order(names(out@)),
        forall|id: Seq<char>| #[trigger]
            names(out@).contains(id) <==> is_i2c_id(id) && is_bound(
                names(entries@),
                uses_driver@,
                entries@.len() as int,
                id,
            ),
{
    let mut out: Vec<String> = Vec::new();
    let mut i: usize = 0;
    while i < entries.len()
        invariant
            i <= entries.len() == uses_driver.len(),
            in_order(names(out@)),
            forall|id: Seq<char>| #[trigger]
                names(out@).contains(id) <==> is_i2c_id(id) && is_bound(
                    names(entries@),
                    uses_driver@,
                    i as int,
                    id,
                ),
        decreases entries.len() - i,
    {
        let ghost all = names(entries@);
        assert(all[i as int] == entries@[i as int]@);
        assert forall|id: Seq<char>| #[trigger]
            is_bound(all, uses_driver@, i + 1, id) <==> is_bound(all, uses_driver@, i as int, id)
                || (id == all[i as int] && uses_driver@[i as int]) by {
            if is_bound(all, uses_driver@, i as int, id) {
                let j = choose|j: int|
                    0 <= j < i && #[trigger] all[j] == id && uses_driver@[j];
                assert(all[j] == id);
            }
        }
        if valid_i2c_id(entries[i].as_str()) && uses_driver[i] {
            insert_name(&mut out, entries[i].clone());
        }
        i += 1;
    }
    out
}

/// Whether firmware tables describe a machine that is known to need the
/// recovery. Without the tables it does not.
pub open spec fn is_affected(vendor: Option<Seq<char>>, version: Option<Seq<char>>) -> bool {
    &&& vendor is Some && trimmed(vendor->0) == "LENOVO"@
    &&& version is Some && begins(trimmed(version->0), "ThinkPad P53"@)
}

pub open spec fn text_of(text: Option<&str>) -> Option<Seq<char>> {
    match text {
        Some(text) => Some(text@),
        None => None,
    }
}

pub fn affected_thinkpad_p53(vendor: Option<&str>, version: Option<&str>) -> (affected: bool)
    ensures
        affected == is_affected(text_of(vendor), text_of(version)),
{
    if let (Some(vendor), Some(version)) = (vendor, version) {
        let maker = letters(vendor);
        let model = letters(version);
        same_text(trim(maker.as_slice()), "LENOVO") && begins_with(
            trim(model.as_slice()),
            "ThinkPad P53",
        )
    } else {
        false
    }
}

// ---------------------------------------------------------------------------
// Recovery
// ---------------------------------------------------------------------------
/// How often the driver is offered the device again.
pub const BIND_ATTEMPTS: u8 = 5;

/// The driver must let go of the device within this time.
pub const UNBIND_TIMEOUT: u64 = SECOND;

/// The driver must take the device, and its nodes must appear, within this
/// time each.
pub const BIND_TIMEOUT: u64 = 3 * SECOND;

/// The pause between two looks at the device.
pub const POLL_INTERVAL: u64 = 20 * MILLISECOND;

/// The pause between letting go and taking again.
pub const SETTLE_TIME: u64 = 100 * MILLISECOND;

/// What is waited for.
#[derive(Clone, Copy, Debug, PartialEq, Eq, Structural)]
pub enum Goal {
    Unbound,
    Bound,
    Nodes,
}

#[derive(Clone, Copy, Debug, PartialEq, Eq, Structural)]
pub enum Failure {
    /// The name is not that of an I2C device.
    InvalidName,
    /// The device belongs to another driver.
    NotOurs,
    /// The driver did not let go of the device.
    Unbind,
    /// The driver did not take the device again.
    Bind,
    /// What was waited for did not happen in time.
    TimedOut,
}

/// How far a recovery has come.
#[derive(Clone, Copy, Debug, PartialEq, Eq, Structural)]
pub enum Stage {
    /// The driver is asked to let go.
    Unbinding,
    /// Something is waited for. `last` says that time is up after the next
    /// look.
    Waiting { goal: Goal, deadline: u64, last: bool },
    /// The device rests before it is offered again.
    Settling,
    /// The driver is asked to take the device, for the `attempt`th time.
    Binding { attempt: u8 },
    /// The device rests before the `attempt`th try.
    Retrying { attempt: u8 },
    Done,
    Failed(Failure),
}

/// What the caller does next.
#[derive(Clone, Copy, Debug, PartialEq, Eq, Structural)]
pub enum Action {
    /// Write the device's name to the driver's `unbind` file.
    WriteUnbind,
    /// Write the device's name to the driver's `bind` file.
    WriteBind,
    /// See whether the goal is reached.
    Look(Goal),
    Sleep(u64),
    Stop,
}

/// What happened: a write or a look succeeded or not, or a pause is over.
#[derive(Clone, Copy, Debug, PartialEq, Eq, Structural)]
pub enum Outcome {
    Succeeded,
    Failed,
    Slept,
}

/// The pause before an attempt to bind.
pub open spec fn bind_delay_spec(attempt: u8) -> u64 {
    if attempt == 1 {
        (100 * MILLISECOND) as u64
    } else if attempt == 2 {
        (250 * MILLISECOND) as u64
    } else if attempt == 3 {
        (500 * MILLISECOND) as u64
    } else {
        SECOND
    }
}

fn bind_delay(attempt: u8) -> (delay: u64)
    ensures
        delay == bind_delay_spec(attempt),
{
    if attempt == 1 {
        100 * MILLISECOND
    } else if attempt == 2 {
        250 * MILLISECOND
    } else if attempt == 3 {
        500 * MILLISECOND
    } else {
        SECOND
    }
}

impl Stage {
    /// What is to be done in a stage.
    pub open spec fn due(self) -> Action {
        match self {
            Stage::Unbinding => Action::WriteUnbind,
            Stage::Waiting { goal, .. } => Action::Look(goal),
            Stage::Settling => Action::Sleep(SETTLE_TIME),
            Stage::Binding { .. } => Action::WriteBind,
            Stage::Retrying { attempt } => Action::Sleep(bind_delay_spec(attempt)),
            Stage::Done => Action::Stop,
            Stage::Failed(_) => Action::Stop,
        }
    }

    pub open spec fn reached(goal: Goal, now: u64) -> Stage {
        match goal {
            Goal::Unbound => Stage::Settling,
            Goal::Bound => Stage::Waiting {
                goal: Goal::Nodes,
                deadline: later_spec(now, BIND_TIMEOUT),
                last: false,
            },
            Goal::Nodes => Stage::Done,
        }
    }

    /// The stage after what was due has happened.
    pub open spec fn after(self, outcome: Outcome, now: u64) -> Stage {
        match self {
            Stage::Unbinding => if outcome == Outcome::Succeeded {
                Stage::Waiting {
                    goal: Goal::Unbound,
                    deadline: later_spec(now, UNBIND_TIMEOUT),
                    last: false,
                }
            } else {
                Stage::Failed(Failure::Unbind)
            },
            Stage::Waiting { goal, deadline, last } => match outcome {
                Outcome::Succeeded => Stage::reached(goal, now),
                Outcome::Failed => if last {
                    Stage::Failed(Failure::TimedOut)
                } else {
                    self
                },
                Outcome::Slept => Stage::Waiting { goal, deadline, last: now >= deadline },
            },
            Stage::Settling => Stage::Binding { attempt: 0 },
            Stage::Binding { attempt } => if outcome == Outcome::Succeeded {
                Stage::Waiting {
                    goal: Goal::Bound,
                    deadline: later_spec(now, BIND_TIMEOUT),
                    last: false,
                }
            } else if attempt + 1 < BIND_ATTEMPTS {
                Stage::Retrying { attempt: (attempt + 1) as u8 }
            } else {
                Stage::Failed(Failure::Bind)
            },
            Stage::Retrying { attempt } => Stage::Binding { attempt },
            Stage::Done => self,
            Stage::Failed(_) => self,
        }
    }

    /// What to do next: after a look in vain there is a pause, unless time is
    /// up.
    pub open spec fn action_after(self, outcome: Outcome, now: u64) -> Action {
        match self {
            Stage::Waiting { last: false, .. } => if outcome == Outcome::Failed {
                Action::Sleep(POLL_INTERVAL)
            } else {
                self.after(outcome, now).due()
            },
            _ => self.after(outcome, now).due(),
        }
    }

    fn what_is_due(self) -> (action: Action)
        ensures
            action == self.due(),
    {
        match self {
            Stage::Unbinding => Action::WriteUnbind,
            Stage::Waiting { goal, .. } => Action::Look(goal),
            Stage::Settling => Action::Sleep(SETTLE_TIME),
            Stage::Binding { .. } => Action::WriteBind,
            Stage::Retrying { attempt } => Action::Sleep(bind_delay(attempt)),
            Stage::Done => Action::Stop,
            Stage::Failed(_) => Action::Stop,
        }
    }

    fn goal_reached(goal: Goal, now: u64) -> (stage: Stage)
        ensures
            stage == Stage::reached(goal, now),
    {
        match goal {
            Goal::Unbound => Stage::Settling,
            Goal::Bound => Stage::Waiting {
                goal: Goal::Nodes,
                deadline: later(now, BIND_TIMEOUT),
                last: false,
            },
            Goal::Nodes => Stage::Done,
        }
    }

    fn advance(self, outcome: Outcome, now: u64) -> (stage: Stage)
        requires
            self matches Stage::Binding { attempt } ==> attempt < BIND_ATTEMPTS,
        ensures
            stage == self.after(outcome, now),
    {
        let succeeded = match outcome {
            Outcome::Succeeded => true,
            _ => false,
        };
        match self {
            Stage::Unbinding => if succeeded {
                Stage::Waiting {
                    goal: Goal::Unbound,
                    deadline: later(now, UNBIND_TIMEOUT),
                    last: false,
                }
            } else {
                Stage::Failed(Failure::Unbind)
            },
            Stage::Waiting { goal, deadline, last } => match outcome {
                Outcome::Succeeded => Stage::goal_reached(goal, now),
                Outcome::Failed => if last {
                    Stage::Failed(Failure::TimedOut)
                } else {
                    self
                },
                Outcome::Slept => Stage::Waiting { goal, deadline, last: now >= deadline },
            },
            Stage::Settling => Stage::Binding { attempt: 0 },
            Stage::Binding { attempt } => if succeeded {
                Stage::Waiting {
                    goal: Goal::Bound,
                    deadline: later(now, BIND_TIMEOUT),
                    last: false,
                }
            } else if attempt + 1 < BIND_ATTEMPTS {
                Stage::Retrying { attempt: attempt + 1 }
            } else {
                Stage::Failed(Failure::Bind)
            },
            Stage::Retrying { attempt } => Stage::Binding { attempt },
            Stage::Done => self,
            Stage::Failed(_) => self,
        }
    }

    /// Attempts to bind stay within their number.
    pub open spec fn wf(self) -> bool {
        match self {
            Stage::Binding { attempt } => attempt < BIND_ATTEMPTS,
            Stage::Retrying { attempt } => 1 <= attempt < BIND_ATTEMPTS,
            _ => true,
        }
    }

    /// Begins the recovery of a device, or refuses it: only devices that the
    /// driver has are recovered.
    pub fn begin(id: &str, uses_driver: bool) -> (r: (Stage, Action))
        ensures
            r.0.wf(),
            r.1 == r.0.due(),
            r.0 == (if !is_i2c_id(id@) {
                Stage::Failed(Failure::InvalidName)
            } else if !uses_driver {
                Stage::Failed(Failure::NotOurs)
            } else {
                Stage::Unbinding
            }),
    {
        let stage = if !valid_i2c_id(id) {
            Stage::Failed(Failure::InvalidName)
        } else if !uses_driver {
            Stage::Failed(Failure::NotOurs)
        } else {
            Stage::Unbinding
        };
        (stage, stage.what_is_due())
    }

    /// Goes on once what was due has happened.
    pub fn recover(self, outcome: Outcome, now: u64) -> (r: (Stage, Action))
        requires
            self.wf(),
        ensures
            r.0.wf(),
            r.0 == self.after(outcome, now),
            r.1 == self.action_after(outcome, now),
    {
        let stage = self.advance(outcome, now);
        let pause = match (self, outcome) {
            (Stage::Waiting { last, .. }, Outcome::Failed) => !last,
            _ => false,
        };
        if pause {
            (stage, Action::Sleep(POLL_INTERVAL))
        } else {
            (stage, stage.what_is_due())
        }
    }
}

/// Nothing is written for a device that the driver does not have, or whose
/// name is not that of an I2C device.
pub proof fn law_foreign_devices_are_left_alone(failure: Failure, outcome: Outcome, now: u64)
    ensures
        Stage::Failed(failure).after(outcome, now) == Stage::Failed(failure),
        Stage::Failed(failure).action_after(outcome, now) == Action::Stop,
{
}

/// A device is bound only after it was seen unbound, and recovered only after
/// its nodes were seen.
pub proof fn law_recovery_goes_in_order(stage: Stage, outcome: Outcome, now: u64)
    ensures
        stage.after(outcome, now) == Stage::Settling && stage != Stage::Settling ==> outcome
            == Outcome::Succeeded && stage.due() == Action::Look(Goal::Unbound),
        stage.after(outcome, now) == Stage::Done && stage != Stage::Done ==> outcome
            == Outcome::Succeeded && stage.due() == Action::Look(Goal::Nodes),
        stage.after(outcome, now) == Stage::Unbinding ==> false,
{
}

/// A wait whose time is up ends with the next look.
pub proof fn law_waits_end(goal: Goal, deadline: u64, now: u64, outcome: Outcome)
    requires
        outcome != Outcome::Slept,
        now >= deadline,
    ensures
        ({
            let slept = Stage::Waiting { goal, deadline, last: false }.after(Outcome::Slept, now);
            let looked = slept.after(outcome, now);
            &&& slept.due() == Action::Look(goal)
            &&& looked == (if outcome == Outcome::Succeeded {
                Stage::reached(goal, now)
            } else {
                Stage::Failed(Failure::TimedOut)
            })
        }),
{
}

// ---------------------------------------------------------------------------
// Command line
// ---------------------------------------------------------------------------
/// The devices that a user names, and what else is wanted.
pub struct RecoverOptions {
    pub requested: Vec<String>,
    pub affected_only: bool,
    pub quiet: bool,
}

/// What a command line asks for.
pub enum Request {
    Help,
    Run(RecoverOptions),
    /// `--device` without a device.
    MissingDevice,
    /// An option that is not known.
    Unknown(String),
    /// An argument that is not text.
    NotText,
}

/// The contents of `RecoverOptions`.
pub struct OptionsView {
    pub requested: Seq<Seq<char>>,
    pub affected_only: bool,
    pub quiet: bool,
}

/// The contents of `Request`.
pub enum RequestView {
    Help,
    Run(OptionsView),
    MissingDevice,
    Unknown(Seq<char>),
    NotText,
}

impl RecoverOptions {
    pub open spec fn contents(self) -> OptionsView {
        OptionsView {
            requested: crate::nodes::names(self.requested@),
            affected_only: self.affected_only,
            quiet: self.quiet,
        }
    }
}

impl Request {
    pub open spec fn contents(self) -> RequestView {
        match self {
            Request::Help => RequestView::Help,
            Request::Run(options) => RequestView::Run(options.contents()),
            Request::MissingDevice => RequestView::MissingDevice,
            Request::Unknown(option) => RequestView::Unknown(option@),
            Request::NotText => RequestView::NotText,
        }
    }
}

/// What the arguments from `from` on ask for, after `options`.
pub open spec fn request_from(
    args: Seq<Option<String>>,
    from: int,
    options: OptionsView,
) -> RequestView
    decreases args.len() - from,
{
    if from >= args.len() {
        RequestView::Run(options)
    } else {
        match args[from] {
            None => RequestView::NotText,
            Some(arg) => if arg@ == "--help"@ || arg@ == "-h"@ {
                RequestView::Help
            } else if arg@ == "--device"@ {
                if from + 1 < args.len() && args[from + 1] is Some {
                    request_from(
                        args,
                        from + 2,
                        OptionsView {
                            requested: options.requested.push((args[from + 1]->0)@),
                            ..options
                        },
                    )
                } else {
                    RequestView::MissingDevice
                }
            } else if arg@ == "--all"@ {
                request_from(args, from + 1, options)
            } else if arg@ == "--affected-only"@ {
                request_from(args, from + 1, OptionsView { affected_only: true, ..options })
            } else if arg@ == "--quiet"@ {
                request_from(args, from + 1, OptionsView { quiet: true, ..options })
            } else {
                RequestView::Unknown(arg@)
            },
        }
    }
}

/// Reads the arguments of `elan-recover`; an argument that is not text is
/// `None`.
pub fn parse_recover_options(args: &Vec<Option<String>>) -> (request: Request)
    ensures
        request.contents() == request_from(
            args@,
            0,
            OptionsView { requested: Seq::empty(), affected_only: false, quiet: false },
        ),
{
    let mut requested: Vec<String> = Vec::new();
    let mut affected_only = false;
    let mut quiet = false;
    let mut i: usize = 0;
    let ghost start = OptionsView {
        requested: Seq::empty(),
        affected_only: false,
        quiet: false,
    };
    assert(crate::nodes::names(requested@) =~= Seq::<Seq<char>>::empty());
    while i < args.len()
        invariant
            i <= args.len(),
            start == (OptionsView {
                requested: Seq::empty(),
                affected_only: false,
                quiet: false,
            }),
            request_from(args@, 0, start) == request_from(
                args@,
                i as int,
                OptionsView {
                    requested: crate::nodes::names(requested@),
                    affected_only,
                    quiet,
                },
            ),
        decreases args.len() - i,
    {
        match &args[i] {
            None => {
                return Request::NotText;
            },
            Some(arg) => {
                let arg: &str = arg.as_str();
                if equal(arg, "--help") || equal(arg, "-h") {
                    return Request::Help;
                }
                if equal(arg, "--device") {
                    if i + 1 >= args.len() {
                        return Request::MissingDevice;
                    }
                    match &args[i + 1] {
                        None => {
                            return Request::MissingDevice;
                        },
                        Some(id) => {
                            let ghost before = crate::nodes::names(requested@);
                            requested.push(id.clone());
                            assert(crate::nodes::names(requested@) =~= before.push(id@));
                        },
                    }
                    i += 2;
                } else if equal(arg, "--all") {
                    i += 1;
                } else if equal(arg, "--affected-only") {
                    affected_only = true;
                    i += 1;
                } else if equal(arg, "--quiet") {
                    quiet = true;
                    i += 1;
                } else {
                    return Request::Unknown(arg.to_owned());
                }
            },
        }
    }
    Request::Run(RecoverOptions { requested, affected_only, quiet })
}

/// What a run comes to.
#[derive(Clone, Copy, Debug, PartialEq, Eq, Structural)]
pub enum Plan {
    /// This machine does not need it.
    Nothing,
    /// The user may not do it.
    NeedsRoot,
    /// There is no device to recover.
    NoDevices,
    /// The devices that were named are recovered.
    RecoverRequested,
    /// Every device that was discovered is recovered.
    RecoverDiscovered,
}

/// Decides on a run: `discovered` counts the devices that the driver has.
pub fn plan_recovery(
    options: &RecoverOptions,
    affected: bool,
    is_root: bool,
    discovered: usize,
) -> (plan: Plan)
    ensures
        plan == (if options.affected_only && !affected {
            Plan::Nothing
        } else if !is_root {
            Plan::NeedsRoot
        } else if options.requested@.len() > 0 {
            Plan::RecoverRequested
        } else if discovered > 0 {
            Plan::RecoverDiscovered
        } else {
            Plan::NoDevices
        }),
{
    if options.affected_only && !affected {
        Plan::Nothing
    } else if !is_root {
        Plan::NeedsRoot
    } else if options.requested.len() > 0 {
        Plan::RecoverRequested
    } else if discovered > 0 {
        Plan::RecoverDiscovered
    } else {
        Plan::NoDevices
    }
}

} // verus!
