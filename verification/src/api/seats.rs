//! Seats, device groups and plugins, and what clients attach to them.
use vstd::prelude::*;
use crate::api::context::{byte_len, LibinputContext, EINVAL, ENOSYS, SEAT_NAME_MAX};
use crate::ffi_types::{DeviceId, LibinputDevice, LibinputDeviceGroup, LibinputSeat};
use crate::text::equal;

verus! {

// ---------------------------------------------------------------------------
// Changing the seat of a device
// ---------------------------------------------------------------------------
/// What becomes of a request to change a device's seat.
#[derive(Clone, Copy, Debug, PartialEq, Eq, Structural)]
pub enum SeatRequest {
    Refused,
    /// The device is in that seat already.
    Unchanged,
    /// The device is removed and opened again; its replacement then moves to
    /// this seat.
    Reopen(usize),
}

/// The first seat of these names from `from` on.
pub open spec fn seat_place(
    seats: Seq<LibinputSeat>,
    physical: Seq<char>,
    logical: Seq<char>,
    from: int,
) -> Option<int>
    decreases seats.len() - from,
{
    if from >= seats.len() {
        None
    } else if seats[from].physical_name@ == physical && seats[from].logical_name@ == logical {
        Some(from)
    } else {
        seat_place(seats, physical, logical, from + 1)
    }
}

fn find_seat(seats: &Vec<LibinputSeat>, physical: &str, logical: &str) -> (place: Option<usize>)
    ensures
        match place {
            Some(i) => i < seats@.len() && seat_place(seats@, physical@, logical@, 0) == Some(
                i as int,
            ),
            None => seat_place(seats@, physical@, logical@, 0) is None,
        },
{
    let mut i: usize = 0;
    while i < seats.len()
        invariant
            i <= seats@.len(),
            seat_place(seats@, physical@, logical@, 0) == seat_place(
                seats@,
                physical@,
                logical@,
                i as int,
            ),
        decreases seats.len() - i,
    {
        if equal(seats[i].physical_name.as_str(), physical) && equal(
            seats[i].logical_name.as_str(),
            logical,
        ) {
            return Some(i);
        }
        i += 1;
    }
    None
}

/// Whether a text can name a seat.
pub open spec fn names_seat(name: Seq<char>) -> bool {
    0 < byte_len(name) <= SEAT_NAME_MAX
}

impl LibinputContext {
    /// The seat that a device is in.
    pub open spec fn seat_of(self, device: DeviceId) -> LibinputSeat {
        self.seats@[self.registry@[device as int].seat as int]
    }

    /// What becomes of a request to move a device to a seat.
    pub open spec fn seat_request(self, device: DeviceId, name: Seq<char>) -> SeatRequest {
        if device >= self.registry@.len() || !names_seat(name) {
            SeatRequest::Refused
        } else if self.seat_of(device).logical_name@ == name {
            SeatRequest::Unchanged
        } else {
            match seat_place(self.seats@, self.seat_of(device).physical_name@, name, 0) {
                Some(i) => SeatRequest::Reopen(i as usize),
                None => SeatRequest::Reopen(self.seats@.len() as usize),
            }
        }
    }

    /// Asks for a device to be in another seat. A seat that is not there yet
    /// is made.
    pub fn libinput_device_set_seat_logical_name(
        &mut self,
        device: DeviceId,
        name: Option<&str>,
    ) -> (request: SeatRequest)
        requires
            old(self).wf(),
        ensures
            final(self).wf(),
            name is None ==> request == SeatRequest::Refused && *final(self) == *old(self),
            name matches Some(n) ==> {
                &&& request == old(self).seat_request(device, n@)
                &&& match request {
                    SeatRequest::Reopen(i) => if i < old(self).seats@.len() {
                        *final(self) == *old(self)
                    } else {
                        let made = final(self).seats@.last();
                        &&& final(self).seats@ == old(self).seats@.push(made)
                        &&& made.is_new(old(self).seat_of(device).physical_name@, n@)
                        &&& *final(self) == (LibinputContext {
                            seats: final(self).seats,
                            ..*old(self)
                        })
                    },
                    _ => *final(self) == *old(self),
                }
            },
    {
        let name: &str = match name {
            Some(name) => name,
            None => {
                return SeatRequest::Refused;
            },
        };
        let len: usize = name.as_bytes().len();
        if device >= self.registry.len() as u64 || len == 0 || len > SEAT_NAME_MAX {
            return SeatRequest::Refused;
        }
        assert(device < self.registry.len());
        let place: usize = device as usize;
        assert(self.registry@[place as int].id == place);
        let seat: usize = self.registry[place].seat;
        if equal(self.seats[seat].logical_name.as_str(), name) {
            return SeatRequest::Unchanged;
        }
        let physical = self.seats[seat].physical_name.as_str().to_owned();
        match find_seat(&self.seats, physical.as_str(), name) {
            Some(i) => SeatRequest::Reopen(i),
            None => {
                let made: usize = self.seats.len();
                self.seats.push(LibinputSeat::new(physical, name.to_owned()));
                SeatRequest::Reopen(made)
            },
        }
    }

    /// The seats once a reference passed from one to another.
    pub open spec fn seats_moved(self, from: int, to: int, after: Seq<LibinputSeat>) -> bool {
        &&& after.len() == self.seats@.len()
        &&& forall|i: int|
            0 <= i < self.seats@.len() ==> #[trigger] after[i] == (LibinputSeat {
                refcount: (if from == to {
                    self.seats@[i].refcount
                } else if i == from {
                    (self.seats@[i].refcount - 1) as i32
                } else if i == to {
                    (self.seats@[i].refcount + 1) as i32
                } else {
                    self.seats@[i].refcount
                }),
                ..self.seats@[i]
            })
    }

    /// Moves a device to another seat.
    pub fn move_to_seat(&mut self, device: DeviceId, seat: usize)
        requires
            old(self).wf(),
            device < old(self).registry@.len(),
            seat < old(self).seats@.len(),
            old(self).seats@[seat as int].refcount < i32::MAX,
            old(self).seat_of(device).refcount > i32::MIN,
        ensures
            final(self).wf(),
            final(self).registry@ == old(self).registry@.update(
                device as int,
                seated(old(self).registry@[device as int], seat),
            ),
            old(self).seats_moved(
                old(self).registry@[device as int].seat as int,
                seat as int,
                final(self).seats@,
            ),
            *final(self) == (LibinputContext {
                registry: final(self).registry,
                seats: final(self).seats,
                ..*old(self)
            }),
    {
        assert(device < self.registry.len());
        let place: usize = device as usize;
        assert(self.registry@[place as int].id == place);
        let before: usize = self.registry[place].seat;
        set_seat(&mut self.registry[place], seat);
        if before != seat {
            let joined: i32 = self.seats[seat].refcount;
            self.seats[seat].refcount = joined + 1;
            let left: i32 = self.seats[before].refcount;
            self.seats[before].refcount = left - 1;
        }
    }

    /// Puts a device into the group of another piece of its hardware. The
    /// group that it had loses its reference.
    pub fn share_group(&mut self, device: DeviceId, group: usize)
        requires
            old(self).wf(),
            device < old(self).registry@.len(),
            group < old(self).groups@.len(),
            old(self).groups@[group as int].refcount < i32::MAX,
            old(self).groups@[old(self).registry@[device as int].group as int].refcount > i32::MIN,
        ensures
            final(self).wf(),
            final(self).registry@ == old(self).registry@.update(
                device as int,
                grouped(old(self).registry@[device as int], group),
            ),
            ({
                let before = old(self).registry@[device as int].group as int;
                let groups = old(self).groups@;
                final(self).groups@ == (if before == group {
                    groups
                } else {
                    groups.update(
                        group as int,
                        LibinputDeviceGroup {
                            refcount: (groups[group as int].refcount + 1) as i32,
                            ..groups[group as int]
                        },
                    ).update(
                        before,
                        LibinputDeviceGroup {
                            refcount: (groups[before].refcount - 1) as i32,
                            ..groups[before]
                        },
                    )
                })
            }),
            *final(self) == (LibinputContext {
                registry: final(self).registry,
                groups: final(self).groups,
                ..*old(self)
            }),
    {
        assert(device < self.registry.len());
        let place: usize = device as usize;
        assert(self.registry@[place as int].id == place);
        let before: usize = self.registry[place].group;
        put_in_group(&mut self.registry[place], group);
        if before != group {
            let joined = self.groups[group];
            self.groups.set(group, LibinputDeviceGroup { refcount: joined.refcount + 1, ..joined });
            let left = self.groups[before];
            self.groups.set(before, LibinputDeviceGroup { refcount: left.refcount - 1, ..left });
        }
    }
}

/// A device in a seat.
#[verifier::opaque]
pub open spec fn seated(d: LibinputDevice, seat: usize) -> LibinputDevice {
    LibinputDevice { seat, ..d }
}

/// A device in a group.
#[verifier::opaque]
pub open spec fn grouped(d: LibinputDevice, group: usize) -> LibinputDevice {
    LibinputDevice { group, ..d }
}

fn set_seat(dev: &mut LibinputDevice, seat: usize)
    ensures
        *final(dev) == seated(*old(dev), seat),
        final(dev).id == old(dev).id,
        final(dev).seat == seat,
        final(dev).group == old(dev).group,
{
    reveal(seated);
    dev.seat = seat;
}

fn set_group(dev: &mut LibinputDevice, group: usize)
    ensures
        *final(dev) == (LibinputDevice { group, ..*old(dev) }),
{
    dev.group = group;
}

fn put_in_group(dev: &mut LibinputDevice, group: usize)
    ensures
        *final(dev) == grouped(*old(dev), group),
        final(dev).id == old(dev).id,
        final(dev).seat == old(dev).seat,
        final(dev).group == group,
{
    set_group(dev, group);
    reveal(grouped);
}

/// References to seats are neither lost nor made up when a device moves.
pub proof fn law_moving_keeps_the_sum_of_references(
    ctx: LibinputContext,
    from: int,
    to: int,
    after: Seq<LibinputSeat>,
)
    requires
        0 <= from < ctx.seats@.len(),
        0 <= to < ctx.seats@.len(),
        ctx.seats@[to].refcount < i32::MAX,
        ctx.seats@[from].refcount > i32::MIN,
        ctx.seats_moved(from, to, after),
    ensures
        after[from].refcount + after[to].refcount == ctx.seats@[from].refcount
            + ctx.seats@[to].refcount,
        forall|i: int|
            0 <= i < ctx.seats@.len() && i != from && i != to ==> #[trigger] after[i]
                == ctx.seats@[i],
{
}

// ---------------------------------------------------------------------------
// Seats
// ---------------------------------------------------------------------------
pub fn libinput_device_get_seat(dev: Option<&LibinputDevice>) -> (seat: Option<usize>)
    ensures
        seat == (match dev {
            Some(d) => Some(d.seat),
            None => None,
        }),
{
    match dev {
        Some(d) => Some(d.seat),
        None => None,
    }
}

pub fn libinput_seat_get_physical_name<'a>(seat: Option<&'a LibinputSeat>) -> (name: Option<
    &'a str,
>)
    ensures
        match seat {
            Some(s) => name is Some && (name->0)@ == s.physical_name@,
            None => name is None,
        },
{
    match seat {
        Some(s) => Some(s.physical_name.as_str()),
        None => None,
    }
}

pub fn libinput_seat_get_logical_name<'a>(seat: Option<&'a LibinputSeat>) -> (name: Option<
    &'a str,
>)
    ensures
        match seat {
            Some(s) => name is Some && (name->0)@ == s.logical_name@,
            None => name is None,
        },
{
    match seat {
        Some(s) => Some(s.logical_name.as_str()),
        None => None,
    }
}

/// Adds a reference to a seat.
pub fn libinput_seat_ref(seat: Option<&mut LibinputSeat>) -> (there: bool)
    requires
        seat matches Some(s) ==> s.refcount < i32::MAX,
    ensures
        there == seat is Some,
        seat matches Some(s) ==> *final(s) == (LibinputSeat {
            refcount: (s.refcount + 1) as i32,
            ..*s
        }),
{
    match seat {
        None => false,
        Some(s) => {
            s.refcount = s.refcount + 1;
            true
        },
    }
}

/// Drops a reference to a seat. Tells whether the seat lives on.
pub fn libinput_seat_unref(seat: Option<&mut LibinputSeat>) -> (alive: bool)
    requires
        seat matches Some(s) ==> s.refcount > i32::MIN,
    ensures
        match seat {
            None => !alive,
            Some(s) => alive == (s.refcount != 1) && *final(s) == (LibinputSeat {
                refcount: (s.refcount - 1) as i32,
                ..*s
            }),
        },
{
    match seat {
        None => false,
        Some(s) => {
            s.refcount = s.refcount - 1;
            s.refcount != 0
        },
    }
}

pub fn libinput_seat_set_user_data(seat: Option<&mut LibinputSeat>, data: usize)
    ensures
        seat matches Some(s) ==> *final(s) == (LibinputSeat { user_data: data, ..*s }),
{
    if let Some(s) = seat {
        s.user_data = data;
    }
}

pub fn libinput_seat_get_user_data(seat: Option<&LibinputSeat>) -> (data: usize)
    ensures
        data == (match seat {
            Some(s) => s.user_data,
            None => 0,
        }),
{
    match seat {
        Some(s) => s.user_data,
        None => 0,
    }
}

// ---------------------------------------------------------------------------
// Device groups
// ---------------------------------------------------------------------------
pub fn libinput_device_get_device_group(dev: Option<&LibinputDevice>) -> (group: Option<usize>)
    ensures
        group == (match dev {
            Some(d) => Some(d.group),
            None => None,
        }),
{
    match dev {
        Some(d) => Some(d.group),
        None => None,
    }
}

/// Adds a reference to a group.
pub fn libinput_device_group_ref(group: Option<&mut LibinputDeviceGroup>) -> (there: bool)
    requires
        group matches Some(g) ==> g.refcount < i32::MAX,
    ensures
        there == group is Some,
        group matches Some(g) ==> *final(g) == (LibinputDeviceGroup {
            refcount: (g.refcount + 1) as i32,
            ..*g
        }),
{
    match group {
        None => false,
        Some(g) => {
            g.refcount = g.refcount + 1;
            true
        },
    }
}

/// Drops a reference to a group. Tells whether the group lives on.
pub fn libinput_device_group_unref(group: Option<&mut LibinputDeviceGroup>) -> (alive: bool)
    requires
        group matches Some(g) ==> g.refcount > i32::MIN,
    ensures
        match group {
            None => !alive,
            Some(g) => alive == (g.refcount != 1) && *final(g) == (LibinputDeviceGroup {
                refcount: (g.refcount - 1) as i32,
                ..*g
            }),
        },
{
    match group {
        None => false,
        Some(g) => {
            g.refcount = g.refcount - 1;
            g.refcount != 0
        },
    }
}

pub fn libinput_device_group_set_user_data(group: Option<&mut LibinputDeviceGroup>, data: usize)
    ensures
        group matches Some(g) ==> *final(g) == (LibinputDeviceGroup { user_data: data, ..*g }),
{
    if let Some(g) = group {
        g.user_data = data;
    }
}

pub fn libinput_device_group_get_user_data(group: Option<&LibinputDeviceGroup>) -> (data: usize)
    ensures
        data == (match group {
            Some(g) => g.user_data,
            None => 0,
        }),
{
    match group {
        Some(g) => g.user_data,
        None => 0,
    }
}

// ---------------------------------------------------------------------------
// The context
// ---------------------------------------------------------------------------
pub fn libinput_log_set_priority(ctx: Option<&mut LibinputContext>, priority: u32)
    ensures
        ctx matches Some(c) ==> *final(c) == (LibinputContext { log_priority: priority, ..*c }),
{
    if let Some(c) = ctx {
        c.log_priority = priority;
    }
}

pub fn libinput_log_get_priority(ctx: Option<&LibinputContext>) -> (priority: u32)
    ensures
        priority == (match ctx {
            Some(c) => c.log_priority,
            None => 30,
        }),
{
    match ctx {
        Some(c) => c.log_priority,
        None => 30,
    }
}

pub fn libinput_set_user_data(ctx: Option<&mut LibinputContext>, data: usize)
    ensures
        ctx matches Some(c) ==> *final(c) == (LibinputContext { user_data: data, ..*c }),
{
    if let Some(c) = ctx {
        c.user_data = data;
    }
}

pub fn libinput_get_user_data(ctx: Option<&LibinputContext>) -> (data: usize)
    ensures
        data == (match ctx {
            Some(c) => c.user_data,
            None => 0,
        }),
{
    match ctx {
        Some(c) => c.user_data,
        None => 0,
    }
}

// ---------------------------------------------------------------------------
// Plugins
// ---------------------------------------------------------------------------
/// Whether no path occurs twice.
pub open spec fn unique(paths: Seq<String>) -> bool {
    forall|i: int, j: int|
        0 <= i < j < paths.len() ==> (#[trigger] paths[i])@ != (#[trigger] paths[j])@
}

/// The paths once one was added, as texts.
pub open spec fn texts_of(paths: Seq<String>) -> Seq<Seq<char>> {
    Seq::new(paths.len(), |i: int| paths[i]@)
}

/// A list of paths with one more, unless it is there already.
pub open spec fn with_path(paths: Seq<Seq<char>>, path: Seq<char>) -> Seq<Seq<char>> {
    if paths.contains(path) {
        paths
    } else {
        paths.push(path)
    }
}

fn add_path(paths: &mut Vec<String>, path: &str)
    ensures
        texts_of(final(paths)@) == with_path(texts_of(old(paths)@), path@),
        unique(old(paths)@) ==> unique(final(paths)@),
{
    let ghost texts = texts_of(paths@);
    let mut i: usize = 0;
    while i < paths.len()
        invariant
            i <= paths@.len(),
            paths@ == old(paths)@,
            texts == texts_of(paths@),
            forall|j: int| 0 <= j < i ==> (#[trigger] paths@[j])@ != path@,
        decreases paths.len() - i,
    {
        if equal(paths[i].as_str(), path) {
            assert(texts[i as int] == path@);
            assert(texts.contains(path@));
            return;
        }
        i += 1;
    }
    assert(!texts.contains(path@)) by {
        if texts.contains(path@) {
            let j = choose|j: int| 0 <= j < texts.len() && texts[j] == path@;
            assert(paths@[j]@ == path@);
        }
    }
    paths.push(path.to_owned());
    assert(texts_of(paths@) =~= texts.push(path@));
}

/// Adds a directory to look for plugins in, unless plugins are loaded already.
/// A directory is listed once, in the order in which it was first named.
pub fn libinput_plugin_system_append_path(ctx: Option<&mut LibinputContext>, path: Option<&str>)
    ensures
        ctx matches Some(c) ==> {
            &&& texts_of(final(c).plugin_paths@) == (if c.plugins_loaded || path is None || (
            path->0)@.len() == 0 {
                texts_of(c.plugin_paths@)
            } else {
                with_path(texts_of(c.plugin_paths@), (path->0)@)
            })
            &&& c.plugins_loaded ==> *final(c) == *c
            &&& unique(c.plugin_paths@) ==> unique(final(c).plugin_paths@)
            &&& *final(c) == (LibinputContext { plugin_paths: final(c).plugin_paths, ..*c })
        },
{
    if let Some(c) = ctx {
        if c.plugins_loaded {
            return;
        }
        if let Some(path) = path {
            if path.unicode_len() > 0 {
                add_path(&mut c.plugin_paths, path);
            }
        }
    }
}

/// Adds the directories that plugins are looked for in by default.
pub fn libinput_plugin_system_append_default_paths(ctx: Option<&mut LibinputContext>)
    ensures
        ctx matches Some(c) ==> {
            &&& texts_of(final(c).plugin_paths@) == (if c.plugins_loaded {
                texts_of(c.plugin_paths@)
            } else {
                with_path(
                    with_path(texts_of(c.plugin_paths@), "/etc/libinput/plugins"@),
                    "/usr/lib64/libinput/plugins"@,
                )
            })
            &&& c.plugins_loaded ==> *final(c) == *c
            &&& unique(c.plugin_paths@) ==> unique(final(c).plugin_paths@)
            &&& *final(c) == (LibinputContext { plugin_paths: final(c).plugin_paths, ..*c })
        },
{
    if let Some(c) = ctx {
        if !c.plugins_loaded {
            add_path(&mut c.plugin_paths, "/etc/libinput/plugins");
            add_path(&mut c.plugin_paths, "/usr/lib64/libinput/plugins");
        }
    }
}

/// Closes the list of plugins. There is no loader, which is what the first
/// call says.
pub fn libinput_plugin_system_load_plugins(ctx: Option<&mut LibinputContext>, flags: u32) -> (
status: i32)
    ensures
        match ctx {
            None => status == -EINVAL,
            Some(c) => {
                &&& status == (if flags != 0 {
                    -EINVAL
                } else if c.plugins_loaded {
                    0
                } else {
                    -ENOSYS
                })
                &&& *final(c) == (LibinputContext {
                    plugins_loaded: c.plugins_loaded || flags == 0,
                    ..*c
                })
            },
        },
{
    match ctx {
        None => -EINVAL,
        Some(c) => {
            if flags != 0 {
                return -EINVAL;
            }
            if c.plugins_loaded {
                return 0;
            }
            c.plugins_loaded = true;
            -ENOSYS
        },
    }
}

/// Adding a path keeps what was listed, in its order, and lists no path
/// twice; adding it again changes nothing.
pub proof fn law_paths_are_ordered_and_unique(paths: Seq<Seq<char>>, path: Seq<char>)
    requires
        paths.no_duplicates(),
    ensures
        with_path(paths, path).no_duplicates(),
        with_path(paths, path).contains(path),
        with_path(paths, path).take(paths.len() as int) == paths,
        with_path(with_path(paths, path), path) == with_path(paths, path),
{
    let after = with_path(paths, path);
    if !paths.contains(path) {
        assert(after[paths.len() as int] == path);
        assert forall|i: int, j: int|
            0 <= i < after.len() && 0 <= j < after.len() && i != j implies after[i] != after[j] by {
            if i < paths.len() && j < paths.len() {
                assert(paths[i] != paths[j]);
            } else if i < paths.len() {
                assert(paths.contains(paths[i]));
            } else if j < paths.len() {
                assert(paths.contains(paths[j]));
            }
        }
    }
    assert(after.take(paths.len() as int) =~= paths);
    assert(after.contains(path));
}

} // verus!
