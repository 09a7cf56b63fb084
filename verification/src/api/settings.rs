//! Settings that reach beyond the device they are made on: what is under way
//! ends when they change.
use vstd::prelude::*;
use crate::api::context::LibinputContext;
use crate::api::device_config::{
    effective_mode, judge_scroll_method, lets_go, put_scroll_method, put_send_events_mode,
    scroll_set_method_status, CONFIG_SUCCESS, CONFIG_UNSUPPORTED,
};
use crate::backend::live::TrackedDevice;
use crate::backend::state::{is_registered, BackendState};
use crate::backend::tablet::{FrameTime, TabletState};
use crate::ffi_types::{AxisMix, DeviceId, LibinputDevice, LibinputEvent};

verus! {

impl LibinputContext {
    /// Whether only one device's description differs, which is now `d`.
    #[verifier::opaque]
    pub open spec fn described_anew(
        self,
        device: DeviceId,
        d: LibinputDevice,
        after: LibinputContext,
    ) -> bool {
        &&& after.registry@ == self.registry@.update(device as int, d)
        &&& after == (LibinputContext { registry: after.registry, ..self })
    }

    proof fn lemma_description_keeps_wf(
        self,
        device: DeviceId,
        d: LibinputDevice,
        after: LibinputContext,
    )
        requires
            self.wf(),
            device < self.registry@.len(),
            self.described_anew(device, d, after),
            d.id == device,
            d.seat == self.registry@[device as int].seat,
            d.group == self.registry@[device as int].group,
        ensures
            after.wf(),
    {
        reveal(LibinputContext::described_anew);
        assert forall|i: int| 0 <= i < after.backend.devices@.len() implies (
        #[trigger] after.backend.devices@[i]).wf(after.tools.tools@) && is_registered(
            after.registry@,
            after.backend.devices@[i],
        ) by {
            assert(self.backend.devices@[i].wf(self.tools.tools@));
            assert(is_registered(self.registry@, self.backend.devices@[i]));
        }
    }

    // -----------------------------------------------------------------------
    // Scrolling
    // -----------------------------------------------------------------------
    /// Whether ending the scrolling of a device leaves these behind. A device
    /// that is not open has none.
    #[verifier::opaque]
    pub open spec fn device_stopped(
        self,
        device: DeviceId,
        time_usec: u64,
        out: Seq<LibinputEvent>,
        after: LibinputContext,
        reported: Seq<LibinputEvent>,
    ) -> bool {
        match self.backend.place_from(device, 0) {
            Some(place) => self.scrolling_ended(place, time_usec, out, after, reported),
            None => after == self && reported == out,
        }
    }

    /// Whether choosing another way to scroll leaves these behind: the
    /// scrolling under way ends, and then the new way counts.
    #[verifier::opaque]
    pub open spec fn scroll_method_set(
        self,
        device: DeviceId,
        method: u32,
        time_usec: u64,
        out: Seq<LibinputEvent>,
        after: LibinputContext,
        reported: Seq<LibinputEvent>,
    ) -> bool {
        exists|middle: LibinputContext| #[trigger]
            self.device_stopped(device, time_usec, out, middle, reported)
                && middle.described_anew(
                device,
                LibinputDevice { scroll_method: method, ..self.registry@[device as int] },
                after,
            )
    }

    fn stop_device(&mut self, device: DeviceId, time_usec: u64, out: &mut Vec<LibinputEvent>)
        requires
            old(self).wf(),
        ensures
            final(self).wf(),
            final(self).registry == old(self).registry,
            old(self).device_stopped(device, time_usec, old(out)@, *final(self), final(out)@),
    {
        reveal(LibinputContext::device_stopped);
        self.stop_scroll_for_device(device, time_usec, out);
    }

    fn put_method(&mut self, device: DeviceId, method: u32)
        requires
            old(self).wf(),
            device < old(self).registry.len(),
        ensures
            final(self).wf(),
            old(self).described_anew(
                device,
                LibinputDevice { scroll_method: method, ..old(self).registry@[device as int] },
                *final(self),
            ),
    {
        let ghost before = *self;
        put_scroll_method(&mut self.registry[device as usize], method);
        proof {
            reveal(LibinputContext::described_anew);
            let d = LibinputDevice { scroll_method: method, ..before.registry@[device as int] };
            assert(self.registry@ =~= before.registry@.update(device as int, d));
            before.lemma_description_keeps_wf(device, d, *self);
        }
    }

    fn change_method(
        &mut self,
        device: DeviceId,
        method: u32,
        time_usec: u64,
        out: &mut Vec<LibinputEvent>,
    )
        requires
            old(self).wf(),
            device < old(self).registry.len(),
        ensures
            final(self).wf(),
            old(self).scroll_method_set(
                device,
                method,
                time_usec,
                old(out)@,
                *final(self),
                final(out)@,
            ),
    {
        reveal(LibinputContext::scroll_method_set);
        self.stop_device(device, time_usec, out);
        let ghost middle = *self;
        self.put_method(device, method);
        assert(old(self).device_stopped(device, time_usec, old(out)@, middle, out@));
    }

    /// Chooses how a device scrolls. Nothing happens if it scrolls that way
    /// already, or cannot.
    pub fn set_scroll_method(
        &mut self,
        device: DeviceId,
        method: u32,
        time_usec: u64,
        out: &mut Vec<LibinputEvent>,
    ) -> (status: u32)
        requires
            old(self).wf(),
        ensures
            final(self).wf(),
            status == (if device < old(self).registry@.len() {
                scroll_set_method_status(old(self).registry@[device as int], method)
            } else {
                CONFIG_UNSUPPORTED
            }),
            if status == CONFIG_SUCCESS && old(self).registry@[device as int].scroll_method
                != method {
                old(self).scroll_method_set(
                    device,
                    method,
                    time_usec,
                    old(out)@,
                    *final(self),
                    final(out)@,
                )
            } else {
                *final(self) == *old(self) && final(out)@ == old(out)@
            },
    {
        if device >= self.registry.len() as u64 {
            return CONFIG_UNSUPPORTED;
        }
        let status: u32 = judge_scroll_method(&self.registry[device as usize], method);
        if status == CONFIG_SUCCESS && self.registry[device as usize].scroll_method != method {
            self.change_method(device, method, time_usec, out);
        }
        status
    }

    // -----------------------------------------------------------------------
    // Calibration
    // -----------------------------------------------------------------------
    /// Takes in what a new calibration makes of the axes of a device. Events
    /// that come later say which coordinates changed by it.
    pub fn set_calibration(&mut self, device: DeviceId, mix: AxisMix) -> (status: u32)
        requires
            old(self).wf(),
        ensures
            final(self).wf(),
            status == (if device < old(self).registry@.len() && old(
                self,
            ).registry@[device as int].calibration_available {
                CONFIG_SUCCESS
            } else {
                CONFIG_UNSUPPORTED
            }),
            match old(self).backend.place_from(device, 0) {
                Some(place) if status == CONFIG_SUCCESS => {
                    let t = old(self).backend.devices@[place];
                    &&& final(self).backend.devices@ == old(self).backend.devices@.update(
                        place,
                        TrackedDevice { tablet: TabletState { mix, ..t.tablet }, ..t },
                    )
                    &&& final(self).backend == (BackendState {
                        devices: final(self).backend.devices,
                        ..old(self).backend
                    })
                    &&& *final(self) == (LibinputContext {
                        backend: final(self).backend,
                        ..*old(self)
                    })
                },
                _ => *final(self) == *old(self),
            },
    {
        if device >= self.registry.len() as u64 {
            return CONFIG_UNSUPPORTED;
        }
        if !self.registry[device as usize].calibration_available {
            return CONFIG_UNSUPPORTED;
        }
        if let Some(place) = self.backend.find_device(device) {
            let ghost before = *self;
            self.backend.devices[place].tablet.mix = mix;
            proof {
                assert forall|i: int| 0 <= i < self.backend.devices@.len() implies (
                #[trigger] self.backend.devices@[i]).wf(self.tools.tools@) && is_registered(
                    self.registry@,
                    self.backend.devices@[i],
                ) by {
                    assert(before.backend.devices@[i].wf(before.tools.tools@));
                }
            }
        }
        CONFIG_SUCCESS
    }

    // -----------------------------------------------------------------------
    // Reporting at all
    // -----------------------------------------------------------------------
    /// Whether releasing what a device holds leaves these behind. A device
    /// that is not open holds nothing.
    #[verifier::opaque]
    pub open spec fn device_let_go(
        self,
        device: DeviceId,
        at: FrameTime,
        out: Seq<LibinputEvent>,
        after: LibinputContext,
        reported: Seq<LibinputEvent>,
    ) -> bool {
        match self.backend.place_from(device, 0) {
            Some(place) => self.input_released(place, at, out, after, reported),
            None => after == self && reported == out,
        }
    }

    /// Whether setting when a device reports leaves these behind: a device
    /// that falls silent lets go of everything that it holds.
    #[verifier::opaque]
    pub open spec fn mode_set(
        self,
        device: DeviceId,
        mode: u32,
        at: FrameTime,
        out: Seq<LibinputEvent>,
        after: LibinputContext,
        reported: Seq<LibinputEvent>,
    ) -> bool {
        let d = self.registry@[device as int];
        exists|middle: LibinputContext| #[trigger]
            self.described_anew(
                device,
                LibinputDevice { send_events_mode: effective_mode(mode), ..d },
                middle,
            ) && if lets_go(d, mode, self.backend.sees_mouse()) {
                middle.device_let_go(device, at, out, after, reported)
            } else {
                after == middle && reported == out
            }
    }

    fn put_mode(&mut self, device: DeviceId, mode: u32)
        requires
            old(self).wf(),
            device < old(self).registry.len(),
        ensures
            final(self).wf(),
            old(self).described_anew(
                device,
                LibinputDevice { send_events_mode: mode, ..old(self).registry@[device as int] },
                *final(self),
            ),
    {
        let ghost before = *self;
        put_send_events_mode(&mut self.registry[device as usize], mode);
        proof {
            reveal(LibinputContext::described_anew);
            let d = LibinputDevice { send_events_mode: mode, ..before.registry@[device as int] };
            assert(self.registry@ =~= before.registry@.update(device as int, d));
            before.lemma_description_keeps_wf(device, d, *self);
        }
    }

    fn let_go_of(&mut self, device: DeviceId, at: FrameTime, out: &mut Vec<LibinputEvent>)
        requires
            old(self).wf(),
        ensures
            final(self).wf(),
            old(self).device_let_go(device, at, old(out)@, *final(self), final(out)@),
    {
        reveal(LibinputContext::device_let_go);
        if let Some(place) = self.backend.find_device(device) {
            self.release_active_inputs(place, at, out);
        }
    }

    fn falls_silent(&self, device: DeviceId, mode: u32) -> (silent: bool)
        requires
            device < self.registry.len(),
        ensures
            silent == lets_go(self.registry@[device as int], mode, self.backend.sees_mouse()),
    {
        let next: u32 = if mode & 1 != 0 {
            1
        } else {
            mode
        };
        self.registry[device as usize].send_events_mode != next && (next == 1 || (next == 2
            && self.backend.has_external_mouse()))
    }

    fn change_mode(
        &mut self,
        device: DeviceId,
        mode: u32,
        at: FrameTime,
        out: &mut Vec<LibinputEvent>,
    )
        requires
            old(self).wf(),
            device < old(self).registry.len(),
        ensures
            final(self).wf(),
            old(self).mode_set(device, mode, at, old(out)@, *final(self), final(out)@),
    {
        reveal(LibinputContext::mode_set);
        let silent = self.falls_silent(device, mode);
        let next: u32 = if mode & 1 != 0 {
            1
        } else {
            mode
        };
        self.put_mode(device, next);
        assert(old(self).described_anew(
            device,
            LibinputDevice {
                send_events_mode: effective_mode(mode),
                ..old(self).registry@[device as int]
            },
            *self,
        ));
        if silent {
            self.let_go_of(device, at, out);
        }
    }

    /// Sets when a device reports events.
    pub fn set_send_events_mode(
        &mut self,
        device: DeviceId,
        mode: u32,
        at: FrameTime,
        out: &mut Vec<LibinputEvent>,
    ) -> (status: u32)
        requires
            old(self).wf(),
        ensures
            final(self).wf(),
            status == (if device < old(self).registry@.len() && mode & !old(
                self,
            ).registry@[device as int].send_events_modes == 0 {
                CONFIG_SUCCESS
            } else {
                CONFIG_UNSUPPORTED
            }),
            status == CONFIG_SUCCESS ==> old(self).mode_set(
                device,
                mode,
                at,
                old(out)@,
                *final(self),
                final(out)@,
            ),
            status != CONFIG_SUCCESS ==> *final(self) == *old(self) && final(out)@ == old(out)@,
    {
        if device >= self.registry.len() as u64 {
            return CONFIG_UNSUPPORTED;
        }
        if mode & !self.registry[device as usize].send_events_modes != 0 {
            return CONFIG_UNSUPPORTED;
        }
        self.change_mode(device, mode, at, out);
        CONFIG_SUCCESS
    }
}

} // verus!
