//! A compute backend, chosen by device kind, and what it reports about its
//! memory.
use crate::compute::device::{
    compiled_kinds, device_name, preferred_kind, requested_text, Device, DeviceKind,
};
use crate::compute::error::Error;
use vstd::prelude::*;

verus! {

/// What a device reports about its own memory.
#[derive(Debug, Clone, Copy, PartialEq, Eq, Structural)]
pub struct Memory {
    /// Bytes currently available.
    pub free: usize,
    /// Bytes the device has in total.
    pub total: usize,
}

impl Memory {
    /// Bytes currently in use, as the device sees it; never below zero.
    pub fn used(self) -> (used: usize)
        ensures
            used == if self.total >= self.free {
                (self.total - self.free) as usize
            } else {
                0
            },
    {
        self.total.saturating_sub(self.free)
    }
}

/// The first of `kinds`, from position `i` on, that `initialised` holds.
pub open spec fn first_initialised_from(
    kinds: Seq<DeviceKind>,
    initialised: Seq<DeviceKind>,
    i: int,
) -> Option<DeviceKind>
    decreases kinds.len() - i,
{
    if i < 0 || i >= kinds.len() {
        None
    } else if initialised.contains(kinds[i]) {
        Some(kinds[i])
    } else {
        first_initialised_from(kinds, initialised, i + 1)
    }
}

/// The first of `kinds` that `initialised` holds.
pub open spec fn first_initialised(kinds: Seq<DeviceKind>, initialised: Seq<DeviceKind>) -> Option<
    DeviceKind,
> {
    first_initialised_from(kinds, initialised, 0)
}

/// The kind a backend is opened on: the preferred one when the runtime
/// initialises it, and otherwise the first compiled kind it initialises.
pub open spec fn chosen_kind(preferred: DeviceKind, initialised: Seq<DeviceKind>) -> Option<
    DeviceKind,
> {
    if initialised.contains(preferred) && compiled_kinds().contains(preferred) {
        Some(preferred)
    } else {
        first_initialised(compiled_kinds(), initialised)
    }
}

/// Whether `kind` is among `initialised`.
fn was_initialised(initialised: &[DeviceKind], kind: DeviceKind) -> (b: bool)
    ensures
        b == initialised@.contains(kind),
{
    let mut i: usize = 0;
    while i < initialised.len()
        invariant
            i <= initialised@.len(),
            forall|j: int| 0 <= j < i ==> initialised@[j] != kind,
        decreases initialised@.len() - i,
    {
        if initialised[i] == kind {
            return true;
        }
        i = i + 1;
    }
    false
}

/// A compute backend on one device.
///
/// Holds the device it was chosen for; the native tensor runtime's handle
/// for that device is not part of this crate.
#[derive(Debug)]
pub struct Backend {
    device: Device,
}

impl View for Backend {
    type V = DeviceKind;

    closed spec fn view(&self) -> DeviceKind {
        self.device@
    }
}

impl Backend {
    /// The fastest backend this build can reach.
    ///
    /// Falls back to the host rather than failing: a machine without a GPU
    /// must still answer queries. The preferred kind is [`Device::best`]'s,
    /// so the device announced at startup and the one initialised agree.
    /// This is [`Backend::best_of`] on a runtime that initialises every kind
    /// the build has.
    pub fn best() -> (backend: Result<Backend, Error>)
        ensures
            backend matches Ok(b) && b@ == compiled_kinds()[0],
    {
        let preferred = Device::best().kind();
        match Self::of(preferred) {
            Ok(backend) => return Ok(backend),
            Err(_) => {},
        }
        let kinds = DeviceKind::compiled();
        let mut i: usize = 0;
        while i < kinds.len()
            invariant
                kinds@ == compiled_kinds(),
                preferred == compiled_kinds()[0],
                i <= kinds@.len(),
            decreases kinds@.len() - i,
        {
            match Self::of(kinds[i]) {
                Ok(backend) => return Ok(backend),
                Err(_) => {},
            }
            i = i + 1;
        }
        Self::of(DeviceKind::Cpu)
    }

    /// A backend of a specific kind, if this build has one: [`Backend::open`]
    /// on a runtime that initialises it.
    pub fn of(kind: DeviceKind) -> (backend: Result<Backend, Error>)
        ensures
            compiled_kinds().contains(kind) ==> (backend matches Ok(b) && b@ == kind),
            !compiled_kinds().contains(kind) ==> (backend matches Err(Error::BackendUnavailable {
                kind: name,
            }) && name@ == crate::compute::device::device_name(kind)),
    {
        let device = Device::of(kind)?;
        Ok(Backend { device })
    }

    /// A backend of `kind`, given whether the native runtime initialised
    /// one (`initialised`).
    ///
    /// A kind this build lacks is refused before the runtime is asked, and
    /// a kind the runtime would not initialise is refused the same way.
    pub fn open(kind: DeviceKind, initialised: bool) -> (backend: Result<Backend, Error>)
        ensures
            compiled_kinds().contains(kind) && initialised ==> (backend matches Ok(b) && b@
                == kind),
            !(compiled_kinds().contains(kind) && initialised) ==> (backend matches Err(
                Error::BackendUnavailable { kind: name },
            ) && name@ == device_name(kind)),
    {
        let device = Device::of(kind)?;
        if !initialised {
            return Err(Error::BackendUnavailable { kind: kind.as_str() });
        }
        Ok(Backend { device })
    }

    /// The fastest backend this build can reach, given an operator's
    /// override (`requested`, as for [`Device::best_with`]) and the kinds
    /// the native runtime initialises (`initialised`).
    ///
    /// Tries the preferred kind first, then every compiled kind in order,
    /// then the host; the host's refusal is the one reported.
    pub fn best_of(requested: Option<&str>, initialised: &[DeviceKind]) -> (backend: Result<
        Backend,
        Error,
    >)
        ensures
            chosen_kind(preferred_kind(requested_text(requested)), initialised@) matches Some(k)
                ==> (backend matches Ok(b) && b@ == k),
            chosen_kind(preferred_kind(requested_text(requested)), initialised@) is None ==> (
            backend matches Err(Error::BackendUnavailable { kind: name }) && name@
                == device_name(DeviceKind::Cpu)),
    {
        let preferred = Device::best_with(requested).kind();
        match Self::open(preferred, was_initialised(initialised, preferred)) {
            Ok(backend) => return Ok(backend),
            Err(_) => {},
        }
        let kinds = DeviceKind::compiled();
        let mut i: usize = 0;
        while i < kinds.len()
            invariant
                kinds@ == compiled_kinds(),
                i <= kinds@.len(),
                first_initialised(compiled_kinds(), initialised@) == first_initialised_from(
                    compiled_kinds(),
                    initialised@,
                    i as int,
                ),
                forall|j: int| 0 <= j < i ==> !initialised@.contains(#[trigger] kinds@[j]),
            decreases kinds@.len() - i,
        {
            match Self::open(kinds[i], was_initialised(initialised, kinds[i])) {
                Ok(backend) => return Ok(backend),
                Err(_) => {},
            }
            i = i + 1;
        }
        assert(kinds@[0] == DeviceKind::Cpu);
        Self::open(DeviceKind::Cpu, was_initialised(initialised, DeviceKind::Cpu))
    }

    /// Which hardware this backend drives.
    pub fn device(&self) -> (device: Device)
        ensures
            device@ == self@,
    {
        self.device
    }

    /// Free and total device memory, from what the runtime reported.
    ///
    /// `reported` is the `(free, total)` pair the device gave, or `None`
    /// when it has no device to ask. A host backend reports nothing — its
    /// "device memory" is just system RAM — and a reported total of zero is
    /// no answer rather than no memory.
    pub fn memory_from(&self, reported: Option<(usize, usize)>) -> (memory: Option<Memory>)
        ensures
            memory == match reported {
                Some((free, total)) if self@ != DeviceKind::Cpu && total != 0 => Some(
                    Memory { free, total },
                ),
                _ => None,
            },
    {
        if !self.device.is_accelerator() {
            return None;
        }
        match reported {
            Some((free, total)) => if total == 0 {
                None
            } else {
                Some(Memory { free, total })
            },
            None => None,
        }
    }
}

} // verus!
