//! Choosing where tensors live.
use crate::compute::error::Error;
use vstd::prelude::*;

verus! {

/// Which hardware a backend drives.
///
/// A closed set, so it is safe as a telemetry label — and so that a build
/// which silently fell back to the host is visible rather than merely slow.
#[derive(Debug, Clone, Copy, PartialEq, Eq, Structural)]
pub enum DeviceKind {
    /// The host. Always available, and the correctness reference.
    Cpu,
    /// Apple GPUs, through Metal.
    Metal,
    /// NVIDIA, through CUDA.
    Cuda,
    /// AMD, through HIP/ROCm.
    Hip,
    /// Cross-vendor, through the Vulkan driver interface.
    Vulkan,
    /// Intel GPUs, through oneAPI.
    Sycl,
}

/// The name a kind goes by in configuration and telemetry.
pub open spec fn device_name(kind: DeviceKind) -> Seq<char> {
    match kind {
        DeviceKind::Cpu => seq!['c', 'p', 'u'],
        DeviceKind::Metal => seq!['m', 'e', 't', 'a', 'l'],
        DeviceKind::Cuda => seq!['c', 'u', 'd', 'a'],
        DeviceKind::Hip => seq!['h', 'i', 'p'],
        DeviceKind::Vulkan => seq!['v', 'u', 'l', 'k', 'a', 'n'],
        DeviceKind::Sycl => seq!['s', 'y', 'c', 'l'],
    }
}

/// The kinds this build reaches, best first. This build enables no
/// accelerator backend, so the host is the only one.
pub open spec fn compiled_kinds() -> Seq<DeviceKind> {
    seq![DeviceKind::Cpu]
}

/// Whether `c` is white space as Unicode defines it (what `str::trim`
/// strips).
pub open spec fn is_white_space(c: char) -> bool {
    ('\u{9}' <= c && c <= '\u{d}') || c == ' ' || c == '\u{85}' || c == '\u{a0}' || c == '\u{1680}'
        || ('\u{2000}' <= c && c <= '\u{200a}') || c == '\u{2028}' || c == '\u{2029}' || c
        == '\u{202f}' || c == '\u{205f}' || c == '\u{3000}'
}

/// The first index at or after `i` that does not hold white space.
pub open spec fn skip_space(s: Seq<char>, i: int) -> int
    decreases s.len() - i,
{
    if i < 0 || i >= s.len() {
        i
    } else if is_white_space(s[i]) {
        skip_space(s, i + 1)
    } else {
        i
    }
}

/// The end of `s[lo..j]` once trailing white space is dropped.
pub open spec fn drop_trailing_space(s: Seq<char>, lo: int, j: int) -> int
    decreases j - lo,
{
    if j <= lo || j > s.len() {
        j
    } else if is_white_space(s[j - 1]) {
        drop_trailing_space(s, lo, j - 1)
    } else {
        j
    }
}

/// `s` without leading or trailing white space.
pub open spec fn trimmed(s: Seq<char>) -> Seq<char> {
    let start = skip_space(s, 0);
    s.subrange(start, drop_trailing_space(s, start, s.len() as int))
}

/// Whether `c` is `lower`, or the ASCII upper-case form of `lower`.
pub open spec fn same_letter_ignoring_case(c: char, lower: char) -> bool {
    c == lower || ('A' <= c && c <= 'Z' && c as u32 + 32 == lower as u32)
}

/// Whether `text` spells `name` up to ASCII case.
pub open spec fn spells(text: Seq<char>, name: Seq<char>) -> bool {
    text.len() == name.len() && forall|i: int|
        0 <= i < name.len() ==> same_letter_ignoring_case(#[trigger] text[i], name[i])
}

/// What an operator's device name means: the kind whose name it spells,
/// ignoring surrounding white space and ASCII case.
pub open spec fn parsed_kind(text: Seq<char>) -> Option<DeviceKind> {
    let t = trimmed(text);
    if spells(t, device_name(DeviceKind::Cpu)) {
        Some(DeviceKind::Cpu)
    } else if spells(t, device_name(DeviceKind::Metal)) {
        Some(DeviceKind::Metal)
    } else if spells(t, device_name(DeviceKind::Cuda)) {
        Some(DeviceKind::Cuda)
    } else if spells(t, device_name(DeviceKind::Hip)) {
        Some(DeviceKind::Hip)
    } else if spells(t, device_name(DeviceKind::Vulkan)) {
        Some(DeviceKind::Vulkan)
    } else if spells(t, device_name(DeviceKind::Sycl)) {
        Some(DeviceKind::Sycl)
    } else {
        None
    }
}

/// Whether `c` is white space as Unicode defines it.
fn white_space(c: char) -> (b: bool)
    ensures
        b == is_white_space(c),
{
    ('\u{9}' <= c && c <= '\u{d}') || c == ' ' || c == '\u{85}' || c == '\u{a0}' || c == '\u{1680}'
        || ('\u{2000}' <= c && c <= '\u{200a}') || c == '\u{2028}' || c == '\u{2029}' || c
        == '\u{202f}' || c == '\u{205f}' || c == '\u{3000}'
}

/// Whether `text[start..end]` spells `name` up to ASCII case.
fn spells_range(text: &str, start: usize, end: usize, name: &str) -> (b: bool)
    requires
        start <= end <= text@.len(),
    ensures
        b == spells(text@.subrange(start as int, end as int), name@),
{
    let m = name.unicode_len();
    if end - start != m {
        return false;
    }
    let ghost t = text@.subrange(start as int, end as int);
    let mut i: usize = 0;
    while i < m
        invariant
            start <= end <= text@.len(),
            end - start == m,
            m == name@.len(),
            t == text@.subrange(start as int, end as int),
            i <= m,
            forall|k: int| 0 <= k < i ==> same_letter_ignoring_case(#[trigger] t[k], name@[k]),
        decreases m - i,
    {
        let c = text.get_char(start + i);
        let l = name.get_char(i);
        assert(t[i as int] == c);
        let same = c == l || ('A' <= c && c <= 'Z' && (c as u32) + 32 == l as u32);
        if !same {
            return false;
        }
        i = i + 1;
    }
    true
}

impl DeviceKind {
    /// The name used in configuration and telemetry.
    pub fn as_str(self) -> (s: &'static str)
        ensures
            s@ == device_name(self),
    {
        match self {
            DeviceKind::Cpu => {
                proof {
                    reveal_strlit("cpu");
                }
                "cpu"
            },
            DeviceKind::Metal => {
                proof {
                    reveal_strlit("metal");
                }
                "metal"
            },
            DeviceKind::Cuda => {
                proof {
                    reveal_strlit("cuda");
                }
                "cuda"
            },
            DeviceKind::Hip => {
                proof {
                    reveal_strlit("hip");
                }
                "hip"
            },
            DeviceKind::Vulkan => {
                proof {
                    reveal_strlit("vulkan");
                }
                "vulkan"
            },
            DeviceKind::Sycl => {
                proof {
                    reveal_strlit("sycl");
                }
                "sycl"
            },
        }
    }

    /// Whether this kind is a discrete or integrated accelerator.
    pub fn is_accelerator(self) -> (b: bool)
        ensures
            b == (self != DeviceKind::Cpu),
    {
        !matches!(self, DeviceKind::Cpu)
    }

    /// The kinds this build could possibly reach, best first.
    ///
    /// Compiled in rather than probed, because a backend that was not built
    /// cannot be initialised at runtime.
    pub fn compiled() -> (kinds: &'static [DeviceKind])
        ensures
            kinds@ == compiled_kinds(),
    {
        let kinds: &'static [DeviceKind] = &[DeviceKind::Cpu];
        assert(kinds@ =~= compiled_kinds());
        kinds
    }

    /// The kind an operator's device name refers to, ignoring surrounding
    /// white space and ASCII case; `None` for a name no kind goes by.
    pub fn parse(name: &str) -> (kind: Option<DeviceKind>)
        ensures
            kind == parsed_kind(name@),
    {
        let n = name.unicode_len();
        let mut start: usize = 0;
        while start < n && white_space(name.get_char(start))
            invariant
                n == name@.len(),
                start <= n,
                skip_space(name@, start as int) == skip_space(name@, 0),
            decreases n - start,
        {
            start = start + 1;
        }
        let mut end: usize = n;
        while end > start && white_space(name.get_char(end - 1))
            invariant
                n == name@.len(),
                start <= end <= n,
                skip_space(name@, 0) == start,
                drop_trailing_space(name@, start as int, end as int) == drop_trailing_space(
                    name@,
                    start as int,
                    n as int,
                ),
            decreases end - start,
        {
            end = end - 1;
        }
        assert(name@.subrange(start as int, end as int) == trimmed(name@));
        if spells_range(name, start, end, DeviceKind::Cpu.as_str()) {
            Some(DeviceKind::Cpu)
        } else if spells_range(name, start, end, DeviceKind::Metal.as_str()) {
            Some(DeviceKind::Metal)
        } else if spells_range(name, start, end, DeviceKind::Cuda.as_str()) {
            Some(DeviceKind::Cuda)
        } else if spells_range(name, start, end, DeviceKind::Hip.as_str()) {
            Some(DeviceKind::Hip)
        } else if spells_range(name, start, end, DeviceKind::Vulkan.as_str()) {
            Some(DeviceKind::Vulkan)
        } else if spells_range(name, start, end, DeviceKind::Sycl.as_str()) {
            Some(DeviceKind::Sycl)
        } else {
            None
        }
    }
}

/// Every kind's own name parses back to that kind: the names an operator
/// writes are exactly the ones telemetry reports.
pub proof fn every_name_parses_back(kind: DeviceKind)
    ensures
        parsed_kind(device_name(kind)) == Some(kind),
{
    let name = device_name(kind);
    assert(!is_white_space(name[0]));
    assert(skip_space(name, 0) == 0);
    assert(!is_white_space(name[name.len() - 1]));
    assert(drop_trailing_space(name, 0, name.len() as int) == name.len());
    assert(trimmed(name) =~= name);
    assert(spells(name, name));
}

/// No two kinds share a label, so telemetry series stay joinable.
pub proof fn device_names_are_distinct(a: DeviceKind, b: DeviceKind)
    requires
        a != b,
    ensures
        device_name(a) != device_name(b),
{
    if device_name(a).len() == device_name(b).len() {
        assert(device_name(a)[0] != device_name(b)[0] || device_name(a)[1] != device_name(b)[1]);
    }
}

/// The text of an override, when there is one.
pub open spec fn requested_text(requested: Option<&str>) -> Option<Seq<char>> {
    match requested {
        Some(name) => Some(name@),
        None => None,
    }
}

/// The kind a device is chosen as: the one an operator's override names,
/// when it names a kind this build has, and otherwise the build's first.
pub open spec fn preferred_kind(requested: Option<Seq<char>>) -> DeviceKind {
    match requested {
        Some(name) => match parsed_kind(name) {
            Some(kind) => if compiled_kinds().contains(kind) {
                kind
            } else {
                compiled_kinds()[0]
            },
            None => compiled_kinds()[0],
        },
        None => compiled_kinds()[0],
    }
}

/// Where a tensor lives, and the factory for obtaining one.
///
/// Callers ask for a kind and get whatever the build can actually provide.
#[derive(Debug, Clone, Copy, PartialEq, Eq, Structural)]
pub struct Device {
    kind: DeviceKind,
}

impl View for Device {
    type V = DeviceKind;

    closed spec fn view(&self) -> DeviceKind {
        self.kind
    }
}

impl Device {
    /// The fastest device this build can reach: the first compiled kind.
    pub fn best() -> (device: Device)
        ensures
            device@ == compiled_kinds()[0],
    {
        let kinds = DeviceKind::compiled();
        let kind = if kinds.len() > 0 {
            kinds[0]
        } else {
            DeviceKind::Cpu
        };
        Device { kind }
    }

    /// The device an operator's override names, if it names one this build
    /// has, and otherwise the fastest this build can reach.
    ///
    /// `requested` is the override as given (`TELIVIDB_DEVICE`), or `None`
    /// when there is none. Names are read as [`DeviceKind::parse`] reads
    /// them, so they are exactly the names telemetry reports. An override
    /// naming no kind, or one this build lacks, leaves [`Device::best`]'s
    /// choice in place: the best device never names a backend the build
    /// does not have.
    pub fn best_with(requested: Option<&str>) -> (device: Device)
        ensures
            device@ == preferred_kind(requested_text(requested)),
    {
        let best = Self::best();
        match requested {
            Some(name) => match DeviceKind::parse(name) {
                Some(kind) => match Self::of(kind) {
                    Ok(device) => device,
                    Err(_) => best,
                },
                None => best,
            },
            None => best,
        }
    }

    /// The host, which is always available.
    pub fn cpu() -> (device: Device)
        ensures
            device@ == DeviceKind::Cpu,
    {
        Device { kind: DeviceKind::Cpu }
    }

    /// A device of a specific kind, if this build has one.
    pub fn of(kind: DeviceKind) -> (device: Result<Device, Error>)
        ensures
            compiled_kinds().contains(kind) ==> (device matches Ok(d) && d@ == kind),
            !compiled_kinds().contains(kind) ==> (device matches Err(Error::BackendUnavailable {
                kind: name,
            }) && name@ == device_name(kind)),
    {
        let kinds = DeviceKind::compiled();
        let mut i: usize = 0;
        while i < kinds.len()
            invariant
                kinds@ == compiled_kinds(),
                i <= kinds@.len(),
                forall|j: int| 0 <= j < i ==> kinds@[j] != kind,
            decreases kinds@.len() - i,
        {
            if kinds[i] == kind {
                return Ok(Device { kind });
            }
            i = i + 1;
        }
        Err(Error::BackendUnavailable { kind: kind.as_str() })
    }

    /// Which hardware this is.
    pub fn kind(self) -> (kind: DeviceKind)
        ensures
            kind == self@,
    {
        self.kind
    }

    /// Whether work dispatched here leaves the host.
    pub fn is_accelerator(self) -> (b: bool)
        ensures
            b == (self@ != DeviceKind::Cpu),
    {
        self.kind.is_accelerator()
    }
}

impl Default for Device {
    /// The fastest available, matching [`Device::best`].
    fn default() -> (device: Self)
        ensures
            device@ == compiled_kinds()[0],
    {
        Self::best()
    }
}

/// The host is always among the kinds a build reaches, so asking for it
/// never fails.
pub proof fn the_host_is_always_compiled()
    ensures
        compiled_kinds().contains(DeviceKind::Cpu),
{
    assert(compiled_kinds()[0] == DeviceKind::Cpu);
}

} // verus!
