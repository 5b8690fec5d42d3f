//! Kernel interception control plane.
//!
//! The control plane moves through `Unloaded -> Loaded -> Attached`: first
//! the two program artifacts are loaded, then the packet-path program is
//! attached at egress and ingress inside the middlebox namespace and the
//! socket-hook program is attached to the control group. The attach mode
//! of the socket hook depends on the running kernel: versions from 5.7.0
//! on take an exclusive single-program attachment, older versions take the
//! additive multi-program attachment. The kernel operations themselves are
//! performed by the unverified front end; this module holds the verified
//! decisions — release-string parsing, mode selection and stage ordering —
//! and hands the flow-configuration map out only once attachment is done.

use vstd::prelude::*;

use crate::config_map::FlowConfigMap;
use crate::errors::{AttachError, LoadError};

verus! {

/// Lowest kernel version that takes the exclusive attach mode.
pub const EXCLUSIVE_ATTACH_MAJOR: u16 = 5;

/// Minor part of the exclusive-attach threshold.
pub const EXCLUSIVE_ATTACH_MINOR: u16 = 7;

/// Patch part of the exclusive-attach threshold.
pub const EXCLUSIVE_ATTACH_PATCH: u16 = 0;

/// Largest value a release component may hold.
pub const MAX_COMPONENT: u64 = 65535;

/// A kernel version, as major.minor.patch.
#[derive(Clone, Copy, PartialEq, Eq, Structural, Debug)]
pub struct KernelVersion {
    /// Major version.
    pub major: u16,
    /// Minor version.
    pub minor: u16,
    /// Patch level.
    pub patch: u16,
}

impl KernelVersion {
    /// Lexicographic order: major, then minor, then patch.
    pub open spec fn spec_at_least(self, major: u16, minor: u16, patch: u16) -> bool {
        ||| self.major > major
        ||| (self.major == major && self.minor > minor)
        ||| (self.major == major && self.minor == minor && self.patch >= patch)
    }

    /// Compares this version against a threshold, lexicographically.
    pub fn at_least(&self, major: u16, minor: u16, patch: u16) -> (r: bool)
        ensures
            r == self.spec_at_least(major, minor, patch),
    {
        self.major > major || (self.major == major && self.minor > minor) || (self.major == major
            && self.minor == minor && self.patch >= patch)
    }
}

/// How the socket-hook program is attached to its control group.
#[derive(Clone, Copy, PartialEq, Eq, Structural, Debug)]
pub enum AttachMode {
    /// Exclusive single-program attachment; required from kernel 5.7.0 on.
    Single,
    /// Additive multi-program attachment; required below kernel 5.7.0.
    AllowMultiple,
}

/// Selects the attach mode the running kernel requires: exclusive at or
/// above the 5.7.0 threshold, additive below it.
pub fn select_attach_mode(version: KernelVersion) -> (r: AttachMode)
    ensures
        r == AttachMode::Single <==> version.spec_at_least(
            EXCLUSIVE_ATTACH_MAJOR,
            EXCLUSIVE_ATTACH_MINOR,
            EXCLUSIVE_ATTACH_PATCH,
        ),
        r == AttachMode::AllowMultiple <==> !version.spec_at_least(
            EXCLUSIVE_ATTACH_MAJOR,
            EXCLUSIVE_ATTACH_MINOR,
            EXCLUSIVE_ATTACH_PATCH,
        ),
{
    if version.at_least(EXCLUSIVE_ATTACH_MAJOR, EXCLUSIVE_ATTACH_MINOR, EXCLUSIVE_ATTACH_PATCH) {
        AttachMode::Single
    } else {
        AttachMode::AllowMultiple
    }
}

/// An ASCII decimal digit.
pub open spec fn is_ascii_digit(b: u8) -> bool {
    48 <= b && b <= 57
}

/// End of the digit run that starts at `i`.
pub open spec fn digit_end(s: Seq<u8>, i: int) -> int
    decreases s.len() - i
        when 0 <= i <= s.len()
{
    if i < s.len() && is_ascii_digit(s[i]) {
        digit_end(s, i + 1)
    } else {
        i
    }
}

/// Decimal value of the digits `s[i..j)`.
pub open spec fn digits_value(s: Seq<u8>, i: int, j: int) -> int
    decreases j - i
        when i <= j
{
    if i >= j {
        0
    } else {
        digits_value(s, i, j - 1) * 10 + (s[j - 1] - 48)
    }
}

/// A parsable version component starts at `i`: at least one digit, and a
/// value within [`MAX_COMPONENT`].
pub open spec fn component_ok(s: Seq<u8>, i: int) -> bool {
    digit_end(s, i) > i && digits_value(s, i, digit_end(s, i)) <= MAX_COMPONENT
}

/// A release string has the shape `major.minor.patch...`: three parsable
/// components separated by dots, with arbitrary non-digit-led trailing
/// text after the third.
pub open spec fn release_ok(s: Seq<u8>) -> bool {
    let e1 = digit_end(s, 0);
    let e2 = digit_end(s, e1 + 1);
    &&& component_ok(s, 0)
    &&& e1 < s.len() && s[e1] == 46
    &&& component_ok(s, e1 + 1)
    &&& e2 < s.len() && s[e2] == 46
    &&& component_ok(s, e2 + 1)
}

/// The version a well-shaped release string denotes.
pub open spec fn spec_parse_release(s: Seq<u8>) -> KernelVersion
    recommends
        release_ok(s),
{
    let e1 = digit_end(s, 0);
    let e2 = digit_end(s, e1 + 1);
    let e3 = digit_end(s, e2 + 1);
    KernelVersion {
        major: digits_value(s, 0, e1) as u16,
        minor: digits_value(s, e1 + 1, e2) as u16,
        patch: digits_value(s, e2 + 1, e3) as u16,
    }
}

/// Properties of the digit run: it is made of digits and is maximal.
proof fn lemma_digit_end_bounds(s: Seq<u8>, i: int)
    requires
        0 <= i <= s.len(),
    ensures
        i <= digit_end(s, i) <= s.len(),
        forall|t: int| i <= t < digit_end(s, i) ==> is_ascii_digit(s[t]),
        digit_end(s, i) < s.len() ==> !is_ascii_digit(s[digit_end(s, i)]),
    decreases s.len() - i,
{
    if i < s.len() && is_ascii_digit(s[i]) {
        lemma_digit_end_bounds(s, i + 1);
    }
}

/// The digit run ends exactly at the first non-digit position.
proof fn lemma_digit_end_is(s: Seq<u8>, i: int, j: int)
    requires
        0 <= i <= j <= s.len(),
        forall|t: int| i <= t < j ==> is_ascii_digit(s[t]),
        j == s.len() || !is_ascii_digit(s[j]),
    ensures
        digit_end(s, i) == j,
    decreases j - i,
{
    if i < j {
        assert(is_ascii_digit(s[i]));
        lemma_digit_end_is(s, i + 1, j);
    }
}

/// The value of a run of digits is non-negative.
proof fn lemma_digits_value_nonneg(s: Seq<u8>, i: int, j: int)
    requires
        i <= j,
        forall|t: int| i <= t < j ==> is_ascii_digit(s[t]),
    ensures
        digits_value(s, i, j) >= 0,
    decreases j - i,
{
    if i < j {
        lemma_digits_value_nonneg(s, i, j - 1);
    }
}

/// Parses the decimal component that starts at `start`; on success returns
/// its value and the position just past its digits.
fn parse_component(s: &[u8], start: usize) -> (r: Option<(u16, usize)>)
    requires
        start <= s@.len(),
    ensures
        r is Some <==> component_ok(s@, start as int),
        r matches Some(p) ==> {
            &&& p.1 == digit_end(s@, start as int)
            &&& start < p.1 <= s@.len()
            &&& p.0 == digits_value(s@, start as int, p.1 as int)
        },
{
    proof {
        lemma_digit_end_bounds(s@, start as int);
    }
    let n = s.len();
    let mut i = start;
    let mut acc: u64 = 0;
    let mut too_big = false;
    while i < n && is_digit_byte(*vstd::slice::slice_index_get(s, i))
        invariant
            start <= i <= n,
            n == s@.len(),
            forall|t: int| start <= t < i ==> is_ascii_digit(s@[t]),
            !too_big ==> acc == digits_value(s@, start as int, i as int) && acc <= MAX_COMPONENT,
            too_big ==> digits_value(s@, start as int, i as int) > MAX_COMPONENT,
        decreases n - i,
    {
        let d = (*vstd::slice::slice_index_get(s, i) - 48) as u64;
        proof {
            lemma_digits_value_nonneg(s@, start as int, i as int);
        }
        if too_big {
        } else {
            let next = acc * 10 + d;
            if next > MAX_COMPONENT {
                too_big = true;
            } else {
                acc = next;
            }
        }
        i += 1;
    }
    proof {
        lemma_digit_end_is(s@, start as int, i as int);
    }
    if i == start || too_big {
        None
    } else {
        Some((acc as u16, i))
    }
}

/// Whether a byte is an ASCII decimal digit.
fn is_digit_byte(b: u8) -> (r: bool)
    ensures
        r == is_ascii_digit(b),
{
    48 <= b && b <= 57
}

/// Parses a kernel release string such as one read from the kernel's
/// release field: `major.minor.patch` followed by arbitrary text, as in a
/// distribution suffix. Returns the version exactly when the string is
/// well shaped, and nothing otherwise.
pub fn parse_kernel_release(s: &[u8]) -> (r: Option<KernelVersion>)
    ensures
        r is Some <==> release_ok(s@),
        r matches Some(v) ==> v == spec_parse_release(s@),
{
    let first = parse_component(s, 0);
    let (major, e1) = match first {
        Some(p) => p,
        None => {
            return None;
        },
    };
    if e1 == s.len() || *vstd::slice::slice_index_get(s, e1) != 46 {
        return None;
    }
    let second = parse_component(s, e1 + 1);
    let (minor, e2) = match second {
        Some(p) => p,
        None => {
            return None;
        },
    };
    if e2 == s.len() || *vstd::slice::slice_index_get(s, e2) != 46 {
        return None;
    }
    let third = parse_component(s, e2 + 1);
    let (patch, _e3) = match third {
        Some(p) => p,
        None => {
            return None;
        },
    };
    Some(KernelVersion { major, minor, patch })
}

/// Stage of the control plane's one-way lifecycle.
#[derive(Clone, Copy, PartialEq, Eq, Structural, Debug)]
pub enum ControlPlaneStage {
    /// No program artifact has been loaded yet.
    Unloaded,
    /// Artifacts are loaded; nothing is attached yet.
    Loaded,
    /// Both programs are attached; the map is available.
    Attached,
}

/// The interception control plane.
///
/// Owns the interception program set and the flow-configuration map, and
/// enforces the `Unloaded -> Loaded -> Attached` order: the map is handed
/// out only once both programs are attached, so no traffic can depend on
/// fault injection before the kernel side is in place.
pub struct ControlPlane {
    stage: ControlPlaneStage,
    attach_mode: Option<AttachMode>,
    map: FlowConfigMap,
}

impl ControlPlane {
    /// Stage the control plane is in.
    pub closed spec fn spec_stage(&self) -> ControlPlaneStage {
        self.stage
    }

    /// Attach mode chosen for the socket-hook program, once attached.
    pub closed spec fn spec_attach_mode(&self) -> Option<AttachMode> {
        self.attach_mode
    }

    /// View of the owned flow-configuration map.
    pub closed spec fn spec_map(&self) -> FlowConfigMap {
        self.map
    }

    /// A mode is recorded exactly once attached, and the map is valid.
    pub open spec fn wf(&self) -> bool {
        &&& (self.spec_stage() == ControlPlaneStage::Attached <==> self.spec_attach_mode()
            is Some)
        &&& self.spec_map().wf()
    }

    /// Creates an unloaded control plane whose map holds `map_capacity`
    /// flows.
    pub fn new(map_capacity: usize) -> (r: ControlPlane)
        ensures
            r.wf(),
            r.spec_stage() == ControlPlaneStage::Unloaded,
            r.spec_map()@ == Map::<crate::socket_key::SocketKey, crate::config_map::FlowPair>::empty(),
            r.spec_map().spec_capacity() == map_capacity,
    {
        ControlPlane {
            stage: ControlPlaneStage::Unloaded,
            attach_mode: None,
            map: FlowConfigMap::new(map_capacity),
        }
    }

    /// Records the outcome of loading the program artifacts. Loading is
    /// the first step, and a rejected artifact is fatal: the control plane
    /// stays unloaded.
    pub fn finish_load(&mut self, artifacts_ok: bool) -> (r: Result<(), LoadError>)
        requires
            old(self).wf(),
            old(self).spec_stage() == ControlPlaneStage::Unloaded,
        ensures
            final(self).wf(),
            final(self).spec_map() == old(self).spec_map(),
            r is Ok <==> artifacts_ok,
            artifacts_ok ==> final(self).spec_stage() == ControlPlaneStage::Loaded,
            !artifacts_ok ==> r == Result::<(), LoadError>::Err(LoadError::ArtifactRejected)
                && *final(self) == *old(self),
    {
        if artifacts_ok {
            self.stage = ControlPlaneStage::Loaded;
            Ok(())
        } else {
            Err(LoadError::ArtifactRejected)
        }
    }

    /// Records the outcome of attaching both programs: the packet-path
    /// program at the two interception points, then the socket-hook
    /// program to the control group in the mode the kernel requires.
    /// Attachment needs loaded artifacts, and only a fully attached
    /// control plane reaches `Attached`; a partial failure leaves it
    /// loaded, which is fatal to initialization.
    pub fn finish_attach(
        &mut self,
        kernel: KernelVersion,
        packet_path_ok: bool,
        socket_hook_ok: bool,
    ) -> (r: Result<AttachMode, AttachError>)
        requires
            old(self).wf(),
            old(self).spec_stage() == ControlPlaneStage::Loaded,
        ensures
            final(self).wf(),
            final(self).spec_map() == old(self).spec_map(),
            r is Ok <==> packet_path_ok && socket_hook_ok,
            r matches Ok(m) ==> {
                &&& m == AttachMode::Single <==> kernel.spec_at_least(
                    EXCLUSIVE_ATTACH_MAJOR,
                    EXCLUSIVE_ATTACH_MINOR,
                    EXCLUSIVE_ATTACH_PATCH,
                )
                &&& final(self).spec_stage() == ControlPlaneStage::Attached
                &&& final(self).spec_attach_mode() == Some(m)
            },
            !packet_path_ok ==> r == Result::<AttachMode, AttachError>::Err(
                AttachError::PacketPathFailed,
            ) && *final(self) == *old(self),
            packet_path_ok && !socket_hook_ok ==> r == Result::<AttachMode, AttachError>::Err(
                AttachError::SocketHookFailed,
            ) && *final(self) == *old(self),
    {
        if !packet_path_ok {
            return Err(AttachError::PacketPathFailed);
        }
        if !socket_hook_ok {
            return Err(AttachError::SocketHookFailed);
        }
        let mode = select_attach_mode(kernel);
        self.stage = ControlPlaneStage::Attached;
        self.attach_mode = Some(mode);
        Ok(mode)
    }

    /// Stage the control plane is in.
    pub fn stage(&self) -> (r: ControlPlaneStage)
        ensures
            r == self.spec_stage(),
    {
        self.stage
    }

    /// Hands the flow-configuration map over to the socket builder. Only
    /// an attached control plane exposes it: traffic must not be
    /// conditioned before the kernel programs are in place.
    pub fn into_map(self) -> (r: FlowConfigMap)
        requires
            self.wf(),
            self.spec_stage() == ControlPlaneStage::Attached,
        ensures
            r == self.spec_map(),
            r.wf(),
    {
        self.map
    }
}

} // verus!
