use vstd::prelude::*;

verus! {

/// A hardware revision: four numbers that order it, and the commit it was
/// built from, which does not.
#[derive(Clone, Copy, Debug, PartialEq, Eq)]
pub struct Version {
    pub maj: u16,
    pub min: u16,
    pub rev: u16,
    pub extra: u16,
    pub commit: Option<u32>,
}

impl Version {
    /// Strictly older: the four numbers compared in turn, the commit ignored.
    pub open spec fn precedes(self, other: Version) -> bool {
        ||| self.maj < other.maj
        ||| self.maj == other.maj && self.min < other.min
        ||| self.maj == other.maj && self.min == other.min && self.rev < other.rev
        ||| self.maj == other.maj && self.min == other.min && self.rev == other.rev && self.extra
            < other.extra
    }
}

/// The oldest hardware revision that the HID cores work with.
pub open spec fn minimum_version_spec() -> Version {
    Version { maj: 0, min: 9, rev: 8, extra: 20, commit: None }
}

/// The oldest hardware revision that the HID cores work with.
pub fn minimum_version() -> (r: Version)
    ensures
        r == minimum_version_spec(),
{
    Version { maj: 0, min: 9, rev: 8, extra: 20, commit: None }
}

/// Compares two revisions with the `<` of `xous_semver::SemVer`. That order is
/// not proved here: it is taken to be the one of `SemVer`'s `Ord`, which
/// compares `maj`, then `min`, then `rev`, then `extra`, and never the commit.
#[verifier::external_body]
fn semver_precedes(a: &Version, b: &Version) -> (r: bool)
    ensures
        r == a.precedes(*b),
{
    let left = xous_semver::SemVer { maj: a.maj, min: a.min, rev: a.rev, extra: a.extra, commit: a.commit };
    let right = xous_semver::SemVer { maj: b.maj, min: b.min, rev: b.rev, extra: b.extra, commit: b.commit };
    left < right
}

/// How the service starts on a given hardware revision.
#[derive(Clone, Copy, Debug, PartialEq, Eq, Structural)]
pub enum Startup {
    /// The hardware is recent enough: attach the USB objects and serve.
    Serve,
    /// The hardware is too old: attach nothing and answer as `degraded_reply`
    /// says. `notify` tells whether the user is to be told so.
    Degraded { notify: bool },
}

/// Whether a hardware revision is recent enough for the HID cores.
pub fn is_compatible(soc: &Version) -> (r: bool)
    ensures
        r == !soc.precedes(minimum_version_spec()),
{
    let minimum = minimum_version();
    !semver_precedes(soc, &minimum)
}

/// The compatibility gate. A revision below the minimum starts the degraded
/// responder; the user is told unless the minor number is zero, which is what
/// a hosted build reports.
pub fn startup(soc: &Version) -> (r: Startup)
    ensures
        r == (if soc.precedes(minimum_version_spec()) {
            Startup::Degraded { notify: soc.min != 0 }
        } else {
            Startup::Serve
        }),
{
    if is_compatible(soc) {
        Startup::Serve
    } else {
        Startup::Degraded { notify: soc.min != 0 }
    }
}

/// The kinds of request that the service takes.
#[derive(Clone, Copy, Debug, PartialEq, Eq, Structural)]
pub enum RequestKind {
    SuspendResume,
    IsSocCompatible,
    U2fRxDeferred,
    U2fTx,
    UsbIrqHandler,
    SwitchCores,
    EnsureCore,
    WhichCore,
    RestrictDebugAccess,
    IsRestricted,
    DebugUsbOp,
    LinkStatus,
    SendKeyCode,
    SendString,
    GetLedState,
    Quit,
}

/// What the degraded responder does with a request. None of these touches
/// the USB hardware.
#[derive(Clone, Copy, Debug, PartialEq, Eq, Structural)]
pub enum DegradedReply {
    /// Answer with one number.
    Scalar(usize),
    /// Answer with two numbers.
    Scalar2(usize, usize),
    /// Keep the request and never answer it.
    Hold,
    /// Leave the loop.
    Quit,
    /// Drop the request.
    Ignore,
}

/// The answer of the degraded responder. A listener is held forever, `Quit`
/// ends the loop, a status query reads "unlocked, redraw", and every other
/// request that waits for a number gets zero: "incompatible" for the
/// compatibility query, "unsupported" for the rest.
pub open spec fn degraded_reply_spec(kind: Option<RequestKind>, blocking_scalar: bool) -> DegradedReply {
    match kind {
        Some(RequestKind::U2fRxDeferred) => DegradedReply::Hold,
        Some(RequestKind::Quit) => DegradedReply::Quit,
        Some(RequestKind::DebugUsbOp) => if blocking_scalar {
            DegradedReply::Scalar2(0, 1)
        } else {
            DegradedReply::Ignore
        },
        _ => if blocking_scalar {
            DegradedReply::Scalar(0)
        } else {
            DegradedReply::Ignore
        },
    }
}

/// Answers one request on hardware that is too old. `kind` is `None` for a
/// request of no known kind; `blocking_scalar` tells whether the caller waits
/// for a number.
pub fn degraded_reply(kind: Option<RequestKind>, blocking_scalar: bool) -> (r: DegradedReply)
    ensures
        r == degraded_reply_spec(kind, blocking_scalar),
        blocking_scalar && !(kind == Some(RequestKind::U2fRxDeferred) || kind == Some(
            RequestKind::Quit,
        ) || kind == Some(RequestKind::DebugUsbOp)) ==> r == DegradedReply::Scalar(0),
{
    match kind {
        Some(RequestKind::U2fRxDeferred) => DegradedReply::Hold,
        Some(RequestKind::Quit) => DegradedReply::Quit,
        Some(RequestKind::DebugUsbOp) => {
            if blocking_scalar {
                DegradedReply::Scalar2(0, 1)
            } else {
                DegradedReply::Ignore
            }
        },
        _ => {
            if blocking_scalar {
                DegradedReply::Scalar(0)
            } else {
                DegradedReply::Ignore
            }
        },
    }
}

/// The answer to the compatibility query: 1 on hardware that is recent
/// enough, 0 on hardware that is too old.
pub fn compatibility_reply(mode: Startup) -> (r: usize)
    ensures
        r == (if mode is Serve { 1usize } else { 0usize }),
{
    match mode {
        Startup::Serve => 1,
        Startup::Degraded { .. } => 0,
    }
}

} // verus!
