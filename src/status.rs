//! Server status as reported by the compute service, as a closed set with an
//! inert catch-all.

use vstd::prelude::*;
use vstd::string::StrSliceExecFns;
use vstd::string::StringExecFns;

verus! {

/// Status of a compute server. Text the service may report that is not one of
/// the named states lands in `Other`, which no decision acts upon.
pub enum ServerStatus {
    Active,
    ShelvedOffloaded,
    Shelved,
    ShutOff,
    Building,
    Error,
    Other(String),
}

/// How prominently a status is shown to the operator.
#[derive(Clone, Copy, Debug, PartialEq, Eq, Structural)]
pub enum StatusBadge {
    /// Running normally.
    Running,
    /// Shelved and offloaded: the server holds no compute resources.
    Offloaded,
    /// Anything else deserves a look.
    Attention,
}

/// Whether `text` names one of the states with a variant of its own.
pub open spec fn is_named_status(text: Seq<char>) -> bool {
    ||| text == "ACTIVE"@
    ||| text == "SHELVED_OFFLOADED"@
    ||| text == "SHELVED"@
    ||| text == "SHUTOFF"@
    ||| text == "BUILD"@
    ||| text == "ERROR"@
}

/// `status` is what the service's status text `text` reads as.
pub open spec fn reads_as(text: Seq<char>, status: ServerStatus) -> bool {
    match status {
        ServerStatus::Active => text == "ACTIVE"@,
        ServerStatus::ShelvedOffloaded => text == "SHELVED_OFFLOADED"@,
        ServerStatus::Shelved => text == "SHELVED"@,
        ServerStatus::ShutOff => text == "SHUTOFF"@,
        ServerStatus::Building => text == "BUILD"@,
        ServerStatus::Error => text == "ERROR"@,
        ServerStatus::Other(t) => t@ == text && !is_named_status(text),
    }
}

/// Character-wise equality of two strings.
pub fn text_eq(a: &str, b: &str) -> (r: bool)
    ensures
        r == (a@ == b@),
{
    let n = a.unicode_len();
    if n != b.unicode_len() {
        return false;
    }
    let mut i: usize = 0;
    while i < n
        invariant
            n == a@.len(),
            n == b@.len(),
            i <= n,
            a@.subrange(0, i as int) == b@.subrange(0, i as int),
        decreases n - i,
    {
        if a.get_char(i) != b.get_char(i) {
            return false;
        }
        assert(a@.subrange(0, i + 1) == a@.subrange(0, i as int).push(a@[i as int]));
        assert(b@.subrange(0, i + 1) == b@.subrange(0, i as int).push(b@[i as int]));
        i = i + 1;
    }
    assert(a@ == a@.subrange(0, n as int));
    assert(b@ == b@.subrange(0, n as int));
    true
}

impl ServerStatus {
    /// Reads the status text reported by the compute service.
    pub fn from_text(text: &str) -> (r: ServerStatus)
        ensures
            reads_as(text@, r),
    {
        if text_eq(text, "ACTIVE") {
            ServerStatus::Active
        } else if text_eq(text, "SHELVED_OFFLOADED") {
            ServerStatus::ShelvedOffloaded
        } else if text_eq(text, "SHELVED") {
            ServerStatus::Shelved
        } else if text_eq(text, "SHUTOFF") {
            ServerStatus::ShutOff
        } else if text_eq(text, "BUILD") {
            ServerStatus::Building
        } else if text_eq(text, "ERROR") {
            ServerStatus::Error
        } else {
            ServerStatus::Other(String::from_str(text))
        }
    }

    pub fn badge(&self) -> (r: StatusBadge)
        ensures
            r == match *self {
                ServerStatus::Active => StatusBadge::Running,
                ServerStatus::ShelvedOffloaded => StatusBadge::Offloaded,
                _ => StatusBadge::Attention,
            },
    {
        match self {
            ServerStatus::Active => StatusBadge::Running,
            ServerStatus::ShelvedOffloaded => StatusBadge::Offloaded,
            _ => StatusBadge::Attention,
        }
    }

    pub fn is_shelved_offloaded(&self) -> (r: bool)
        ensures
            r == (*self is ShelvedOffloaded),
    {
        match self {
            ServerStatus::ShelvedOffloaded => true,
            _ => false,
        }
    }
}

} // verus!
