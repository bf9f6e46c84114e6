//! Which kind of ICMP socket the liveness probe may use.

use vstd::prelude::*;

verus! {

/// Raw sockets need root; datagram sockets work for ordinary users where the
/// system allows it.
#[derive(Clone, Copy, Debug, PartialEq, Eq, Structural)]
pub enum SocketKind {
    Raw,
    Dgram,
}

#[derive(Clone, Copy, Debug, PartialEq, Eq, Structural)]
pub enum SocketError {
    /// A raw socket was asked for by a process that is not root.
    NeedsRoot,
    /// The name is neither `raw` nor `dgram`.
    UnknownSocketType,
}

/// The lower-case form of a text, as std's Unicode case mapping gives it.
pub uninterp spec fn lower_of(s: Seq<char>) -> Seq<char>;

/// Relies on `str::to_lowercase`: its result depends on the characters alone.
#[verifier::external_body]
fn lowercase(s: &str) -> (r: String)
    ensures
        r@ == lower_of(s@),
{
    s.to_lowercase()
}

/// Relies on `is_sudo::check`: whether the process runs with root's
/// effective user id. Nothing is known of the answer beforehand.
#[verifier::external_body]
fn running_as_root() -> (r: bool) {
    match is_sudo::check() {
        is_sudo::RunningAs::Root => true,
        is_sudo::RunningAs::User => false,
    }
}

/// The socket for an already lower-cased name, given whether the process
/// runs as root.
pub open spec fn socket_for(lowered: Seq<char>, as_root: bool) -> Result<SocketKind, SocketError> {
    if lowered == "raw"@ {
        if as_root {
            Ok(SocketKind::Raw)
        } else {
            Err(SocketError::NeedsRoot)
        }
    } else if lowered == "dgram"@ {
        Ok(SocketKind::Dgram)
    } else {
        Err(SocketError::UnknownSocketType)
    }
}

/// Decides the socket for a name that is already lower case.
pub fn socket_kind_for(lowered: &str, as_root: bool) -> (r: Result<SocketKind, SocketError>)
    ensures
        r == socket_for(lowered@, as_root),
{
    if crate::status::text_eq(lowered, "raw") {
        if as_root {
            Ok(SocketKind::Raw)
        } else {
            Err(SocketError::NeedsRoot)
        }
    } else if crate::status::text_eq(lowered, "dgram") {
        Ok(SocketKind::Dgram)
    } else {
        Err(SocketError::UnknownSocketType)
    }
}

/// Picks the socket for a name given in any case. Whether the process runs
/// as root is asked only when a raw socket is wanted.
pub fn select_socket(requested: &str) -> (r: Result<SocketKind, SocketError>)
    ensures
        lower_of(requested@) == "dgram"@ ==> r == Ok::<SocketKind, SocketError>(SocketKind::Dgram),
        lower_of(requested@) == "raw"@ ==> r == Ok::<SocketKind, SocketError>(SocketKind::Raw)
            || r == Err::<SocketKind, SocketError>(SocketError::NeedsRoot),
        lower_of(requested@) != "raw"@ && lower_of(requested@) != "dgram"@ ==> r == Err::<
            SocketKind,
            SocketError,
        >(SocketError::UnknownSocketType),
{
    proof {
        reveal_strlit("raw");
        reveal_strlit("dgram");
        assert("raw"@[0] != "dgram"@[0]);
    }
    let lowered = lowercase(requested);
    let as_root = if crate::status::text_eq(lowered.as_str(), "raw") {
        running_as_root()
    } else {
        false
    };
    socket_kind_for(lowered.as_str(), as_root)
}

} // verus!
