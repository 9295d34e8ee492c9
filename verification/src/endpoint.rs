//! Whom the daemon's Unix socket is trusted by: where the socket lives,
//! which owners and permission bits make its directory, the directories
//! above it, the socket itself, its lock file and a connecting peer
//! trustworthy, and what to do with a socket or staging file found in the
//! way when the daemon starts. The host reads the file metadata and does
//! the file system work.

use vstd::prelude::*;
use crate::text::string_of;

verus! {

/// The sticky bit: in a directory others may write to, only a file's owner
/// may remove or rename it.
pub const STICKY_BIT: u32 = 0o1000;

/// The error for an endpoint that is not trusted.
pub open spec fn denied_message() -> Seq<char> {
    "untrusted IPC endpoint"@
}

/// The error for an endpoint that is not trusted.
pub fn denied() -> (r: String)
    ensures
        r@ == denied_message(),
{
    string_of("untrusted IPC endpoint")
}

/// The socket's directory is trusted when the user owns it and nobody else
/// may read, write or enter it.
pub open spec fn dir_trusted_spec(owner: u32, mode: u32, me: u32) -> bool {
    owner == me && mode & 0o077 == 0
}

/// Whether the socket's directory is trusted (see [`dir_trusted_spec`]).
pub fn dir_trusted(owner: u32, mode: u32, me: u32) -> (r: bool)
    ensures
        r == dir_trusted_spec(owner, mode, me),
{
    owner == me && mode & 0o077 == 0
}

/// A directory above the socket's, as written in its path, is trusted
/// when it is not a symlink of another owner than root, is owned by root
/// or the user, and (unless it is a symlink) nobody else may write to it or
/// it is root's with the sticky bit.
pub open spec fn ancestor_trusted_spec(is_symlink: bool, owner: u32, mode: u32, me: u32) -> bool {
    &&& !(is_symlink && owner != 0)
    &&& (owner == 0 || owner == me)
    &&& (is_symlink || mode & 0o022 == 0 || (owner == 0 && mode & STICKY_BIT != 0))
}

/// Whether a directory above the socket's, as written, is trusted (see
/// [`ancestor_trusted_spec`]).
pub fn ancestor_trusted(is_symlink: bool, owner: u32, mode: u32, me: u32) -> (r: bool)
    ensures
        r == ancestor_trusted_spec(is_symlink, owner, mode, me),
{
    if is_symlink && owner != 0 {
        return false;
    }
    if owner != 0 && owner != me {
        return false;
    }
    if !is_symlink && mode & 0o022 != 0 && !(owner == 0 && mode & STICKY_BIT != 0) {
        return false;
    }
    true
}

/// A directory above the socket's real location is trusted when it is
/// owned by root or the user, and nobody else may write to it or it is
/// root's with the sticky bit.
pub open spec fn real_ancestor_trusted_spec(owner: u32, mode: u32, me: u32) -> bool {
    &&& (owner == 0 || owner == me)
    &&& (mode & 0o022 == 0 || (owner == 0 && mode & STICKY_BIT != 0))
}

/// Whether a directory above the socket's real location is trusted (see
/// [`real_ancestor_trusted_spec`]).
pub fn real_ancestor_trusted(owner: u32, mode: u32, me: u32) -> (r: bool)
    ensures
        r == real_ancestor_trusted_spec(owner, mode, me),
{
    (owner == 0 || owner == me) && (mode & 0o022 == 0 || (owner == 0 && mode & STICKY_BIT != 0))
}

/// The socket, and the lock file beside it, are trusted when they are what
/// they should be (a socket, a plain file), the user owns them, and nobody
/// else may use them.
pub open spec fn own_private_spec(right_kind: bool, owner: u32, mode: u32, me: u32) -> bool {
    right_kind && owner == me && mode & 0o077 == 0
}

/// Whether the socket or its lock file is trusted (see
/// [`own_private_spec`]).
pub fn own_private(right_kind: bool, owner: u32, mode: u32, me: u32) -> (r: bool)
    ensures
        r == own_private_spec(right_kind, owner, mode, me),
{
    right_kind && owner == me && mode & 0o077 == 0
}

/// A connecting peer is trusted when it runs as the user.
pub fn peer_trusted(peer_uid: u32, me: u32) -> (r: bool)
    ensures
        r == (peer_uid == me),
{
    peer_uid == me
}

/// What was found at the socket's path when the daemon starts.
pub enum FoundSocket {
    /// Nothing is there.
    Nothing,
    /// Something untrusted, or an error other than its absence, with its
    /// error.
    Refused(String),
    /// A trusted socket, which a daemon answered on.
    Answered,
    /// A trusted socket nobody answers on: left by a daemon that died.
    Refusing,
    /// A trusted socket whose connection failed otherwise, with the error.
    Failed(String),
}

/// What the starting daemon does about its socket path.
pub enum SocketStep {
    /// Go on and publish the socket.
    Publish,
    /// Remove the stale socket, then publish.
    RemoveStale,
    /// Another daemon runs: give up with "address in use".
    InUse,
    /// Give up with this error.
    Fail(String),
}

/// What the starting daemon does about what it found at its socket path
/// (see [`socket_step`]).
pub open spec fn step_for(found: FoundSocket) -> SocketStep {
    match found {
        FoundSocket::Nothing => SocketStep::Publish,
        FoundSocket::Answered => SocketStep::InUse,
        FoundSocket::Refusing => SocketStep::RemoveStale,
        FoundSocket::Refused(e) => SocketStep::Fail(e),
        FoundSocket::Failed(e) => SocketStep::Fail(e),
    }
}

/// Decides what the starting daemon does about what is at its socket path:
/// a live daemon means another one runs, a dead one's socket is removed,
/// nothing there is fine, and anything else stops the start.
pub fn socket_step(found: FoundSocket) -> (r: SocketStep)
    ensures
        r == step_for(found),
{
    match found {
        FoundSocket::Nothing => SocketStep::Publish,
        FoundSocket::Answered => SocketStep::InUse,
        FoundSocket::Refusing => SocketStep::RemoveStale,
        FoundSocket::Refused(e) => SocketStep::Fail(e),
        FoundSocket::Failed(e) => SocketStep::Fail(e),
    }
}

/// What the starting daemon does about the staging name it binds the
/// socket under before publishing it: a leftover socket of the user's own
/// is removed (`Some(true)`), nothing there is fine (`Some(false)`), and
/// anything else is refused (`None`).
pub fn staging_step(exists: bool, is_socket: bool, owner: u32, me: u32) -> (r: Option<bool>)
    ensures
        r == (if !exists {
            Some(false)
        } else if is_socket && owner == me {
            Some(true)
        } else {
            None
        }),
{
    if !exists {
        Some(false)
    } else if is_socket && owner == me {
        Some(true)
    } else {
        None
    }
}

/// The socket's file name: a debug build gets its own, so that it never
/// talks to an installed release daemon.
pub open spec fn socket_file_name_spec(debug_build: bool) -> Seq<char> {
    if debug_build {
        "daemon-dev.sock"@
    } else {
        "daemon.sock"@
    }
}

/// The socket's file name (see [`socket_file_name_spec`]).
pub fn socket_file_name(debug_build: bool) -> (r: String)
    ensures
        r@ == socket_file_name_spec(debug_build),
{
    if debug_build {
        string_of("daemon-dev.sock")
    } else {
        string_of("daemon.sock")
    }
}

/// Where the socket's directory is, as path components: inside a Flatpak
/// sandbox the app's own runtime directory, otherwise a `blockwork`
/// directory in the user's runtime directory, or, with no runtime
/// directory, a per-user directory in the temporary directory
/// (`tmp_dir`, then `blockwork-<uid>`).
pub enum SocketDir {
    /// `<runtime>/app/<flatpak id>`.
    FlatpakRuntime(String),
    /// `<runtime>/blockwork`.
    Runtime,
    /// `<temp>/blockwork-<uid>`: the last component.
    Temp(String),
}

/// Where the socket's directory is (see [`SocketDir`]).
pub fn socket_dir(flatpak_id: Option<String>, has_runtime_dir: bool, uid: u32) -> (r: SocketDir)
    ensures
        match (flatpak_id, has_runtime_dir) {
            (Some(id), true) => r == SocketDir::FlatpakRuntime(id),
            (None, true) => r is Runtime,
            _ => r matches SocketDir::Temp(n) && n@ == "blockwork-"@ + crate::text::decimal(uid as nat),
        },
{
    match (flatpak_id, has_runtime_dir) {
        (Some(id), true) => SocketDir::FlatpakRuntime(id),
        (None, true) => SocketDir::Runtime,
        _ => {
            let mut n = string_of("blockwork-");
            crate::text::push_decimal(&mut n, uid as usize);
            SocketDir::Temp(n)
        },
    }
}

/// Whether a stopping daemon removes the socket at its path: only while
/// the file there is still the socket it published (the same device and
/// inode), never one a later daemon put there.
pub fn cleanup_removes(found: Option<(u64, u64)>, published: (u64, u64)) -> (r: bool)
    ensures
        r == (found == Some(published)),
{
    match found {
        Some((dev, ino)) => dev == published.0 && ino == published.1,
        None => false,
    }
}

/// What is at the socket's path, as far as starting and stopping daemons
/// go: nothing, a socket a dead daemon left, or the socket a running daemon
/// published, by its device and inode.
pub enum AtSocketPath {
    Nothing,
    Stale,
    Listening(u64, u64),
}

/// What a starting daemon finds there.
pub open spec fn found_at(p: AtSocketPath) -> FoundSocket {
    match p {
        AtSocketPath::Nothing => FoundSocket::Nothing,
        AtSocketPath::Stale => FoundSocket::Refusing,
        AtSocketPath::Listening(_, _) => FoundSocket::Answered,
    }
}

/// What is there after a daemon starts with the new socket `id`: its
/// socket when it may publish (after removing a stale one), else what was
/// there.
pub open spec fn after_start(p: AtSocketPath, id: (u64, u64)) -> AtSocketPath {
    match step_for(found_at(p)) {
        SocketStep::Publish | SocketStep::RemoveStale => AtSocketPath::Listening(id.0, id.1),
        _ => p,
    }
}

/// What is there after the daemon that published `id` stops.
pub open spec fn after_stop(p: AtSocketPath, id: (u64, u64)) -> AtSocketPath {
    let found = match p {
        AtSocketPath::Listening(d, i) => Some((d, i)),
        _ => None,
    };
    if found == Some(id) {
        AtSocketPath::Nothing
    } else {
        p
    }
}

/// One daemon at a time owns the socket: a daemon starting over a stale
/// socket replaces it; while it runs a second daemon is turned away with
/// "address in use" and changes nothing; once it stops the path is free and
/// a new daemon starts again. A daemon that stops after being replaced
/// leaves its successor's socket alone.
pub proof fn lemma_one_daemon_owns_the_socket(first: (u64, u64), second: (u64, u64), third: (u64, u64))
    requires
        second != first,
    ensures
        step_for(found_at(AtSocketPath::Stale)) is RemoveStale,
        after_start(AtSocketPath::Stale, first) == AtSocketPath::Listening(first.0, first.1),
        step_for(found_at(AtSocketPath::Listening(first.0, first.1))) is InUse,
        after_start(AtSocketPath::Listening(first.0, first.1), second) == AtSocketPath::Listening(first.0, first.1),
        after_stop(AtSocketPath::Listening(first.0, first.1), first) == AtSocketPath::Nothing,
        after_start(AtSocketPath::Nothing, third) == AtSocketPath::Listening(third.0, third.1),
        after_stop(AtSocketPath::Listening(first.0, first.1), second) == AtSocketPath::Listening(first.0, first.1),
{
}

} // verus!
