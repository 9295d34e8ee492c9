use blockwork::endpoint::cleanup_removes;
use blockwork::endpoint::{
    ancestor_trusted, denied, dir_trusted, own_private, peer_trusted, real_ancestor_trusted, socket_dir,
    socket_file_name, socket_step, staging_step, FoundSocket, SocketDir, SocketStep,
};

const ME: u32 = 1000;

#[test]
fn the_socket_directory_must_be_private_and_ours() {
    assert!(dir_trusted(ME, 0o700, ME));
    assert!(!dir_trusted(ME, 0o750, ME));
    assert!(!dir_trusted(0, 0o700, ME));
}

#[test]
fn writable_ancestors_are_refused_unless_sticky_and_roots() {
    assert!(ancestor_trusted(false, 0, 0o755, ME));
    assert!(ancestor_trusted(false, ME, 0o755, ME));
    assert!(!ancestor_trusted(false, 1234, 0o755, ME));
    assert!(!ancestor_trusted(false, ME, 0o777, ME));
    assert!(ancestor_trusted(false, 0, 0o1777, ME));
    assert!(!ancestor_trusted(false, ME, 0o1777, ME));
    assert!(ancestor_trusted(true, 0, 0o777, ME));
    assert!(!ancestor_trusted(true, ME, 0o777, ME));
    assert!(real_ancestor_trusted(0, 0o1777, ME));
    assert!(!real_ancestor_trusted(ME, 0o777, ME));
}

#[test]
fn sockets_lock_files_and_peers() {
    assert!(own_private(true, ME, 0o600, ME));
    assert!(!own_private(false, ME, 0o600, ME));
    assert!(!own_private(true, ME, 0o644, ME));
    assert!(peer_trusted(ME, ME));
    assert!(!peer_trusted(0, ME));
    assert_eq!(denied(), "untrusted IPC endpoint");
}

#[test]
fn what_the_starting_daemon_does_with_its_path() {
    assert!(matches!(socket_step(FoundSocket::Nothing), SocketStep::Publish));
    assert!(matches!(socket_step(FoundSocket::Answered), SocketStep::InUse));
    assert!(matches!(socket_step(FoundSocket::Refusing), SocketStep::RemoveStale));
    assert!(matches!(socket_step(FoundSocket::Failed("x".into())), SocketStep::Fail(e) if e == "x"));
    assert_eq!(staging_step(false, false, 0, ME), Some(false));
    assert_eq!(staging_step(true, true, ME, ME), Some(true));
    assert_eq!(staging_step(true, false, ME, ME), None);
    assert_eq!(staging_step(true, true, 0, ME), None);
}

#[test]
fn where_the_socket_lives() {
    assert_eq!(socket_file_name(false), "daemon.sock");
    assert_eq!(socket_file_name(true), "daemon-dev.sock");
    assert!(matches!(socket_dir(Some("io.blockwork".into()), true, ME), SocketDir::FlatpakRuntime(id) if id == "io.blockwork"));
    assert!(matches!(socket_dir(None, true, ME), SocketDir::Runtime));
    assert!(matches!(socket_dir(Some("io.blockwork".into()), false, ME), SocketDir::Temp(n) if n == "blockwork-1000"));
}

#[test]
fn only_the_published_socket_is_removed_on_stop() {
    assert!(cleanup_removes(Some((1, 42)), (1, 42)));
    assert!(!cleanup_removes(Some((1, 43)), (1, 42)));
    assert!(!cleanup_removes(None, (1, 42)));
}
