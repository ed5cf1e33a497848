use systemd::daemon;

#[test]
fn listen_fds_range() {
    let none = daemon::listen_fds(0);
    assert!(none.is_empty());
    assert_eq!(none.len(), 0);

    let fds = daemon::listen_fds(3);
    assert!(!fds.is_empty());
    assert_eq!(fds.len(), 3);
    let mut it = fds.iter();
    // the passed descriptors are numbered from LISTEN_FDS_START
    assert_eq!(it.next(), Some(3));
    assert_eq!(it.next(), Some(4));
    assert_eq!(it.next(), Some(5));
    assert_eq!(it.next(), None);
    assert_eq!(it.next(), None);
}

#[test]
fn socket_check_arguments() {
    assert_eq!(daemon::get_c_listening(daemon::Listening::IsListening), 1);
    assert_eq!(daemon::get_c_listening(daemon::Listening::IsNotListening), 0);
    assert_eq!(daemon::get_c_listening(daemon::Listening::NoListeningCheck), -1);
    assert_eq!(daemon::get_c_socktype(Some(daemon::SocketType::Stream)), 1);
    assert_eq!(daemon::get_c_socktype(Some(daemon::SocketType::Datagram)), 2);
    assert_eq!(daemon::get_c_socktype(Some(daemon::SocketType::Raw)), 3);
    assert_eq!(daemon::get_c_socktype(None), 0);
}

#[test]
fn notify_state_text() {
    let state = vec![
        (String::from(daemon::STATE_READY), String::from("1")),
        (
            String::from(daemon::STATE_STATUS),
            String::from("Processing requests"),
        ),
    ];
    assert_eq!(
        daemon::state_to_string(&state),
        "READY=1\nSTATUS=Processing requests"
    );

    let single = vec![(String::from(daemon::STATE_WATCHDOG), String::from("1"))];
    assert_eq!(daemon::state_to_string(&single), "WATCHDOG=1");

    let empty: Vec<(String, String)> = Vec::new();
    assert_eq!(daemon::state_to_string(&empty), "");
}
