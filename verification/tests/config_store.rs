use cmdipass::config_file::{
    config_exists, ensure_owner_readable_only, format_mode, load_config, StoreDecision, StoreProbe,
};
use cmdipass::error::ErrorKind;
use cmdipass::proxy_socket::{pipe_name, socket_path, ProxySocket};

#[test]
fn an_absent_store_does_not_exist() {
    assert!(!config_exists(&StoreProbe::Absent));
    assert!(config_exists(&StoreProbe::Present { mode: 0o600 }));
}

#[test]
fn modes_are_written_in_octal_with_four_digits() {
    assert_eq!(format_mode(0), "0000");
    assert_eq!(format_mode(0o7), "0007");
    assert_eq!(format_mode(0o44), "0044");
    assert_eq!(format_mode(0o644), "0644");
    assert_eq!(format_mode(0o100644), "100644");
    assert_eq!(format_mode(u32::MAX), format!("{:04o}", u32::MAX));
}

#[test]
fn a_file_of_its_owner_alone_is_accepted() {
    assert!(ensure_owner_readable_only(0o600, "/home/u/.cmdipass").is_ok());
    assert!(ensure_owner_readable_only(0o100400, "/home/u/.cmdipass").is_ok());
    assert!(ensure_owner_readable_only(0o700, "/home/u/.cmdipass").is_ok());
}

#[test]
fn a_file_open_to_others_is_a_config_failure() {
    for mode in [0o640u32, 0o604, 0o644, 0o610, 0o601, 0o620, 0o602, 0o100666, 0o777] {
        let e = ensure_owner_readable_only(mode, "/home/u/.cmdipass").unwrap_err();
        assert_eq!(e.kind(), ErrorKind::Config);
    }
}

#[test]
fn the_failure_names_mode_path_and_remedy() {
    let e = ensure_owner_readable_only(0o100644, "/home/u/.cmdipass").unwrap_err();
    assert_eq!(
        e.description(),
        "Permissions 100644 on '/home/u/.cmdipass' are too open.\n\
         It is recommended that your cmdipass config file is not accessible to others.\n\
         Try using `chmod 0600 '/home/u/.cmdipass'` to solve this problem."
    );
    let e = ensure_owner_readable_only(0o44, "p").unwrap_err();
    assert!(e.description().starts_with("Permissions 0044 on 'p' are too open."));
}

#[test]
fn the_store_decides_before_anything_is_sent() {
    assert_eq!(load_config(&StoreProbe::Absent, "p").unwrap(), StoreDecision::Register);
    assert_eq!(load_config(&StoreProbe::Present { mode: 0o600 }, "p").unwrap(), StoreDecision::Load);
    let e = load_config(&StoreProbe::Present { mode: 0o644 }, "p").unwrap_err();
    assert_eq!(e.kind(), ErrorKind::Config);
}

#[test]
fn the_socket_is_under_the_runtime_directory() {
    assert_eq!(socket_path(Some("/run/user/1000")), "/run/user/1000/kpxc_server");
    assert_eq!(socket_path(None), "/tmp/kpxc_server");
    assert_eq!(pipe_name("alice"), "\\\\.\\pipe\\keepassxc\\alice\\kpxc_server");
}

#[test]
fn a_proxy_socket_hands_its_stream_back() {
    let socket = ProxySocket::new(vec![1u8, 2, 3]);
    assert_eq!(socket.into_inner(), vec![1u8, 2, 3]);
}
