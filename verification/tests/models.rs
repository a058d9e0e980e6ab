use rust_panel::api::v1::os::{memory_summary, summarize_disks, summarize_networks, DiskReading, NetworkReading};
use rust_panel::common::fun::{sha1_salt, try_sm4_decrypt_file};
use rust_panel::common::sys::{extract_project_name, restart_program};
use rust_panel::models::docker::{docker_setup, DockerSetup};
use rust_panel::models::file::{build_listing, content_extension, content_payload, display_path, DirEntryInfo, FileText};
use rust_panel::models::system::installer::SoftwareType;
use rust_panel::service::conf::expand_workers;
use rust_panel::service::db::{admin_account, admin_account_from};
use rust_panel::api::auth::verify_password_sha1;

fn entry(name: &str, is_file: bool, is_dir: bool) -> DirEntryInfo {
    DirEntryInfo { name: String::from(name), is_file, is_dir, size: 10, modified: 99 }
}

#[test]
fn listing_splits_files_and_dirs() {
    let entries = vec![entry("a.txt", true, false), entry("sub", false, true), entry("link", false, false), entry("b.rs", true, false)];
    let l = build_listing(String::from("/home"), &entries);
    assert_eq!(l.path, "/home");
    let files: Vec<&str> = l.files.iter().map(|f| f.name.as_str()).collect();
    assert_eq!(files, vec!["a.txt", "b.rs"]);
    assert_eq!((l.files[0].size, l.files[0].modified_time, l.files[0].permissions), (Some(10), Some(99), None));
    let dirs: Vec<&str> = l.dirs.iter().map(|d| d.name.as_str()).collect();
    assert_eq!(dirs, vec!["sub"]);
}

#[test]
fn verbatim_paths_are_shortened() {
    assert_eq!(display_path("\\\\?\\C:\\Users"), "C:\\Users");
    assert_eq!(display_path("\\\\?\\UNC\\\\server\\share"), "server\\share");
    assert_eq!(display_path("/home/user"), "/home/user");
}

#[test]
fn editor_refuses_binaries() {
    assert_eq!(content_extension("/srv/app.exe"), None);
    assert_eq!(content_extension("/srv/lib.so"), None);
    assert_eq!(content_extension("/srv/a.zip"), None);
    assert_eq!(content_extension("/srv/main.rs"), Some(String::from("rs")));
    assert_eq!(content_extension("/srv/Makefile"), Some(String::new()));
}

#[test]
fn content_payload_round_trips() {
    let (enc, ext) = content_payload(FileText::Utf8(String::from("print('hi')\n")), String::from("py"));
    assert_eq!(ext, "py");
    assert_eq!(try_sm4_decrypt_file(enc), Some(String::from("print('hi')\n")));
    let gbk: Vec<u8> = vec![0xC4, 0xE3, 0xBA, 0xC3];
    let (enc, _) = content_payload(FileText::Raw(gbk), String::from("txt"));
    assert_eq!(try_sm4_decrypt_file(enc), Some(String::from("你好")));
}

#[test]
fn docker_setup_by_os() {
    assert!(matches!(docker_setup("linux"), DockerSetup::RunScript(s) if s.starts_with("./install/docker.sh")));
    assert!(matches!(docker_setup("windows"), DockerSetup::Windows));
    assert!(matches!(docker_setup("macos"), DockerSetup::Macos));
    assert!(matches!(docker_setup("freebsd"), DockerSetup::Other));
}

#[test]
fn dashboard_summaries() {
    let disks = vec![
        DiskReading { mount_point: Some(String::from("/")), total_space: 3 * 1048576 + 5, available_space: 1048576 },
        DiskReading { mount_point: Some(String::from("/var/lib/docker/overlay")), total_space: 1, available_space: 1 },
        DiskReading { mount_point: None, total_space: 1, available_space: 1 },
    ];
    let s = summarize_disks(&disks);
    assert_eq!(s.len(), 1);
    assert_eq!((s[0].mount_point.as_str(), s[0].total, s[0].available), ("/", 3, 1));
    let nets = vec![
        NetworkReading { name: String::from("eth0"), total_received: 2048, total_transmitted: 1023, received: 5, transmitted: 6 },
        NetworkReading { name: String::from("NPCAP Loopback"), total_received: 0, total_transmitted: 0, received: 0, transmitted: 0 },
    ];
    let n = summarize_networks(&nets);
    assert_eq!(n.len(), 1);
    assert_eq!((n[0].total_received, n[0].total_transmitted, n[0].received, n[0].transmitted), (2, 0, 5, 6));
    let m = memory_summary(2 * 1048576, 0, 8 * 1048576 + 1, 1048575);
    assert_eq!((m.swap_total, m.swap_used, m.total, m.used), (2, 0, 8, 0));
}

#[test]
fn project_root_lookup() {
    assert_eq!(extract_project_name("/opt/rust_panel/target/release/panel"), Some(String::from("/opt/rust_panel")));
    assert_eq!(extract_project_name("/opt/other/panel"), None);
    assert_eq!(extract_project_name("rust_panel"), Some(String::from("rust_panel")));
    assert_eq!(restart_program("/opt/rust_panel", "Linux"), Some(String::from("/opt/rust_panel\\panel")));
    assert_eq!(restart_program("C:\\rust_panel", "Windows"), Some(String::from("C:\\rust_panel\\panel.exe")));
    assert_eq!(restart_program("/x", "Darwin"), None);
}

#[test]
fn workers_zero_means_processors() {
    assert_eq!(expand_workers("app:\n  workers: 0\n", 8), "app:\n  workers: 8\n");
    assert_eq!(expand_workers("app:\n  workers: 4\n", 8), "app:\n  workers: 4\n");
}

#[test]
fn admin_account_is_consistent() {
    let a = admin_account();
    assert!((8..18).contains(&a.password.len()));
    assert!((8..16).contains(&a.salt.len()));
    assert!((6..12).contains(&a.username.len()));
    assert!(matches!(verify_password_sha1(&a.password_hash, &a.salt, &a.password), Ok(true)));
}

#[test]
fn software_names() {
    assert_eq!(SoftwareType::Nginx.name(), "nginx");
    assert_eq!(SoftwareType::Pgsql.name(), "pgsql");
    assert_eq!(SoftwareType::Docker.name(), "docker");
}

#[test]
fn admin_account_from_drawn_positions() {
    let a = admin_account_from(&vec![25, 14, 0, 1, 2, 3, 4, 5], &vec![61, 60, 59, 58, 57, 56, 55, 54], &vec![10, 13, 22, 18, 23, 36]);
    assert_eq!(a.password, "PE012345");
    assert_eq!(a.salt, "zyxwvuts");
    assert_eq!(a.username, "ADMINa");
    assert_eq!(a.password_hash, sha1_salt(String::from("PE012345"), String::from("zyxwvuts")));
}
