use rust_panel::models::system::installer::{install_plan, switch_version_plan, uninstall_plan, Host, SoftwareType};
use rust_panel::models::system::installers::docker::DockerInstaller;
use rust_panel::models::system::installers::manager::{InstallStep, OsKind, OsManager, PackageManager};
use rust_panel::models::system::installers::mysql::MysqlInstaller;
use rust_panel::models::system::installers::nginx::NginxInstaller;
use rust_panel::models::system::installers::redis::RedisInstaller;
use rust_panel::models::system::installers::runner::{extracted_entry, regular_files, step_result, ListedEntry, StepOutcome};

fn host(pm: PackageManager) -> Host {
    Host { temp_dir: String::from("/tmp"), current_dir: String::from("/opt/panel"), cpus: 4, package_manager: pm }
}

fn describe(step: &InstallStep) -> String {
    match step {
        InstallStep::Say(s) => format!("say {}", s),
        InstallStep::Fail(s) => format!("fail {}", s),
        InstallStep::InstallPackages(p) => format!("packages {}", p.join(" ")),
        InstallStep::CreateUser { name, shell } => format!("user {} {}", name, shell),
        InstallStep::FreshDir(p) => format!("fresh {}", p),
        InstallStep::EnsureDir(p) => format!("ensure {}", p),
        InstallStep::CreateDir(p) => format!("mkdir {}", p),
        InstallStep::Download { url, dest } => format!("download {} {}", url, dest),
        InstallStep::Extract { archive, dest } => format!("extract {} {}", archive, dest),
        InstallStep::Run { program, args, cwd, on_failure } => {
            format!("run {} {} in {:?} else {:?}", program, args.join(" "), cwd, on_failure)
        },
        InstallStep::RunQuietly { program, args } => format!("quiet {} {}", program, args.join(" ")),
        InstallStep::WriteFile { path, .. } => format!("write {}", path),
        InstallStep::RemoveDirQuietly(p) => format!("rm-quiet {}", p),
        InstallStep::RemoveDirIfExists(p) => format!("rm {}", p),
        InstallStep::RemoveFileQuietly(p) => format!("rmfile-quiet {}", p),
        InstallStep::RemoveUnitFile(p) => format!("unit-remove {}", p),
        InstallStep::StopAndClearDir { service, dir } => format!("stop-clear {} {}", service, dir),
        InstallStep::MoveExtracted { from_dir, prefix, dest, .. } => format!("move-extracted {} {} {}", from_dir, prefix, dest),
        InstallStep::MoveFiles { from_dir, to_dir } => format!("move-files {} {}", from_dir, to_dir),
        InstallStep::CopyFile { from, to } => format!("copy {} {}", from, to),
        InstallStep::TuneRedisConfig(p) => format!("tune {}", p),
    }
}

#[test]
fn nginx_plan_with_apt() {
    let plan = NginxInstaller::install_plan("1.24.0", "/tmp", "/opt/panel", 8, PackageManager::Apt);
    let lines: Vec<String> = plan.iter().map(describe).collect();
    assert_eq!(lines.len(), 18);
    assert_eq!(lines[0], "say Starting Nginx 1.24.0 installation...");
    assert_eq!(lines[1], "packages build-essential libpcre3 libpcre3-dev zlib1g zlib1g-dev libssl-dev curl libcurl4-openssl-dev");
    assert_eq!(lines[2], "user www /sbin/nologin");
    assert_eq!(lines[3], "fresh /tmp/rustpanel_nginx");
    assert_eq!(lines[4], "download http://nginx.org/download/nginx-1.24.0.tar.gz /tmp/rustpanel_nginx/nginx-1.24.0.tar.gz");
    assert_eq!(lines[7], "ensure /opt/panel/server/nginx");
    assert!(lines[8].starts_with("run ./configure --prefix=/opt/panel/server/nginx --user=www --group=www"));
    assert_eq!(lines[10], "run make -j 8 in Some(\"/tmp/rustpanel_nginx/nginx-1.24.0\") else Some(\"Nginx make failed\")");
    assert_eq!(lines[13], "write /etc/systemd/system/nginx.service");
    assert_eq!(lines[15], "quiet systemctl enable nginx");
    assert_eq!(lines[16], "rm-quiet /tmp/rustpanel_nginx");
    assert_eq!(lines[17], "say Nginx installed successfully!");
}

#[test]
fn unknown_package_manager_stops_installation() {
    let plan = NginxInstaller::install_plan("1.24.0", "/tmp", "/opt/panel", 8, PackageManager::Unknown);
    let lines: Vec<String> = plan.iter().map(describe).collect();
    assert_eq!(lines, vec!["say Starting Nginx 1.24.0 installation...", "fail Unsupported OS for Nginx compilation"]);
    let plan = install_plan(SoftwareType::Redis, "7.2.4", &host(PackageManager::Unknown));
    let lines: Vec<String> = plan.iter().map(describe).collect();
    assert_eq!(lines, vec!["say Starting Redis 7.2.4 installation...", "fail Unsupported OS"]);
}

#[test]
fn nginx_unit_file_names_install_path() {
    let unit = NginxInstaller::unit_file("/srv/nginx");
    assert!(unit.contains("PIDFile=/srv/nginx/logs/nginx.pid\n"));
    assert!(unit.contains("ExecReload=/srv/nginx/sbin/nginx -s reload\n"));
    assert!(unit.starts_with("\n[Unit]\nDescription=The NGINX HTTP and reverse proxy server\n"));
}

#[test]
fn docker_release_defaults() {
    assert_eq!(DockerInstaller::release(""), "27.3.1");
    assert_eq!(DockerInstaller::release("latest"), "27.3.1");
    assert_eq!(DockerInstaller::release("26.1.0"), "26.1.0");
    assert_eq!(DockerInstaller::daemon_config("C:\\panel\\data"), "\n{\n  \"data-root\": \"C:/panel/data\"\n}\n");
}

#[test]
fn docker_plan_starts_service() {
    let plan = DockerInstaller::install_plan("latest", "/tmp", "/opt/panel", PackageManager::Yum);
    let lines: Vec<String> = plan.iter().map(describe).collect();
    assert_eq!(lines[1], "packages iptables git xz procps");
    assert_eq!(lines[2], "say Downloading Docker 27.3.1 static binaries...");
    assert_eq!(lines[6], "stop-clear docker /opt/panel/server/docker");
    assert_eq!(lines[10], "move-files /tmp/rustpanel_docker/docker /opt/panel/server/docker/bin");
    assert_eq!(lines[16], "run systemctl start docker in None else Some(\"Failed to start Docker service\")");
    assert_eq!(lines[18], "say Docker installed successfully to /opt/panel/server/docker!");
}

#[test]
fn redis_config_is_tuned() {
    let tuned = RedisInstaller::tune_config("bind 127.0.0.1 -::1\ndaemonize no\n");
    assert_eq!(tuned, "bind 127.0.0.1\ndaemonize yes\n");
}

#[test]
fn mysql_uninstall_removes_config() {
    let lines: Vec<String> = MysqlInstaller::uninstall_plan().iter().map(describe).collect();
    assert_eq!(
        lines,
        vec![
            "say Uninstalling MySQL...",
            "quiet systemctl stop mysqld",
            "quiet systemctl disable mysqld",
            "unit-remove /etc/systemd/system/mysqld.service",
            "rm /www/server/mysql",
            "rmfile-quiet /etc/my.cnf",
            "say MySQL uninstalled.",
        ]
    );
}

#[test]
fn switching_version_reinstalls() {
    let h = host(PackageManager::Yum);
    let a: Vec<String> = switch_version_plan(SoftwareType::Pgsql, "16.2", &h).iter().map(describe).collect();
    let b: Vec<String> = install_plan(SoftwareType::Pgsql, "16.2", &h).iter().map(describe).collect();
    assert_eq!(a, b);
    assert!(b.contains(&String::from(
        "run su - postgres -c /www/server/pgsql/bin/initdb -D /www/server/pgsql/data in None else Some(\"PostgreSQL initdb failed\")"
    )));
}

#[test]
fn uninstall_dispatch() {
    let lines: Vec<String> = uninstall_plan(SoftwareType::Redis, "/opt/panel").iter().map(describe).collect();
    assert_eq!(lines[4], "rm /opt/panel/server/redis");
}

#[test]
fn package_manager_rules() {
    assert_eq!(OsManager::package_manager_for_os(OsKind::Ubuntu), Some(PackageManager::Apt));
    assert_eq!(OsManager::package_manager_for_os(OsKind::Amazon), Some(PackageManager::Yum));
    assert_eq!(OsManager::package_manager_for_os(OsKind::Other), None);
    assert_eq!(OsManager::package_manager_from_tools(false, true, true), PackageManager::Yum);
    assert_eq!(OsManager::package_manager_from_tools(false, false, true), PackageManager::Apt);
    assert_eq!(OsManager::package_manager_from_tools(false, false, false), PackageManager::Unknown);
    let c = OsManager::install_command(PackageManager::Apt).unwrap();
    assert!(c.refresh_first);
    assert_eq!(c.program, "apt-get");
    assert_eq!(c.args, vec!["install", "-y"]);
    assert!(OsManager::install_command(PackageManager::Unknown).is_none());
}

#[test]
fn create_user_steps() {
    let lines: Vec<String> = OsManager::create_user_plan("www", "/sbin/nologin").iter().map(describe).collect();
    assert_eq!(
        lines,
        vec![
            "say Creating user 'www'...",
            "run useradd -s /sbin/nologin -M www in None else Some(\"Failed to create user www\")",
        ]
    );
}

#[test]
fn uninstall_removes_what_install_created() {
    let h = host(PackageManager::Apt);
    for (software, unit, home) in [
        (SoftwareType::Nginx, "/etc/systemd/system/nginx.service", "/opt/panel/server/nginx"),
        (SoftwareType::Mysql, "/etc/systemd/system/mysqld.service", "/www/server/mysql"),
        (SoftwareType::Pgsql, "/etc/systemd/system/postgresql.service", "/www/server/pgsql"),
        (SoftwareType::Redis, "/etc/systemd/system/redis.service", "/opt/panel/server/redis"),
        (SoftwareType::Docker, "/etc/systemd/system/docker.service", "/opt/panel/server/docker"),
    ] {
        let installed: Vec<String> = install_plan(software, "1.0", &h).iter().map(describe).collect();
        let removed: Vec<String> = uninstall_plan(software, "/opt/panel").iter().map(describe).collect();
        assert!(installed.contains(&format!("write {}", unit)));
        assert!(removed.contains(&format!("unit-remove {}", unit)));
        assert!(removed.contains(&format!("rm {}", home)));
        assert!(installed.iter().any(|l| l.contains(home)));
    }
}

#[test]
fn family_decides_before_tools() {
    assert_eq!(OsManager::package_manager_of(OsKind::Debian, true, true, false), PackageManager::Apt);
    assert_eq!(OsManager::package_manager_of(OsKind::CentOS, false, false, true), PackageManager::Yum);
    assert_eq!(OsManager::package_manager_of(OsKind::Other, false, true, true), PackageManager::Yum);
    assert_eq!(OsManager::package_manager_of(OsKind::Other, false, false, true), PackageManager::Apt);
    assert_eq!(OsManager::package_manager_of(OsKind::Other, false, false, false), PackageManager::Unknown);
}

#[test]
fn probed_tool_paths() {
    let (yum, dnf, apt_get) = OsManager::tool_paths();
    assert_eq!((yum.as_str(), dnf.as_str(), apt_get.as_str()), ("/usr/bin/yum", "/usr/bin/dnf", "/usr/bin/apt-get"));
}

fn entry(name: &str, is_dir: bool, is_file: bool) -> ListedEntry {
    ListedEntry { name: String::from(name), is_dir, is_file }
}

#[test]
fn step_results() {
    let fail = InstallStep::Fail(String::from("unsupported"));
    assert_eq!(step_result(&fail, StepOutcome::Done), Err(String::from("unsupported")));
    let run = |on_failure: Option<&str>| InstallStep::Run {
        program: String::from("make"),
        args: vec![],
        cwd: None,
        on_failure: on_failure.map(String::from),
    };
    assert_eq!(step_result(&run(Some("make failed")), StepOutcome::Exited { success: false }), Err(String::from("make failed")));
    assert_eq!(step_result(&run(Some("make failed")), StepOutcome::Exited { success: true }), Ok(()));
    assert_eq!(step_result(&run(None), StepOutcome::Exited { success: false }), Ok(()));
    assert_eq!(step_result(&run(None), StepOutcome::Failed(String::from("no such program"))), Err(String::from("no such program")));
    let quiet = InstallStep::RemoveDirQuietly(String::from("/tmp/x"));
    assert_eq!(step_result(&quiet, StepOutcome::Failed(String::from("denied"))), Ok(()));
    let moved = InstallStep::MoveExtracted {
        from_dir: String::from("/tmp"),
        prefix: String::from("redis-"),
        dest: String::from("/opt/redis"),
        missing: String::from("Could not find extracted redis directory"),
    };
    assert_eq!(step_result(&moved, StepOutcome::NothingToMove), Err(String::from("Could not find extracted redis directory")));
    assert_eq!(step_result(&moved, StepOutcome::Done), Ok(()));
}

#[test]
fn listing_selectors() {
    let listing = vec![
        entry("redis-7.2.4.tar.gz", false, true),
        entry("notes", true, false),
        entry("redis-7.2.4", true, false),
        entry("redis-old", true, false),
        entry("README", false, true),
    ];
    assert_eq!(extracted_entry(&listing, "redis-"), Some(2));
    assert_eq!(extracted_entry(&listing, "nginx-"), None);
    assert_eq!(regular_files(&listing), vec![0, 4]);
    assert_eq!(regular_files(&vec![]), Vec::<usize>::new());
}
