use vstd::prelude::*;
use crate::common::text::{concat2, concat3, decimal, decimal_string, join_path, joined_path, texts};
use super::manager::{
    args1, args2, args_of, push_register_unit, push_unregister_unit, register_unit_steps,
    push_step, steps_view, unregister_unit_steps, InstallStep, PackageManager, StepView,
    runs_with, lemma_run_step_witness,
};

verus! {

/// Builds Nginx from source into `<working dir>/server/nginx`.
pub struct NginxInstaller;

/// The system packages that building Nginx needs, per package manager.
pub open spec fn nginx_packages(pm: PackageManager) -> Seq<Seq<char>> {
    match pm {
        PackageManager::Yum => seq![
            "gcc"@, "gcc-c++"@, "make"@, "zlib-devel"@, "pcre-devel"@, "openssl-devel"@,
            "libtool"@, "automake"@, "curl"@, "curl-devel"@,
        ],
        _ => seq![
            "build-essential"@, "libpcre3"@, "libpcre3-dev"@, "zlib1g"@, "zlib1g-dev"@,
            "libssl-dev"@, "curl"@, "libcurl4-openssl-dev"@,
        ],
    }
}

/// The `configure` options for installing under `prefix`.
pub open spec fn nginx_configure_args(prefix: Seq<char>) -> Seq<Seq<char>> {
    seq![
        "--prefix="@ + prefix,
        "--user=www"@,
        "--group=www"@,
        "--with-http_stub_status_module"@,
        "--with-http_ssl_module"@,
        "--with-http_v2_module"@,
        "--with-http_gzip_static_module"@,
        "--with-stream"@,
        "--with-stream_ssl_module"@,
    ]
}

/// The systemd unit of an Nginx installed under `p`.
pub open spec fn nginx_unit(p: Seq<char>) -> Seq<char> {
    "\n[Unit]\nDescription=The NGINX HTTP and reverse proxy server\nAfter=syslog.target network-online.target remote-fs.target nss-lookup.target\nWants=network-online.target\n\n[Service]\nType=forking\nPIDFile="@
        + p + "/logs/nginx.pid\nExecStartPre="@
        + p + "/sbin/nginx -t\nExecStart="@
        + p + "/sbin/nginx\nExecReload="@
        + p + "/sbin/nginx -s reload\nExecStop=/bin/kill -s QUIT $MAINPID\nPrivateTmp=true\n\n[Install]\nWantedBy=multi-user.target\n"@
}

/// Where Nginx is installed, below the working directory `cwd`.
pub open spec fn nginx_home(cwd: Seq<char>) -> Seq<char> {
    joined_path(joined_path(cwd, "server"@), "nginx"@)
}

/// The steps that install Nginx `version`, given the system's temporary
/// directory, the working directory, the number of processors and the
/// package manager.
pub open spec fn nginx_install_steps(
    version: Seq<char>,
    temp_root: Seq<char>,
    cwd: Seq<char>,
    cpus: nat,
    pm: PackageManager,
) -> Seq<StepView> {
    let start = StepView::Say("Starting Nginx "@ + version + " installation..."@);
    if pm == PackageManager::Unknown {
        seq![start, StepView::Fail("Unsupported OS for Nginx compilation"@)]
    } else {
        let temp = joined_path(temp_root, "rustpanel_nginx"@);
        let tarball = joined_path(temp, "nginx-"@ + version + ".tar.gz"@);
        let source = joined_path(temp, "nginx-"@ + version);
        let home = nginx_home(cwd);
        seq![
            start,
            StepView::InstallPackages(nginx_packages(pm)),
            StepView::CreateUser { name: "www"@, shell: "/sbin/nologin"@ },
            StepView::FreshDir(temp),
            StepView::Download { url: "http://nginx.org/download/nginx-"@ + version + ".tar.gz"@, dest: tarball },
            StepView::Extract { archive: tarball, dest: temp },
            StepView::Say("Configuring..."@),
            StepView::EnsureDir(home),
            StepView::Run {
                program: "./configure"@,
                args: nginx_configure_args(home),
                cwd: Some(source),
                on_failure: Some("Nginx configure failed"@),
            },
            StepView::Say("Compiling (make)..."@),
            StepView::Run {
                program: "make"@,
                args: seq!["-j"@, decimal(cpus)],
                cwd: Some(source),
                on_failure: Some("Nginx make failed"@),
            },
            StepView::Say("Installing (make install)..."@),
            StepView::Run {
                program: "make"@,
                args: seq!["install"@],
                cwd: Some(source),
                on_failure: Some("Nginx make install failed"@),
            },
        ] + register_unit_steps("/etc/systemd/system/nginx.service"@, nginx_unit(home), "nginx"@) + seq![
            StepView::RemoveDirQuietly(temp),
            StepView::Say("Nginx installed successfully!"@),
        ]
    }
}

/// The steps that remove Nginx installed below the working directory `cwd`.
pub open spec fn nginx_uninstall_steps(cwd: Seq<char>) -> Seq<StepView> {
    seq![StepView::Say("Uninstalling Nginx..."@)]
        + unregister_unit_steps("nginx"@, "/etc/systemd/system/nginx.service"@)
        + seq![StepView::RemoveDirIfExists(nginx_home(cwd)), StepView::Say("Nginx uninstalled."@)]
}

impl NginxInstaller {
    /// The packages that building Nginx needs, or the refusal for a system
    /// whose package manager is unknown.
    pub fn system_dependencies(pm: PackageManager) -> (r: Result<Vec<String>, String>)
        ensures
            pm == PackageManager::Unknown ==> (r matches Err(m) && m@ == "Unsupported OS for Nginx compilation"@),
            pm != PackageManager::Unknown ==> (r matches Ok(p) && texts(p@) == nginx_packages(pm)),
    {
        match pm {
            PackageManager::Yum => {
                let items: [&str; 10] = [
                    "gcc", "gcc-c++", "make", "zlib-devel", "pcre-devel", "openssl-devel",
                    "libtool", "automake", "curl", "curl-devel",
                ];
                let p = args_of(&items);
                assert(texts(p@) =~= nginx_packages(pm));
                Ok(p)
            },
            PackageManager::Apt => {
                let items: [&str; 8] = [
                    "build-essential", "libpcre3", "libpcre3-dev", "zlib1g", "zlib1g-dev",
                    "libssl-dev", "curl", "libcurl4-openssl-dev",
                ];
                let p = args_of(&items);
                assert(texts(p@) =~= nginx_packages(pm));
                Ok(p)
            },
            PackageManager::Unknown => Err(String::from_str("Unsupported OS for Nginx compilation")),
        }
    }

    /// The systemd unit of an Nginx installed under `install_path`.
    pub fn unit_file(install_path: &str) -> (r: String)
        ensures
            r@ == nginx_unit(install_path@),
    {
        let mut u = String::from_str(
            "\n[Unit]\nDescription=The NGINX HTTP and reverse proxy server\nAfter=syslog.target network-online.target remote-fs.target nss-lookup.target\nWants=network-online.target\n\n[Service]\nType=forking\nPIDFile=",
        );
        u.append(install_path);
        u.append("/logs/nginx.pid\nExecStartPre=");
        u.append(install_path);
        u.append("/sbin/nginx -t\nExecStart=");
        u.append(install_path);
        u.append("/sbin/nginx\nExecReload=");
        u.append(install_path);
        u.append(
            "/sbin/nginx -s reload\nExecStop=/bin/kill -s QUIT $MAINPID\nPrivateTmp=true\n\n[Install]\nWantedBy=multi-user.target\n",
        );
        u
    }

    /// The steps that install Nginx `version`: dependencies, the `www` user,
    /// download and unpack into a fresh temporary directory, configure, make,
    /// make install, register the systemd unit, clean up.
    pub fn install_plan(version: &str, temp_root: &str, cwd: &str, cpus: u64, pm: PackageManager) -> (r: Vec<InstallStep>)
        ensures
            steps_view(r@) == nginx_install_steps(version@, temp_root@, cwd@, cpus as nat, pm),
    {
        let mut plan: Vec<InstallStep> = Vec::new();
        push_step(&mut plan, InstallStep::Say(concat3("Starting Nginx ", version, " installation...")));
        let packages = match Self::system_dependencies(pm) {
            Ok(p) => p,
            Err(m) => {
                push_step(&mut plan, InstallStep::Fail(m));
                assert(steps_view(plan@) =~= nginx_install_steps(version@, temp_root@, cwd@, cpus as nat, pm));
                return plan;
            },
        };
        let temp = join_path(temp_root, "rustpanel_nginx");
        let tar_name = concat3("nginx-", version, ".tar.gz");
        let tarball = join_path(temp.as_str(), tar_name.as_str());
        let src_name = concat2("nginx-", version);
        let source = join_path(temp.as_str(), src_name.as_str());
        let server = join_path(cwd, "server");
        let home = join_path(server.as_str(), "nginx");

        push_step(&mut plan, InstallStep::InstallPackages(packages));
        push_step(&mut plan, InstallStep::CreateUser { name: String::from_str("www"), shell: String::from_str("/sbin/nologin") });
        push_step(&mut plan, InstallStep::FreshDir(temp.clone()));
        push_step(&mut plan, InstallStep::Download { url: concat3("http://nginx.org/download/nginx-", version, ".tar.gz"), dest: tarball.clone() });
        push_step(&mut plan, InstallStep::Extract { archive: tarball, dest: temp.clone() });
        push_step(&mut plan, InstallStep::Say(String::from_str("Configuring...")));
        push_step(&mut plan, InstallStep::EnsureDir(home.clone()));

        let prefix = concat2("--prefix=", home.as_str());
        let items: [&str; 9] = [
            prefix.as_str(), "--user=www", "--group=www", "--with-http_stub_status_module", "--with-http_ssl_module",
            "--with-http_v2_module", "--with-http_gzip_static_module", "--with-stream", "--with-stream_ssl_module",
        ];
        let conf = args_of(&items);
        assert(texts(conf@) =~= nginx_configure_args(home@));
        push_step(&mut plan, InstallStep::Run {
            program: String::from_str("./configure"),
            args: conf,
            cwd: Some(source.clone()),
            on_failure: Some(String::from_str("Nginx configure failed")),
        });
        push_step(&mut plan, InstallStep::Say(String::from_str("Compiling (make)...")));
        push_step(&mut plan, InstallStep::Run {
            program: String::from_str("make"),
            args: args2(String::from_str("-j"), decimal_string(cpus)),
            cwd: Some(source.clone()),
            on_failure: Some(String::from_str("Nginx make failed")),
        });
        push_step(&mut plan, InstallStep::Say(String::from_str("Installing (make install)...")));
        push_step(&mut plan, InstallStep::Run {
            program: String::from_str("make"),
            args: args1(String::from_str("install")),
            cwd: Some(source),
            on_failure: Some(String::from_str("Nginx make install failed")),
        });
        push_register_unit(&mut plan, "/etc/systemd/system/nginx.service", Self::unit_file(home.as_str()), "nginx");
        push_step(&mut plan, InstallStep::RemoveDirQuietly(temp));
        push_step(&mut plan, InstallStep::Say(String::from_str("Nginx installed successfully!")));
        assert(steps_view(plan@) =~= nginx_install_steps(version@, temp_root@, cwd@, cpus as nat, pm));
        plan
    }

    /// The steps that remove Nginx: stop and unregister the service, then
    /// remove the installation directory.
    pub fn uninstall_plan(cwd: &str) -> (r: Vec<InstallStep>)
        ensures
            steps_view(r@) == nginx_uninstall_steps(cwd@),
    {
        let mut plan: Vec<InstallStep> = Vec::new();
        push_step(&mut plan, InstallStep::Say(String::from_str("Uninstalling Nginx...")));
        push_unregister_unit(&mut plan, "nginx", "/etc/systemd/system/nginx.service");
        let server = join_path(cwd, "server");
        let home = join_path(server.as_str(), "nginx");
        push_step(&mut plan, InstallStep::RemoveDirIfExists(home));
        push_step(&mut plan, InstallStep::Say(String::from_str("Nginx uninstalled.")));
        assert(steps_view(plan@) =~= nginx_uninstall_steps(cwd@));
        plan
    }
}

/// With a known package manager, Nginx `version` is fetched from nginx.org
/// into the temporary directory, unpacked there, and built in its source
/// directory: configured with the installation directory as prefix,
/// compiled with one job per processor and installed; the installation
/// directory is made first and a systemd unit is written for it.
pub proof fn lemma_nginx_builds_into_its_home(version: Seq<char>, temp_root: Seq<char>, cwd: Seq<char>, cpus: nat, pm: PackageManager)
    requires
        pm != PackageManager::Unknown,
    ensures
        ({
            let steps = nginx_install_steps(version, temp_root, cwd, cpus, pm);
            let temp = joined_path(temp_root, "rustpanel_nginx"@);
            let tarball = joined_path(temp, "nginx-"@ + version + ".tar.gz"@);
            let source = Some(joined_path(temp, "nginx-"@ + version));
            let home = joined_path(joined_path(cwd, "server"@), "nginx"@);
            &&& steps.contains(StepView::Download { url: "http://nginx.org/download/nginx-"@ + version + ".tar.gz"@, dest: tarball })
            &&& steps.contains(StepView::Extract { archive: tarball, dest: temp })
            &&& steps.contains(StepView::EnsureDir(home))
            &&& runs_with(steps, "./configure"@, source, "--prefix="@ + home)
            &&& runs_with(steps, "make"@, source, "-j"@)
            &&& runs_with(steps, "make"@, source, decimal(cpus))
            &&& runs_with(steps, "make"@, source, "install"@)
            &&& steps.contains(StepView::WriteFile { path: "/etc/systemd/system/nginx.service"@, content: nginx_unit(home) })
        }),
{
    let steps = nginx_install_steps(version, temp_root, cwd, cpus, pm);
    let temp = joined_path(temp_root, "rustpanel_nginx"@);
    let tarball = joined_path(temp, "nginx-"@ + version + ".tar.gz"@);
    let source = Some(joined_path(temp, "nginx-"@ + version));
    let home = nginx_home(cwd);
    assert(steps[4] == StepView::Download { url: "http://nginx.org/download/nginx-"@ + version + ".tar.gz"@, dest: tarball });
    assert(steps[5] == StepView::Extract { archive: tarball, dest: temp });
    assert(steps[7] == StepView::EnsureDir(home));
    lemma_run_step_witness(steps, 8, "./configure"@, nginx_configure_args(home), source, Some("Nginx configure failed"@), 0);
    let jobs = seq!["-j"@, decimal(cpus)];
    lemma_run_step_witness(steps, 10, "make"@, jobs, source, Some("Nginx make failed"@), 0);
    lemma_run_step_witness(steps, 10, "make"@, jobs, source, Some("Nginx make failed"@), 1);
    lemma_run_step_witness(steps, 12, "make"@, seq!["install"@], source, Some("Nginx make install failed"@), 0);
    assert(steps[13] == StepView::WriteFile { path: "/etc/systemd/system/nginx.service"@, content: nginx_unit(home) });
}

} // verus!
