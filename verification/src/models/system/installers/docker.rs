use vstd::prelude::*;
use crate::common::text::{concat3, join_path, joined_path, replace_all, replace_text, text_eq, texts};
use super::manager::{
    args2, args_of, push_register_unit, push_step, push_unregister_unit, register_unit_steps, steps_view,
    unregister_unit_steps, InstallStep, PackageManager, StepView,
    runs_with, lemma_run_step_witness,
};

verus! {

/// Installs Docker's static binaries into `<working dir>/server/docker`.
pub struct DockerInstaller;

/// The system packages that Docker needs, per package manager.
pub open spec fn docker_packages(pm: PackageManager) -> Seq<Seq<char>> {
    match pm {
        PackageManager::Yum => seq!["iptables"@, "git"@, "xz"@, "procps"@],
        _ => seq!["iptables"@, "git"@, "xz-utils"@, "procps"@, "iproute2"@],
    }
}

/// The Docker version installed for a requested `version`: an empty request
/// or `latest` stands for 27.3.1.
pub open spec fn docker_release(version: Seq<char>) -> Seq<char> {
    if version.len() == 0 || version == "latest"@ {
        "27.3.1"@
    } else {
        version
    }
}

/// The daemon configuration that keeps Docker's data in `data_dir`.
pub open spec fn docker_daemon_config(data_dir: Seq<char>) -> Seq<char> {
    "\n{\n  \"data-root\": \""@ + replace_all(data_dir, "\\"@, "/"@) + "\"\n}\n"@
}

/// The systemd unit of a Docker whose binaries are in `bin`, started from
/// `dockerd` with configuration file `config`.
pub open spec fn docker_unit(bin: Seq<char>, dockerd: Seq<char>, config: Seq<char>) -> Seq<char> {
    "\n[Unit]\nDescription=Docker Application Container Engine\nDocumentation=https://docs.docker.com\nAfter=network-online.target firewalld.service\nWants=network-online.target\n\n[Service]\nType=notify\nEnvironment=\"PATH="@
        + bin + ":/usr/bin:/usr/local/bin\"\nExecStart="@
        + dockerd + " --config-file "@
        + config + "\nExecReload=/bin/kill -s HUP $MAINPID\nTimeoutSec=0\nRestartSec=2\nRestart=always\nStartLimitBurst=3\nStartLimitInterval=60s\nLimitNOFILE=infinity\nLimitNPROC=infinity\nLimitCORE=infinity\nTasksMax=infinity\nDelegate=yes\nKillMode=process\nOOMScoreAdjust=-500\n\n[Install]\nWantedBy=multi-user.target\n"@
}

/// Where Docker is installed, below the working directory `cwd`.
pub open spec fn docker_home(cwd: Seq<char>) -> Seq<char> {
    joined_path(joined_path(cwd, "server"@), "docker"@)
}

/// The steps that install Docker `version`, given the system's temporary
/// directory, the working directory and the package manager.
pub open spec fn docker_install_steps(version: Seq<char>, temp_root: Seq<char>, cwd: Seq<char>, pm: PackageManager) -> Seq<StepView> {
    let start = StepView::Say("Starting Docker installation..."@);
    if pm == PackageManager::Unknown {
        seq![start, StepView::Fail("Unsupported OS"@)]
    } else {
        let release = docker_release(version);
        let temp = joined_path(temp_root, "rustpanel_docker"@);
        let tarball = joined_path(temp, "docker-"@ + release + ".tgz"@);
        let home = docker_home(cwd);
        let bin = joined_path(home, "bin"@);
        let data = joined_path(home, "data"@);
        let config_dir = joined_path(home, "config"@);
        let daemon_json = joined_path(config_dir, "daemon.json"@);
        seq![
            start,
            StepView::InstallPackages(docker_packages(pm)),
            StepView::Say("Downloading Docker "@ + release + " static binaries..."@),
            StepView::FreshDir(temp),
            StepView::Download {
                url: "https://download.docker.com/linux/static/stable/x86_64/docker-"@ + release + ".tgz"@,
                dest: tarball,
            },
            StepView::Extract { archive: tarball, dest: temp },
            StepView::StopAndClearDir { service: "docker"@, dir: home },
            StepView::CreateDir(bin),
            StepView::CreateDir(data),
            StepView::CreateDir(config_dir),
            StepView::MoveFiles { from_dir: joined_path(temp, "docker"@), to_dir: bin },
            StepView::Say("Configuring Docker..."@),
            StepView::WriteFile { path: daemon_json, content: docker_daemon_config(data) },
        ] + register_unit_steps(
            "/etc/systemd/system/docker.service"@,
            docker_unit(bin, joined_path(bin, "dockerd"@), daemon_json),
            "docker"@,
        ) + seq![
            StepView::Run {
                program: "systemctl"@,
                args: seq!["start"@, "docker"@],
                cwd: None,
                on_failure: Some("Failed to start Docker service"@),
            },
            StepView::RemoveDirQuietly(temp),
            StepView::Say("Docker installed successfully to "@ + home + "!"@),
        ]
    }
}

/// The steps that remove Docker installed below the working directory `cwd`.
pub open spec fn docker_uninstall_steps(cwd: Seq<char>) -> Seq<StepView> {
    seq![StepView::Say("Uninstalling Docker..."@)]
        + unregister_unit_steps("docker"@, "/etc/systemd/system/docker.service"@)
        + seq![StepView::RemoveDirIfExists(docker_home(cwd)), StepView::Say("Docker uninstalled."@)]
}

impl DockerInstaller {
    /// The packages that Docker needs, or the refusal for an unknown package manager.
    pub fn dependencies(pm: PackageManager) -> (r: Result<Vec<String>, String>)
        ensures
            pm == PackageManager::Unknown ==> (r matches Err(m) && m@ == "Unsupported OS"@),
            pm != PackageManager::Unknown ==> (r matches Ok(p) && texts(p@) == docker_packages(pm)),
    {
        match pm {
            PackageManager::Yum => {
                let items: [&str; 4] = ["iptables", "git", "xz", "procps"];
                let p = args_of(&items);
                assert(texts(p@) =~= docker_packages(pm));
                Ok(p)
            },
            PackageManager::Apt => {
                let items: [&str; 5] = ["iptables", "git", "xz-utils", "procps", "iproute2"];
                let p = args_of(&items);
                assert(texts(p@) =~= docker_packages(pm));
                Ok(p)
            },
            PackageManager::Unknown => Err(String::from_str("Unsupported OS")),
        }
    }

    /// The Docker version to install for the requested `version`.
    pub fn release(version: &str) -> (r: String)
        ensures
            r@ == docker_release(version@),
    {
        if version.is_empty() || text_eq(version, "latest") {
            String::from_str("27.3.1")
        } else {
            String::from_str(version)
        }
    }

    /// The daemon configuration that keeps Docker's data in `data_dir`, with
    /// backslashes written as slashes.
    pub fn daemon_config(data_dir: &str) -> (r: String)
        ensures
            r@ == docker_daemon_config(data_dir@),
    {
        proof {
            reveal_strlit("\\");
        }
        let cleaned = replace_text(data_dir, "\\", "/");
        concat3("\n{\n  \"data-root\": \"", cleaned.as_str(), "\"\n}\n")
    }

    /// The systemd unit for the binaries in `bin_dir` with configuration file `config_path`.
    pub fn unit_file(bin_dir: &str, config_path: &str) -> (r: String)
        ensures
            r@ == docker_unit(bin_dir@, joined_path(bin_dir@, "dockerd"@), config_path@),
    {
        let dockerd = join_path(bin_dir, "dockerd");
        let mut u = String::from_str(
            "\n[Unit]\nDescription=Docker Application Container Engine\nDocumentation=https://docs.docker.com\nAfter=network-online.target firewalld.service\nWants=network-online.target\n\n[Service]\nType=notify\nEnvironment=\"PATH=",
        );
        u.append(bin_dir);
        u.append(":/usr/bin:/usr/local/bin\"\nExecStart=");
        u.append(dockerd.as_str());
        u.append(" --config-file ");
        u.append(config_path);
        u.append(
            "\nExecReload=/bin/kill -s HUP $MAINPID\nTimeoutSec=0\nRestartSec=2\nRestart=always\nStartLimitBurst=3\nStartLimitInterval=60s\nLimitNOFILE=infinity\nLimitNPROC=infinity\nLimitCORE=infinity\nTasksMax=infinity\nDelegate=yes\nKillMode=process\nOOMScoreAdjust=-500\n\n[Install]\nWantedBy=multi-user.target\n",
        );
        u
    }

    /// The steps that install Docker `version`: dependencies, download and
    /// unpack the static binaries, replace any earlier installation, write
    /// the daemon configuration, register and start the unit, clean up.
    pub fn install_plan(version: &str, temp_root: &str, cwd: &str, pm: PackageManager) -> (r: Vec<InstallStep>)
        ensures
            steps_view(r@) == docker_install_steps(version@, temp_root@, cwd@, pm),
    {
        let mut plan: Vec<InstallStep> = Vec::new();
        push_step(&mut plan, InstallStep::Say(String::from_str("Starting Docker installation...")));
        let packages = match Self::dependencies(pm) {
            Ok(p) => p,
            Err(m) => {
                push_step(&mut plan, InstallStep::Fail(m));
                assert(steps_view(plan@) =~= docker_install_steps(version@, temp_root@, cwd@, pm));
                return plan;
            },
        };
        push_step(&mut plan, InstallStep::InstallPackages(packages));
        let release = Self::release(version);
        push_step(&mut plan, InstallStep::Say(concat3("Downloading Docker ", release.as_str(), " static binaries...")));
        let temp = join_path(temp_root, "rustpanel_docker");
        let tar_name = concat3("docker-", release.as_str(), ".tgz");
        let tarball = join_path(temp.as_str(), tar_name.as_str());
        push_step(&mut plan, InstallStep::FreshDir(temp.clone()));
        push_step(&mut plan, InstallStep::Download {
            url: concat3("https://download.docker.com/linux/static/stable/x86_64/docker-", release.as_str(), ".tgz"),
            dest: tarball.clone(),
        });
        push_step(&mut plan, InstallStep::Extract { archive: tarball, dest: temp.clone() });
        let server = join_path(cwd, "server");
        let home = join_path(server.as_str(), "docker");
        let bin = join_path(home.as_str(), "bin");
        let data = join_path(home.as_str(), "data");
        let config_dir = join_path(home.as_str(), "config");
        push_step(&mut plan, InstallStep::StopAndClearDir { service: String::from_str("docker"), dir: home.clone() });
        push_step(&mut plan, InstallStep::CreateDir(bin.clone()));
        push_step(&mut plan, InstallStep::CreateDir(data.clone()));
        push_step(&mut plan, InstallStep::CreateDir(config_dir.clone()));
        push_step(&mut plan, InstallStep::MoveFiles { from_dir: join_path(temp.as_str(), "docker"), to_dir: bin.clone() });
        push_step(&mut plan, InstallStep::Say(String::from_str("Configuring Docker...")));
        let daemon_json = join_path(config_dir.as_str(), "daemon.json");
        push_step(&mut plan, InstallStep::WriteFile { path: daemon_json.clone(), content: Self::daemon_config(data.as_str()) });
        push_register_unit(
            &mut plan,
            "/etc/systemd/system/docker.service",
            Self::unit_file(bin.as_str(), daemon_json.as_str()),
            "docker",
        );
        push_step(&mut plan, InstallStep::Run {
            program: String::from_str("systemctl"),
            args: args2(String::from_str("start"), String::from_str("docker")),
            cwd: None,
            on_failure: Some(String::from_str("Failed to start Docker service")),
        });
        push_step(&mut plan, InstallStep::RemoveDirQuietly(temp));
        push_step(&mut plan, InstallStep::Say(concat3("Docker installed successfully to ", home.as_str(), "!")));
        assert(steps_view(plan@) =~= docker_install_steps(version@, temp_root@, cwd@, pm));
        plan
    }

    /// The steps that remove Docker: stop and unregister the service, remove
    /// the installation.
    pub fn uninstall_plan(cwd: &str) -> (r: Vec<InstallStep>)
        ensures
            steps_view(r@) == docker_uninstall_steps(cwd@),
    {
        let mut plan: Vec<InstallStep> = Vec::new();
        push_step(&mut plan, InstallStep::Say(String::from_str("Uninstalling Docker...")));
        push_unregister_unit(&mut plan, "docker", "/etc/systemd/system/docker.service");
        let server = join_path(cwd, "server");
        let home = join_path(server.as_str(), "docker");
        push_step(&mut plan, InstallStep::RemoveDirIfExists(home));
        push_step(&mut plan, InstallStep::Say(String::from_str("Docker uninstalled.")));
        assert(steps_view(plan@) =~= docker_uninstall_steps(cwd@));
        plan
    }
}

/// A requested Docker version is installed as asked, except that no
/// version or `latest` stands for 27.3.1.
pub proof fn lemma_docker_release(version: Seq<char>)
    ensures
        (version.len() == 0 || version == "latest"@) ==> docker_release(version) == "27.3.1"@,
        !(version.len() == 0 || version == "latest"@) ==> docker_release(version) == version,
{
}

/// With a known package manager, Docker's static binaries for the release
/// are fetched from download.docker.com and unpacked in the temporary
/// directory; the old installation is stopped and cleared; the binary,
/// data and configuration directories are made; the unpacked binaries are
/// moved into the binary directory; the daemon configuration is written in
/// the configuration directory; and after the unit is registered the
/// service is started, a failure to start stopping the plan.
pub proof fn lemma_docker_installs_binaries(version: Seq<char>, temp_root: Seq<char>, cwd: Seq<char>, pm: PackageManager)
    requires
        pm != PackageManager::Unknown,
    ensures
        ({
            let steps = docker_install_steps(version, temp_root, cwd, pm);
            let release = docker_release(version);
            let temp = joined_path(temp_root, "rustpanel_docker"@);
            let tarball = joined_path(temp, "docker-"@ + release + ".tgz"@);
            let home = joined_path(joined_path(cwd, "server"@), "docker"@);
            let bin = joined_path(home, "bin"@);
            let data = joined_path(home, "data"@);
            let config_dir = joined_path(home, "config"@);
            &&& steps.contains(StepView::Download {
                url: "https://download.docker.com/linux/static/stable/x86_64/docker-"@ + release + ".tgz"@,
                dest: tarball,
            })
            &&& steps.contains(StepView::Extract { archive: tarball, dest: temp })
            &&& steps.contains(StepView::StopAndClearDir { service: "docker"@, dir: home })
            &&& steps.contains(StepView::CreateDir(bin))
            &&& steps.contains(StepView::CreateDir(data))
            &&& steps.contains(StepView::CreateDir(config_dir))
            &&& steps.contains(StepView::MoveFiles { from_dir: joined_path(temp, "docker"@), to_dir: bin })
            &&& steps.contains(StepView::WriteFile { path: joined_path(config_dir, "daemon.json"@), content: docker_daemon_config(data) })
            &&& steps.contains(StepView::Run {
                program: "systemctl"@,
                args: seq!["start"@, "docker"@],
                cwd: None,
                on_failure: Some("Failed to start Docker service"@),
            })
        }),
{
    let steps = docker_install_steps(version, temp_root, cwd, pm);
    let release = docker_release(version);
    let temp = joined_path(temp_root, "rustpanel_docker"@);
    let tarball = joined_path(temp, "docker-"@ + release + ".tgz"@);
    let home = docker_home(cwd);
    let bin = joined_path(home, "bin"@);
    let data = joined_path(home, "data"@);
    let config_dir = joined_path(home, "config"@);
    assert(steps[4] == StepView::Download {
        url: "https://download.docker.com/linux/static/stable/x86_64/docker-"@ + release + ".tgz"@,
        dest: tarball,
    });
    assert(steps[5] == StepView::Extract { archive: tarball, dest: temp });
    assert(steps[6] == StepView::StopAndClearDir { service: "docker"@, dir: home });
    assert(steps[7] == StepView::CreateDir(bin));
    assert(steps[8] == StepView::CreateDir(data));
    assert(steps[9] == StepView::CreateDir(config_dir));
    assert(steps[10] == StepView::MoveFiles { from_dir: joined_path(temp, "docker"@), to_dir: bin });
    assert(steps[12] == StepView::WriteFile { path: joined_path(config_dir, "daemon.json"@), content: docker_daemon_config(data) });
    assert(steps[16] == StepView::Run {
        program: "systemctl"@,
        args: seq!["start"@, "docker"@],
        cwd: None,
        on_failure: Some("Failed to start Docker service"@),
    });
}

} // verus!
