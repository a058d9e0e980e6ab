use vstd::prelude::*;
use crate::common::text::joined_path;
use super::installers::manager::{steps_view, InstallStep, PackageManager, StepView};
use super::installers::nginx::{nginx_home, nginx_install_steps, nginx_uninstall_steps, NginxInstaller};
use super::installers::mysql::{mysql_install_steps, mysql_uninstall_steps, MysqlInstaller};
use super::installers::pgsql::{pgsql_install_steps, pgsql_uninstall_steps, PgsqlInstaller};
use super::installers::redis::{redis_home, redis_install_steps, redis_uninstall_steps, RedisInstaller};
use super::installers::docker::{docker_home, docker_install_steps, docker_uninstall_steps, DockerInstaller};

verus! {

/// The software that the panel installs.
#[derive(Debug, Clone, Copy, PartialEq, Eq, Structural)]
pub enum SoftwareType {
    Nginx,
    Mysql,
    Pgsql,
    Redis,
    Docker,
}

/// The lowercase name of a piece of software.
pub open spec fn software_name(s: SoftwareType) -> Seq<char> {
    match s {
        SoftwareType::Nginx => "nginx"@,
        SoftwareType::Mysql => "mysql"@,
        SoftwareType::Pgsql => "pgsql"@,
        SoftwareType::Redis => "redis"@,
        SoftwareType::Docker => "docker"@,
    }
}

/// What an installation needs to know of the machine.
pub struct Host {
    /// The system's temporary directory.
    pub temp_dir: String,
    /// The working directory of the panel.
    pub current_dir: String,
    /// The number of processors, for parallel builds.
    pub cpus: u64,
    /// The system's package manager.
    pub package_manager: PackageManager,
}

/// The steps that install `software` at `version` on `host`.
pub open spec fn install_steps(software: SoftwareType, version: Seq<char>, host: Host) -> Seq<StepView> {
    match software {
        SoftwareType::Nginx => nginx_install_steps(version, host.temp_dir@, host.current_dir@, host.cpus as nat, host.package_manager),
        SoftwareType::Mysql => mysql_install_steps(version, host.temp_dir@, host.package_manager),
        SoftwareType::Pgsql => pgsql_install_steps(version, host.temp_dir@, host.cpus as nat, host.package_manager),
        SoftwareType::Redis => redis_install_steps(version, host.temp_dir@, host.current_dir@, host.cpus as nat, host.package_manager),
        SoftwareType::Docker => docker_install_steps(version, host.temp_dir@, host.current_dir@, host.package_manager),
    }
}

/// The steps that remove `software`, given the panel's working directory.
pub open spec fn uninstall_steps(software: SoftwareType, cwd: Seq<char>) -> Seq<StepView> {
    match software {
        SoftwareType::Nginx => nginx_uninstall_steps(cwd),
        SoftwareType::Mysql => mysql_uninstall_steps(),
        SoftwareType::Pgsql => pgsql_uninstall_steps(),
        SoftwareType::Redis => redis_uninstall_steps(cwd),
        SoftwareType::Docker => docker_uninstall_steps(cwd),
    }
}

impl SoftwareType {
    /// The lowercase name of the software, as it is displayed.
    pub fn name(&self) -> (r: String)
        ensures
            r@ == software_name(*self),
    {
        match self {
            SoftwareType::Nginx => String::from_str("nginx"),
            SoftwareType::Mysql => String::from_str("mysql"),
            SoftwareType::Pgsql => String::from_str("pgsql"),
            SoftwareType::Redis => String::from_str("redis"),
            SoftwareType::Docker => String::from_str("docker"),
        }
    }
}

/// The steps that install `software` at `version`, by its installer.
pub fn install_plan(software: SoftwareType, version: &str, host: &Host) -> (r: Vec<InstallStep>)
    ensures
        steps_view(r@) == install_steps(software, version@, *host),
{
    match software {
        SoftwareType::Nginx => NginxInstaller::install_plan(
            version,
            host.temp_dir.as_str(),
            host.current_dir.as_str(),
            host.cpus,
            host.package_manager,
        ),
        SoftwareType::Mysql => MysqlInstaller::install_plan(version, host.temp_dir.as_str(), host.package_manager),
        SoftwareType::Pgsql => PgsqlInstaller::install_plan(version, host.temp_dir.as_str(), host.cpus, host.package_manager),
        SoftwareType::Redis => RedisInstaller::install_plan(
            version,
            host.temp_dir.as_str(),
            host.current_dir.as_str(),
            host.cpus,
            host.package_manager,
        ),
        SoftwareType::Docker => DockerInstaller::install_plan(
            version,
            host.temp_dir.as_str(),
            host.current_dir.as_str(),
            host.package_manager,
        ),
    }
}

/// The steps that switch `software` to `version`: the same as installing
/// that version over the current one.
pub fn switch_version_plan(software: SoftwareType, version: &str, host: &Host) -> (r: Vec<InstallStep>)
    ensures
        steps_view(r@) == install_steps(software, version@, *host),
{
    install_plan(software, version, host)
}

/// The steps that remove `software`, by its installer.
pub fn uninstall_plan(software: SoftwareType, cwd: &str) -> (r: Vec<InstallStep>)
    ensures
        steps_view(r@) == uninstall_steps(software, cwd@),
{
    match software {
        SoftwareType::Nginx => NginxInstaller::uninstall_plan(cwd),
        SoftwareType::Mysql => MysqlInstaller::uninstall_plan(),
        SoftwareType::Pgsql => PgsqlInstaller::uninstall_plan(),
        SoftwareType::Redis => RedisInstaller::uninstall_plan(cwd),
        SoftwareType::Docker => DockerInstaller::uninstall_plan(cwd),
    }
}

/// The systemd unit file of a piece of software.
pub open spec fn unit_path(software: SoftwareType) -> Seq<char> {
    match software {
        SoftwareType::Nginx => "/etc/systemd/system/nginx.service"@,
        SoftwareType::Mysql => "/etc/systemd/system/mysqld.service"@,
        SoftwareType::Pgsql => "/etc/systemd/system/postgresql.service"@,
        SoftwareType::Redis => "/etc/systemd/system/redis.service"@,
        SoftwareType::Docker => "/etc/systemd/system/docker.service"@,
    }
}

/// The directory a piece of software is installed in, given the panel's working directory.
pub open spec fn install_home(software: SoftwareType, cwd: Seq<char>) -> Seq<char> {
    match software {
        SoftwareType::Nginx => nginx_home(cwd),
        SoftwareType::Mysql => "/www/server/mysql"@,
        SoftwareType::Pgsql => "/www/server/pgsql"@,
        SoftwareType::Redis => redis_home(cwd),
        SoftwareType::Docker => docker_home(cwd),
    }
}

/// Whether `name` is a relative path of at least one character, so that
/// joining it to a directory names something inside that directory.
pub open spec fn relative_name(name: Seq<char>) -> bool {
    name.len() > 0 && name[0] != '/'
}

/// Whether a step puts the directory `dir` in place: it makes `dir` where it
/// is missing, moves an extracted tree to `dir`, or creates `dir` or a
/// directory inside it (creating a directory creates its parents).
pub open spec fn prepares_dir(step: StepView, dir: Seq<char>) -> bool {
    match step {
        StepView::EnsureDir(d) => d == dir,
        StepView::MoveExtracted { dest, .. } => dest == dir,
        StepView::CreateDir(d) => d == dir || exists|name: Seq<char>| relative_name(name) && d == joined_path(dir, name),
        _ => false,
    }
}

/// Uninstalling undoes installing: when the package manager is known, the
/// installation puts the software's directory in place and writes its
/// systemd unit, and the removal (from the same working directory) deletes
/// that directory and that unit file.
pub proof fn lemma_uninstall_undoes_install(software: SoftwareType, version: Seq<char>, host: Host)
    requires
        host.package_manager != PackageManager::Unknown,
    ensures
        exists|i: int| #![trigger install_steps(software, version, host)[i]]
            0 <= i < install_steps(software, version, host).len()
            && prepares_dir(install_steps(software, version, host)[i], install_home(software, host.current_dir@)),
        exists|i: int| #![trigger install_steps(software, version, host)[i]]
            0 <= i < install_steps(software, version, host).len()
            && (install_steps(software, version, host)[i] matches StepView::WriteFile { path, .. } && path == unit_path(software)),
        uninstall_steps(software, host.current_dir@).contains(StepView::RemoveDirIfExists(install_home(software, host.current_dir@))),
        uninstall_steps(software, host.current_dir@).contains(StepView::RemoveUnitFile(unit_path(software))),
{
    let steps = install_steps(software, version, host);
    let removal = uninstall_steps(software, host.current_dir@);
    let home = install_home(software, host.current_dir@);
    match software {
        SoftwareType::Nginx => {
            assert(prepares_dir(steps[7], home));
            assert(steps[13] matches StepView::WriteFile { path, .. } && path == unit_path(software));
            assert(removal[4] == StepView::RemoveDirIfExists(home));
            assert(removal[3] == StepView::RemoveUnitFile(unit_path(software)));
        },
        SoftwareType::Mysql => {
            assert(prepares_dir(steps[7], home));
            assert(steps[13] matches StepView::WriteFile { path, .. } && path == unit_path(software));
            assert(removal[4] == StepView::RemoveDirIfExists(home));
            assert(removal[3] == StepView::RemoveUnitFile(unit_path(software)));
        },
        SoftwareType::Pgsql => {
            assert(prepares_dir(steps[7], home));
            assert(steps[17] matches StepView::WriteFile { path, .. } && path == unit_path(software));
            assert(removal[4] == StepView::RemoveDirIfExists(home));
            assert(removal[3] == StepView::RemoveUnitFile(unit_path(software)));
        },
        SoftwareType::Redis => {
            assert(prepares_dir(steps[7], home));
            assert(steps[12] matches StepView::WriteFile { path, .. } && path == unit_path(software));
            assert(removal[4] == StepView::RemoveDirIfExists(home));
            assert(removal[3] == StepView::RemoveUnitFile(unit_path(software)));
        },
        SoftwareType::Docker => {
            reveal_strlit("bin");
            assert(relative_name("bin"@));
            assert(prepares_dir(steps[7], home));
            assert(steps[13] matches StepView::WriteFile { path, .. } && path == unit_path(software));
            assert(removal[4] == StepView::RemoveDirIfExists(home));
            assert(removal[3] == StepView::RemoveUnitFile(unit_path(software)));
        },
    }
}

/// Without a known package manager nothing is installed: every plan only
/// announces itself and then fails.
pub proof fn lemma_unknown_package_manager_refused(software: SoftwareType, version: Seq<char>, host: Host)
    requires
        host.package_manager == PackageManager::Unknown,
    ensures
        install_steps(software, version, host).len() == 2,
        install_steps(software, version, host)[0] is Say,
        install_steps(software, version, host)[1] is Fail,
{
}

} // verus!
