use vstd::prelude::*;
use crate::common::text::{
    concat2, concat3, decimal, decimal_string, has_infix, join_path, joined_path, lemma_replace_absent, replace_all,
    replace_text, texts,
};
use super::manager::{
    args2, args_of, push_register_unit, push_step, push_unregister_unit, register_unit_steps,
    steps_view, unregister_unit_steps, InstallStep, PackageManager, StepView,
    runs_with, lemma_run_step_witness,
};

verus! {

/// Builds Redis from source into `<working dir>/server/redis`.
pub struct RedisInstaller;

/// The system packages that building Redis needs, per package manager.
pub open spec fn redis_packages(pm: PackageManager) -> Seq<Seq<char>> {
    match pm {
        PackageManager::Yum => seq!["gcc"@, "gcc-c++"@, "make"@, "tcl"@],
        _ => seq!["build-essential"@, "tcl"@],
    }
}

/// The systemd unit of a Redis installed under `p`.
pub open spec fn redis_unit(p: Seq<char>) -> Seq<char> {
    "\n[Unit]\nDescription=redis-server\nAfter=network.target\n\n[Service]\nType=forking\nExecStart="@
        + p + "/bin/redis-server "@ + p + "/redis.conf\nPrivateTmp=true\n\n[Install]\nWantedBy=multi-user.target\n"@
}

/// A Redis configuration made to run as a daemon bound to 127.0.0.1 only.
pub open spec fn redis_tuned(config: Seq<char>) -> Seq<char> {
    replace_all(
        replace_all(config, "daemonize no"@, "daemonize yes"@),
        "bind 127.0.0.1 -::1"@,
        "bind 127.0.0.1"@,
    )
}

/// Where Redis is installed, below the working directory `cwd`.
pub open spec fn redis_home(cwd: Seq<char>) -> Seq<char> {
    joined_path(joined_path(cwd, "server"@), "redis"@)
}

/// The steps that install Redis `version`, given the system's temporary
/// directory, the working directory, the number of processors and the
/// package manager.
pub open spec fn redis_install_steps(
    version: Seq<char>,
    temp_root: Seq<char>,
    cwd: Seq<char>,
    cpus: nat,
    pm: PackageManager,
) -> Seq<StepView> {
    let start = StepView::Say("Starting Redis "@ + version + " installation..."@);
    if pm == PackageManager::Unknown {
        seq![start, StepView::Fail("Unsupported OS"@)]
    } else {
        let temp = joined_path(temp_root, "rustpanel_redis"@);
        let tarball = joined_path(temp, "redis-"@ + version + ".tar.gz"@);
        let source = joined_path(temp, "redis-"@ + version);
        let home = redis_home(cwd);
        let config = joined_path(home, "redis.conf"@);
        seq![
            start,
            StepView::InstallPackages(redis_packages(pm)),
            StepView::FreshDir(temp),
            StepView::Download { url: "http://download.redis.io/releases/redis-"@ + version + ".tar.gz"@, dest: tarball },
            StepView::Extract { archive: tarball, dest: temp },
            StepView::Say("Compiling Redis..."@),
            StepView::Run {
                program: "make"@,
                args: seq!["-j"@, decimal(cpus)],
                cwd: Some(source),
                on_failure: Some("Redis make failed"@),
            },
            StepView::EnsureDir(home),
            StepView::Say("Installing Redis..."@),
            StepView::Run {
                program: "make"@,
                args: seq!["install"@, "PREFIX="@ + home],
                cwd: Some(source),
                on_failure: Some("Redis make install failed"@),
            },
            StepView::CopyFile { from: joined_path(source, "redis.conf"@), to: config },
            StepView::TuneRedisConfig(config),
        ] + register_unit_steps("/etc/systemd/system/redis.service"@, redis_unit(home), "redis"@) + seq![
            StepView::RemoveDirQuietly(temp),
            StepView::Say("Redis installed successfully!"@),
        ]
    }
}

/// The steps that remove Redis installed below the working directory `cwd`.
pub open spec fn redis_uninstall_steps(cwd: Seq<char>) -> Seq<StepView> {
    seq![StepView::Say("Uninstalling Redis..."@)]
        + unregister_unit_steps("redis"@, "/etc/systemd/system/redis.service"@)
        + seq![StepView::RemoveDirIfExists(redis_home(cwd)), StepView::Say("Redis uninstalled."@)]
}

impl RedisInstaller {
    /// The packages that building Redis needs, or the refusal for an unknown package manager.
    pub fn dependencies(pm: PackageManager) -> (r: Result<Vec<String>, String>)
        ensures
            pm == PackageManager::Unknown ==> (r matches Err(m) && m@ == "Unsupported OS"@),
            pm != PackageManager::Unknown ==> (r matches Ok(p) && texts(p@) == redis_packages(pm)),
    {
        match pm {
            PackageManager::Yum => {
                let items: [&str; 4] = ["gcc", "gcc-c++", "make", "tcl"];
                let p = args_of(&items);
                assert(texts(p@) =~= redis_packages(pm));
                Ok(p)
            },
            PackageManager::Apt => {
                let items: [&str; 2] = ["build-essential", "tcl"];
                let p = args_of(&items);
                assert(texts(p@) =~= redis_packages(pm));
                Ok(p)
            },
            PackageManager::Unknown => Err(String::from_str("Unsupported OS")),
        }
    }

    /// The systemd unit of a Redis installed under `install_path`.
    pub fn unit_file(install_path: &str) -> (r: String)
        ensures
            r@ == redis_unit(install_path@),
    {
        let mut u = String::from_str(
            "\n[Unit]\nDescription=redis-server\nAfter=network.target\n\n[Service]\nType=forking\nExecStart=",
        );
        u.append(install_path);
        u.append("/bin/redis-server ");
        u.append(install_path);
        u.append("/redis.conf\nPrivateTmp=true\n\n[Install]\nWantedBy=multi-user.target\n");
        u
    }

    /// The configuration text rewritten to daemonize and to bind 127.0.0.1 only.
    pub fn tune_config(config: &str) -> (r: String)
        ensures
            r@ == redis_tuned(config@),
    {
        proof {
            reveal_strlit("daemonize no");
            reveal_strlit("bind 127.0.0.1 -::1");
        }
        let daemon = replace_text(config, "daemonize no", "daemonize yes");
        replace_text(daemon.as_str(), "bind 127.0.0.1 -::1", "bind 127.0.0.1")
    }

    /// The steps that install Redis `version`: dependencies, download,
    /// make, make install under the working directory, copy and tune the
    /// configuration, register the unit, clean up.
    pub fn install_plan(version: &str, temp_root: &str, cwd: &str, cpus: u64, pm: PackageManager) -> (r: Vec<InstallStep>)
        ensures
            steps_view(r@) == redis_install_steps(version@, temp_root@, cwd@, cpus as nat, pm),
    {
        let mut plan: Vec<InstallStep> = Vec::new();
        push_step(&mut plan, InstallStep::Say(concat3("Starting Redis ", version, " installation...")));
        let packages = match Self::dependencies(pm) {
            Ok(p) => p,
            Err(m) => {
                push_step(&mut plan, InstallStep::Fail(m));
                assert(steps_view(plan@) =~= redis_install_steps(version@, temp_root@, cwd@, cpus as nat, pm));
                return plan;
            },
        };
        let temp = join_path(temp_root, "rustpanel_redis");
        let tar_name = concat3("redis-", version, ".tar.gz");
        let tarball = join_path(temp.as_str(), tar_name.as_str());
        let src_name = concat2("redis-", version);
        let source = join_path(temp.as_str(), src_name.as_str());
        let server = join_path(cwd, "server");
        let home = join_path(server.as_str(), "redis");
        let config = join_path(home.as_str(), "redis.conf");
        push_step(&mut plan, InstallStep::InstallPackages(packages));
        push_step(&mut plan, InstallStep::FreshDir(temp.clone()));
        push_step(&mut plan, InstallStep::Download {
            url: concat3("http://download.redis.io/releases/redis-", version, ".tar.gz"),
            dest: tarball.clone(),
        });
        push_step(&mut plan, InstallStep::Extract { archive: tarball, dest: temp.clone() });
        push_step(&mut plan, InstallStep::Say(String::from_str("Compiling Redis...")));
        push_step(&mut plan, InstallStep::Run {
            program: String::from_str("make"),
            args: args2(String::from_str("-j"), decimal_string(cpus)),
            cwd: Some(source.clone()),
            on_failure: Some(String::from_str("Redis make failed")),
        });
        push_step(&mut plan, InstallStep::EnsureDir(home.clone()));
        push_step(&mut plan, InstallStep::Say(String::from_str("Installing Redis...")));
        push_step(&mut plan, InstallStep::Run {
            program: String::from_str("make"),
            args: args2(String::from_str("install"), concat2("PREFIX=", home.as_str())),
            cwd: Some(source.clone()),
            on_failure: Some(String::from_str("Redis make install failed")),
        });
        push_step(&mut plan, InstallStep::CopyFile { from: join_path(source.as_str(), "redis.conf"), to: config.clone() });
        push_step(&mut plan, InstallStep::TuneRedisConfig(config));
        push_register_unit(&mut plan, "/etc/systemd/system/redis.service", Self::unit_file(home.as_str()), "redis");
        push_step(&mut plan, InstallStep::RemoveDirQuietly(temp));
        push_step(&mut plan, InstallStep::Say(String::from_str("Redis installed successfully!")));
        assert(steps_view(plan@) =~= redis_install_steps(version@, temp_root@, cwd@, cpus as nat, pm));
        plan
    }

    /// The steps that remove Redis: stop and unregister the service, remove
    /// the installation.
    pub fn uninstall_plan(cwd: &str) -> (r: Vec<InstallStep>)
        ensures
            steps_view(r@) == redis_uninstall_steps(cwd@),
    {
        let mut plan: Vec<InstallStep> = Vec::new();
        push_step(&mut plan, InstallStep::Say(String::from_str("Uninstalling Redis...")));
        push_unregister_unit(&mut plan, "redis", "/etc/systemd/system/redis.service");
        let server = join_path(cwd, "server");
        let home = join_path(server.as_str(), "redis");
        push_step(&mut plan, InstallStep::RemoveDirIfExists(home));
        push_step(&mut plan, InstallStep::Say(String::from_str("Redis uninstalled.")));
        assert(steps_view(plan@) =~= redis_uninstall_steps(cwd@));
        plan
    }
}

/// With a known package manager, Redis `version` is fetched from
/// redis.io, unpacked in the temporary directory, compiled in its source
/// directory with one job per processor and installed with the
/// installation directory as `PREFIX`; its sample configuration is copied
/// into the installation directory and then tuned there, and a systemd unit
/// is written for it.
pub proof fn lemma_redis_builds_into_its_home(version: Seq<char>, temp_root: Seq<char>, cwd: Seq<char>, cpus: nat, pm: PackageManager)
    requires
        pm != PackageManager::Unknown,
    ensures
        ({
            let steps = redis_install_steps(version, temp_root, cwd, cpus, pm);
            let temp = joined_path(temp_root, "rustpanel_redis"@);
            let tarball = joined_path(temp, "redis-"@ + version + ".tar.gz"@);
            let source = joined_path(temp, "redis-"@ + version);
            let home = joined_path(joined_path(cwd, "server"@), "redis"@);
            let config = joined_path(home, "redis.conf"@);
            &&& steps.contains(StepView::Download { url: "http://download.redis.io/releases/redis-"@ + version + ".tar.gz"@, dest: tarball })
            &&& steps.contains(StepView::Extract { archive: tarball, dest: temp })
            &&& runs_with(steps, "make"@, Some(source), decimal(cpus))
            &&& steps.contains(StepView::EnsureDir(home))
            &&& runs_with(steps, "make"@, Some(source), "install"@)
            &&& runs_with(steps, "make"@, Some(source), "PREFIX="@ + home)
            &&& exists|i: int, j: int|
                0 <= i < j < steps.len() && #[trigger] steps[i] == (StepView::CopyFile { from: joined_path(source, "redis.conf"@), to: config })
                    && #[trigger] steps[j] == StepView::TuneRedisConfig(config)
            &&& steps.contains(StepView::WriteFile { path: "/etc/systemd/system/redis.service"@, content: redis_unit(home) })
        }),
{
    let steps = redis_install_steps(version, temp_root, cwd, cpus, pm);
    let temp = joined_path(temp_root, "rustpanel_redis"@);
    let tarball = joined_path(temp, "redis-"@ + version + ".tar.gz"@);
    let source = joined_path(temp, "redis-"@ + version);
    let home = redis_home(cwd);
    let config = joined_path(home, "redis.conf"@);
    assert(steps[3] == StepView::Download { url: "http://download.redis.io/releases/redis-"@ + version + ".tar.gz"@, dest: tarball });
    assert(steps[4] == StepView::Extract { archive: tarball, dest: temp });
    lemma_run_step_witness(steps, 6, "make"@, seq!["-j"@, decimal(cpus)], Some(source), Some("Redis make failed"@), 1);
    assert(steps[7] == StepView::EnsureDir(home));
    let install = seq!["install"@, "PREFIX="@ + home];
    lemma_run_step_witness(steps, 9, "make"@, install, Some(source), Some("Redis make install failed"@), 0);
    lemma_run_step_witness(steps, 9, "make"@, install, Some(source), Some("Redis make install failed"@), 1);
    assert(steps[10] == StepView::CopyFile { from: joined_path(source, "redis.conf"@), to: config });
    assert(steps[11] == StepView::TuneRedisConfig(config));
    assert(steps[12] == StepView::WriteFile { path: "/etc/systemd/system/redis.service"@, content: redis_unit(home) });
}

/// Tuning leaves a Redis configuration alone when it neither says
/// `daemonize no` nor binds `127.0.0.1 -::1`.
pub proof fn lemma_redis_tuning_leaves_others(config: Seq<char>)
    requires
        !has_infix(config, "daemonize no"@),
        !has_infix(config, "bind 127.0.0.1 -::1"@),
    ensures
        redis_tuned(config) == config,
{
    lemma_replace_absent(config, "daemonize no"@, "daemonize yes"@);
    lemma_replace_absent(config, "bind 127.0.0.1 -::1"@, "bind 127.0.0.1"@);
}

} // verus!
