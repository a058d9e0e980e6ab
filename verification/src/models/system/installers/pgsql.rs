use vstd::prelude::*;
use crate::common::text::{concat3, decimal, decimal_string, join_path, joined_path, texts};
use super::manager::{
    args1, args2, args3, args4, args_of, push_register_unit, push_step, push_unregister_unit,
    register_unit_steps, steps_view, unregister_unit_steps, InstallStep, PackageManager, StepView,
    runs_with, lemma_run_step_witness,
};

verus! {

/// Builds PostgreSQL from source into `/www/server/pgsql`.
pub struct PgsqlInstaller;

/// The system packages that building PostgreSQL needs, per package manager.
pub open spec fn pgsql_packages(pm: PackageManager) -> Seq<Seq<char>> {
    match pm {
        PackageManager::Yum => seq!["readline-devel"@, "zlib-devel"@, "gcc"@, "make"@],
        _ => seq!["libreadline-dev"@, "zlib1g-dev"@, "build-essential"@],
    }
}

/// The systemd unit of a PostgreSQL installed under `p` with data directory `data`.
pub open spec fn pgsql_unit(p: Seq<char>, data: Seq<char>) -> Seq<char> {
    "\n[Unit]\nDescription=PostgreSQL database server\nAfter=network.target\n\n[Service]\nType=forking\nUser=postgres\nGroup=postgres\nEnvironment=PGDATA="@
        + data + "\nExecStart="@
        + p + "/bin/pg_ctl start -D ${PGDATA} -s -w -t 300\nExecStop="@
        + p + "/bin/pg_ctl stop -D ${PGDATA} -s -m fast\nExecReload="@
        + p + "/bin/pg_ctl reload -D ${PGDATA} -s\nPrivateTmp=true\n\n[Install]\nWantedBy=multi-user.target\n"@
}

/// The steps that install PostgreSQL `version`, given the system's temporary
/// directory, the number of processors and the package manager.
pub open spec fn pgsql_install_steps(version: Seq<char>, temp_root: Seq<char>, cpus: nat, pm: PackageManager) -> Seq<StepView> {
    let start = StepView::Say("Starting PostgreSQL "@ + version + " installation..."@);
    if pm == PackageManager::Unknown {
        seq![start, StepView::Fail("Unsupported OS"@)]
    } else {
        let temp = joined_path(temp_root, "rustpanel_pgsql"@);
        let tarball = joined_path(temp, "postgresql-"@ + version + ".tar.gz"@);
        let source = joined_path(temp, "postgresql-"@ + version);
        let home = "/www/server/pgsql"@;
        let data = joined_path(home, "data"@);
        seq![
            start,
            StepView::InstallPackages(pgsql_packages(pm)),
            StepView::CreateUser { name: "postgres"@, shell: "/bin/bash"@ },
            StepView::FreshDir(temp),
            StepView::Download {
                url: "https://ftp.postgresql.org/pub/source/v"@ + version + "/postgresql-"@ + version + ".tar.gz"@,
                dest: tarball,
            },
            StepView::Extract { archive: tarball, dest: temp },
            StepView::Say("Configuring PostgreSQL..."@),
            StepView::EnsureDir(home),
            StepView::Run {
                program: "./configure"@,
                args: seq!["--prefix="@ + home],
                cwd: Some(source),
                on_failure: Some("PostgreSQL configure failed"@),
            },
            StepView::Say("Compiling PostgreSQL..."@),
            StepView::Run {
                program: "make"@,
                args: seq!["-j"@, decimal(cpus)],
                cwd: Some(source),
                on_failure: Some("PostgreSQL make failed"@),
            },
            StepView::Say("Installing PostgreSQL..."@),
            StepView::Run {
                program: "make"@,
                args: seq!["install"@],
                cwd: Some(source),
                on_failure: Some("PostgreSQL make install failed"@),
            },
            StepView::Say("Initializing PostgreSQL Data..."@),
            StepView::CreateDir(data),
            StepView::Run { program: "chown"@, args: seq!["-R"@, "postgres:postgres"@, home], cwd: None, on_failure: None },
            StepView::Run {
                program: "su"@,
                args: seq!["-"@, "postgres"@, "-c"@, joined_path(home, "bin/initdb"@) + " -D "@ + data],
                cwd: None,
                on_failure: Some("PostgreSQL initdb failed"@),
            },
        ] + register_unit_steps("/etc/systemd/system/postgresql.service"@, pgsql_unit(home, data), "postgresql"@)
            + seq![
            StepView::RemoveDirQuietly(temp),
            StepView::Say("PostgreSQL installed successfully!"@),
        ]
    }
}

/// The steps that remove PostgreSQL.
pub open spec fn pgsql_uninstall_steps() -> Seq<StepView> {
    seq![StepView::Say("Uninstalling PostgreSQL..."@)]
        + unregister_unit_steps("postgresql"@, "/etc/systemd/system/postgresql.service"@)
        + seq![StepView::RemoveDirIfExists("/www/server/pgsql"@), StepView::Say("PostgreSQL uninstalled."@)]
}

impl PgsqlInstaller {
    /// The packages that building PostgreSQL needs, or the refusal for an unknown package manager.
    pub fn dependencies(pm: PackageManager) -> (r: Result<Vec<String>, String>)
        ensures
            pm == PackageManager::Unknown ==> (r matches Err(m) && m@ == "Unsupported OS"@),
            pm != PackageManager::Unknown ==> (r matches Ok(p) && texts(p@) == pgsql_packages(pm)),
    {
        match pm {
            PackageManager::Yum => {
                let items: [&str; 4] = ["readline-devel", "zlib-devel", "gcc", "make"];
                let p = args_of(&items);
                assert(texts(p@) =~= pgsql_packages(pm));
                Ok(p)
            },
            PackageManager::Apt => {
                let items: [&str; 3] = ["libreadline-dev", "zlib1g-dev", "build-essential"];
                let p = args_of(&items);
                assert(texts(p@) =~= pgsql_packages(pm));
                Ok(p)
            },
            PackageManager::Unknown => Err(String::from_str("Unsupported OS")),
        }
    }

    /// The systemd unit of a PostgreSQL installed under `install_path` with data in `data_dir`.
    pub fn unit_file(install_path: &str, data_dir: &str) -> (r: String)
        ensures
            r@ == pgsql_unit(install_path@, data_dir@),
    {
        let mut u = String::from_str(
            "\n[Unit]\nDescription=PostgreSQL database server\nAfter=network.target\n\n[Service]\nType=forking\nUser=postgres\nGroup=postgres\nEnvironment=PGDATA=",
        );
        u.append(data_dir);
        u.append("\nExecStart=");
        u.append(install_path);
        u.append("/bin/pg_ctl start -D ${PGDATA} -s -w -t 300\nExecStop=");
        u.append(install_path);
        u.append("/bin/pg_ctl stop -D ${PGDATA} -s -m fast\nExecReload=");
        u.append(install_path);
        u.append("/bin/pg_ctl reload -D ${PGDATA} -s\nPrivateTmp=true\n\n[Install]\nWantedBy=multi-user.target\n");
        u
    }

    /// The steps that install PostgreSQL `version`: dependencies, the
    /// `postgres` user, download, configure, make, make install, initialize
    /// the data directory as `postgres`, register the unit, clean up.
    pub fn install_plan(version: &str, temp_root: &str, cpus: u64, pm: PackageManager) -> (r: Vec<InstallStep>)
        ensures
            steps_view(r@) == pgsql_install_steps(version@, temp_root@, cpus as nat, pm),
    {
        let mut plan: Vec<InstallStep> = Vec::new();
        push_step(&mut plan, InstallStep::Say(concat3("Starting PostgreSQL ", version, " installation...")));
        let packages = match Self::dependencies(pm) {
            Ok(p) => p,
            Err(m) => {
                push_step(&mut plan, InstallStep::Fail(m));
                assert(steps_view(plan@) =~= pgsql_install_steps(version@, temp_root@, cpus as nat, pm));
                return plan;
            },
        };
        let temp = join_path(temp_root, "rustpanel_pgsql");
        let tar_name = concat3("postgresql-", version, ".tar.gz");
        let tarball = join_path(temp.as_str(), tar_name.as_str());
        let src_name = crate::common::text::concat2("postgresql-", version);
        let source = join_path(temp.as_str(), src_name.as_str());
        let home = "/www/server/pgsql";
        let data = join_path(home, "data");
        push_step(&mut plan, InstallStep::InstallPackages(packages));
        push_step(&mut plan, InstallStep::CreateUser { name: String::from_str("postgres"), shell: String::from_str("/bin/bash") });
        push_step(&mut plan, InstallStep::FreshDir(temp.clone()));
        let mut url = String::from_str("https://ftp.postgresql.org/pub/source/v");
        url.append(version);
        url.append("/postgresql-");
        url.append(version);
        url.append(".tar.gz");
        push_step(&mut plan, InstallStep::Download { url, dest: tarball.clone() });
        push_step(&mut plan, InstallStep::Extract { archive: tarball, dest: temp.clone() });
        push_step(&mut plan, InstallStep::Say(String::from_str("Configuring PostgreSQL...")));
        push_step(&mut plan, InstallStep::EnsureDir(String::from_str(home)));
        push_step(&mut plan, InstallStep::Run {
            program: String::from_str("./configure"),
            args: args1(crate::common::text::concat2("--prefix=", home)),
            cwd: Some(source.clone()),
            on_failure: Some(String::from_str("PostgreSQL configure failed")),
        });
        push_step(&mut plan, InstallStep::Say(String::from_str("Compiling PostgreSQL...")));
        push_step(&mut plan, InstallStep::Run {
            program: String::from_str("make"),
            args: args2(String::from_str("-j"), decimal_string(cpus)),
            cwd: Some(source.clone()),
            on_failure: Some(String::from_str("PostgreSQL make failed")),
        });
        push_step(&mut plan, InstallStep::Say(String::from_str("Installing PostgreSQL...")));
        push_step(&mut plan, InstallStep::Run {
            program: String::from_str("make"),
            args: args1(String::from_str("install")),
            cwd: Some(source),
            on_failure: Some(String::from_str("PostgreSQL make install failed")),
        });
        push_step(&mut plan, InstallStep::Say(String::from_str("Initializing PostgreSQL Data...")));
        push_step(&mut plan, InstallStep::CreateDir(data.clone()));
        push_step(&mut plan, InstallStep::Run {
            program: String::from_str("chown"),
            args: args3(String::from_str("-R"), String::from_str("postgres:postgres"), String::from_str(home)),
            cwd: None,
            on_failure: None,
        });
        let initdb = join_path(home, "bin/initdb");
        let command = concat3(initdb.as_str(), " -D ", data.as_str());
        push_step(&mut plan, InstallStep::Run {
            program: String::from_str("su"),
            args: args4(String::from_str("-"), String::from_str("postgres"), String::from_str("-c"), command),
            cwd: None,
            on_failure: Some(String::from_str("PostgreSQL initdb failed")),
        });
        push_register_unit(&mut plan, "/etc/systemd/system/postgresql.service", Self::unit_file(home, data.as_str()), "postgresql");
        push_step(&mut plan, InstallStep::RemoveDirQuietly(temp));
        push_step(&mut plan, InstallStep::Say(String::from_str("PostgreSQL installed successfully!")));
        assert(steps_view(plan@) =~= pgsql_install_steps(version@, temp_root@, cpus as nat, pm));
        plan
    }

    /// The steps that remove PostgreSQL: stop and unregister the service,
    /// remove the installation.
    pub fn uninstall_plan() -> (r: Vec<InstallStep>)
        ensures
            steps_view(r@) == pgsql_uninstall_steps(),
    {
        let mut plan: Vec<InstallStep> = Vec::new();
        push_step(&mut plan, InstallStep::Say(String::from_str("Uninstalling PostgreSQL...")));
        push_unregister_unit(&mut plan, "postgresql", "/etc/systemd/system/postgresql.service");
        push_step(&mut plan, InstallStep::RemoveDirIfExists(String::from_str("/www/server/pgsql")));
        push_step(&mut plan, InstallStep::Say(String::from_str("PostgreSQL uninstalled.")));
        assert(steps_view(plan@) =~= pgsql_uninstall_steps());
        plan
    }
}

/// With a known package manager, PostgreSQL `version` is fetched from
/// postgresql.org, unpacked in the temporary directory and built in its
/// source directory with `/www/server/pgsql` as prefix, one job per
/// processor; then the data directory `/www/server/pgsql/data` is made and
/// initialized by the `postgres` user with the installed `initdb`.
pub proof fn lemma_pgsql_builds_and_initializes(version: Seq<char>, temp_root: Seq<char>, cpus: nat, pm: PackageManager)
    requires
        pm != PackageManager::Unknown,
    ensures
        ({
            let steps = pgsql_install_steps(version, temp_root, cpus, pm);
            let temp = joined_path(temp_root, "rustpanel_pgsql"@);
            let tarball = joined_path(temp, "postgresql-"@ + version + ".tar.gz"@);
            let source = Some(joined_path(temp, "postgresql-"@ + version));
            let home = "/www/server/pgsql"@;
            let data = joined_path(home, "data"@);
            &&& steps.contains(StepView::Download {
                url: "https://ftp.postgresql.org/pub/source/v"@ + version + "/postgresql-"@ + version + ".tar.gz"@,
                dest: tarball,
            })
            &&& steps.contains(StepView::Extract { archive: tarball, dest: temp })
            &&& steps.contains(StepView::EnsureDir(home))
            &&& runs_with(steps, "./configure"@, source, "--prefix="@ + home)
            &&& runs_with(steps, "make"@, source, decimal(cpus))
            &&& runs_with(steps, "make"@, source, "install"@)
            &&& steps.contains(StepView::CreateDir(data))
            &&& runs_with(steps, "su"@, None, "postgres"@)
            &&& runs_with(steps, "su"@, None, joined_path(home, "bin/initdb"@) + " -D "@ + data)
        }),
{
    let steps = pgsql_install_steps(version, temp_root, cpus, pm);
    let temp = joined_path(temp_root, "rustpanel_pgsql"@);
    let tarball = joined_path(temp, "postgresql-"@ + version + ".tar.gz"@);
    let source = Some(joined_path(temp, "postgresql-"@ + version));
    let home = "/www/server/pgsql"@;
    let data = joined_path(home, "data"@);
    assert(steps[4] == StepView::Download {
        url: "https://ftp.postgresql.org/pub/source/v"@ + version + "/postgresql-"@ + version + ".tar.gz"@,
        dest: tarball,
    });
    assert(steps[5] == StepView::Extract { archive: tarball, dest: temp });
    assert(steps[7] == StepView::EnsureDir(home));
    lemma_run_step_witness(steps, 8, "./configure"@, seq!["--prefix="@ + home], source, Some("PostgreSQL configure failed"@), 0);
    lemma_run_step_witness(steps, 10, "make"@, seq!["-j"@, decimal(cpus)], source, Some("PostgreSQL make failed"@), 1);
    lemma_run_step_witness(steps, 12, "make"@, seq!["install"@], source, Some("PostgreSQL make install failed"@), 0);
    assert(steps[14] == StepView::CreateDir(data));
    let su = seq!["-"@, "postgres"@, "-c"@, joined_path(home, "bin/initdb"@) + " -D "@ + data];
    lemma_run_step_witness(steps, 16, "su"@, su, None, Some("PostgreSQL initdb failed"@), 1);
    lemma_run_step_witness(steps, 16, "su"@, su, None, Some("PostgreSQL initdb failed"@), 3);
}

} // verus!
