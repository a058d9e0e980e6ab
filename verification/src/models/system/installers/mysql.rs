use vstd::prelude::*;
use crate::common::text::{concat2, concat3, has_infix, join_path, joined_path, occurs_at, texts};
use super::manager::{
    args3, args4, args_of, push_register_unit, push_step, push_unregister_unit,
    register_unit_steps, steps_view, unregister_unit_steps, InstallStep, PackageManager, StepView,
};

verus! {

/// Installs the generic MySQL binary distribution into `/www/server/mysql`.
pub struct MysqlInstaller;

/// The system packages that MySQL needs, per package manager.
pub open spec fn mysql_packages(pm: PackageManager) -> Seq<Seq<char>> {
    match pm {
        PackageManager::Yum => seq!["libaio"@, "ncurses-compat-libs"@],
        _ => seq!["libaio1"@, "libncurses5"@],
    }
}

/// The MySQL configuration file for base directory `base` and data directory `data`.
pub open spec fn mysql_my_cnf(base: Seq<char>, data: Seq<char>) -> Seq<char> {
    "\n[client]\nport = 3306\nsocket = /tmp/mysql.sock\n\n[mysqld]\nport = 3306\nsocket = /tmp/mysql.sock\nbasedir = "@
        + base + "\ndatadir = "@ + data + "\nuser = mysql\nbind-address = 127.0.0.1\n"@
}

/// The systemd unit of a MySQL installed under `p`.
pub open spec fn mysql_unit(p: Seq<char>) -> Seq<char> {
    "\n[Unit]\nDescription=MySQL Server\nAfter=network.target\n\n[Service]\nUser=mysql\nGroup=mysql\nExecStart="@
        + p + "/bin/mysqld --defaults-file=/etc/my.cnf\nPrivateTmp=true\n\n[Install]\nWantedBy=multi-user.target\n"@
}

/// The steps that install MySQL `version`, given the system's temporary
/// directory and package manager.
pub open spec fn mysql_install_steps(version: Seq<char>, temp_root: Seq<char>, pm: PackageManager) -> Seq<StepView> {
    let start = StepView::Say("Starting MySQL "@ + version + " installation..."@);
    if pm == PackageManager::Unknown {
        seq![start, StepView::Fail("Unsupported OS"@)]
    } else {
        let temp = joined_path(temp_root, "rustpanel_mysql"@);
        let tarball = joined_path(temp, "mysql-"@ + version + ".tar.xz"@);
        let home = "/www/server/mysql"@;
        let data = joined_path(home, "data"@);
        seq![
            start,
            StepView::InstallPackages(mysql_packages(pm)),
            StepView::CreateUser { name: "mysql"@, shell: "/sbin/nologin"@ },
            StepView::FreshDir(temp),
            StepView::Download {
                url: "https://downloads.mysql.com/archives/get/p/23/file/mysql-"@ + version + "-linux-glibc2.12-x86_64.tar.xz"@,
                dest: tarball,
            },
            StepView::Extract { archive: tarball, dest: temp },
            StepView::RemoveDirQuietly(home),
            StepView::MoveExtracted {
                from_dir: temp,
                prefix: "mysql-"@,
                dest: home,
                missing: "Failed to find extracted MySQL directory"@,
            },
            StepView::Say("Initializing MySQL..."@),
            StepView::CreateDir(data),
            StepView::Run { program: "chown"@, args: seq!["-R"@, "mysql:mysql"@, home], cwd: None, on_failure: None },
            StepView::Run {
                program: joined_path(home, "bin/mysqld"@),
                args: seq!["--initialize-insecure"@, "--user=mysql"@, "--basedir="@ + home, "--datadir="@ + data],
                cwd: None,
                on_failure: Some("MySQL initialization failed"@),
            },
            StepView::WriteFile { path: "/etc/my.cnf"@, content: mysql_my_cnf(home, data) },
        ] + register_unit_steps("/etc/systemd/system/mysqld.service"@, mysql_unit(home), "mysqld"@) + seq![
            StepView::RemoveDirQuietly(temp),
            StepView::Say("MySQL installed successfully! Root password is empty."@),
        ]
    }
}

/// The steps that remove MySQL.
pub open spec fn mysql_uninstall_steps() -> Seq<StepView> {
    seq![StepView::Say("Uninstalling MySQL..."@)]
        + unregister_unit_steps("mysqld"@, "/etc/systemd/system/mysqld.service"@)
        + seq![
            StepView::RemoveDirIfExists("/www/server/mysql"@),
            StepView::RemoveFileQuietly("/etc/my.cnf"@),
            StepView::Say("MySQL uninstalled."@),
        ]
}

impl MysqlInstaller {
    /// The packages that MySQL needs, or the refusal for an unknown package manager.
    pub fn dependencies(pm: PackageManager) -> (r: Result<Vec<String>, String>)
        ensures
            pm == PackageManager::Unknown ==> (r matches Err(m) && m@ == "Unsupported OS"@),
            pm != PackageManager::Unknown ==> (r matches Ok(p) && texts(p@) == mysql_packages(pm)),
    {
        match pm {
            PackageManager::Yum => {
                let items: [&str; 2] = ["libaio", "ncurses-compat-libs"];
                let p = args_of(&items);
                assert(texts(p@) =~= mysql_packages(pm));
                Ok(p)
            },
            PackageManager::Apt => {
                let items: [&str; 2] = ["libaio1", "libncurses5"];
                let p = args_of(&items);
                assert(texts(p@) =~= mysql_packages(pm));
                Ok(p)
            },
            PackageManager::Unknown => Err(String::from_str("Unsupported OS")),
        }
    }

    /// The MySQL configuration file for `base` and `data`.
    pub fn my_cnf(base: &str, data: &str) -> (r: String)
        ensures
            r@ == mysql_my_cnf(base@, data@),
    {
        let mut c = String::from_str(
            "\n[client]\nport = 3306\nsocket = /tmp/mysql.sock\n\n[mysqld]\nport = 3306\nsocket = /tmp/mysql.sock\nbasedir = ",
        );
        c.append(base);
        c.append("\ndatadir = ");
        c.append(data);
        c.append("\nuser = mysql\nbind-address = 127.0.0.1\n");
        c
    }

    /// The systemd unit of a MySQL installed under `install_path`.
    pub fn unit_file(install_path: &str) -> (r: String)
        ensures
            r@ == mysql_unit(install_path@),
    {
        let mut u = String::from_str(
            "\n[Unit]\nDescription=MySQL Server\nAfter=network.target\n\n[Service]\nUser=mysql\nGroup=mysql\nExecStart=",
        );
        u.append(install_path);
        u.append("/bin/mysqld --defaults-file=/etc/my.cnf\nPrivateTmp=true\n\n[Install]\nWantedBy=multi-user.target\n");
        u
    }

    /// The steps that install MySQL `version`: dependencies, the `mysql`
    /// user, download and unpack, move into place, initialize the data
    /// directory, write `/etc/my.cnf`, register the unit, clean up.
    pub fn install_plan(version: &str, temp_root: &str, pm: PackageManager) -> (r: Vec<InstallStep>)
        ensures
            steps_view(r@) == mysql_install_steps(version@, temp_root@, pm),
    {
        let mut plan: Vec<InstallStep> = Vec::new();
        push_step(&mut plan, InstallStep::Say(concat3("Starting MySQL ", version, " installation...")));
        let packages = match Self::dependencies(pm) {
            Ok(p) => p,
            Err(m) => {
                push_step(&mut plan, InstallStep::Fail(m));
                assert(steps_view(plan@) =~= mysql_install_steps(version@, temp_root@, pm));
                return plan;
            },
        };
        let temp = join_path(temp_root, "rustpanel_mysql");
        let tar_name = concat3("mysql-", version, ".tar.xz");
        let tarball = join_path(temp.as_str(), tar_name.as_str());
        let home = "/www/server/mysql";
        let data = join_path(home, "data");
        push_step(&mut plan, InstallStep::InstallPackages(packages));
        push_step(&mut plan, InstallStep::CreateUser { name: String::from_str("mysql"), shell: String::from_str("/sbin/nologin") });
        push_step(&mut plan, InstallStep::FreshDir(temp.clone()));
        push_step(&mut plan, InstallStep::Download {
            url: concat3("https://downloads.mysql.com/archives/get/p/23/file/mysql-", version, "-linux-glibc2.12-x86_64.tar.xz"),
            dest: tarball.clone(),
        });
        push_step(&mut plan, InstallStep::Extract { archive: tarball, dest: temp.clone() });
        push_step(&mut plan, InstallStep::RemoveDirQuietly(String::from_str(home)));
        push_step(&mut plan, InstallStep::MoveExtracted {
            from_dir: temp.clone(),
            prefix: String::from_str("mysql-"),
            dest: String::from_str(home),
            missing: String::from_str("Failed to find extracted MySQL directory"),
        });
        push_step(&mut plan, InstallStep::Say(String::from_str("Initializing MySQL...")));
        push_step(&mut plan, InstallStep::CreateDir(data.clone()));
        push_step(&mut plan, InstallStep::Run {
            program: String::from_str("chown"),
            args: args3(String::from_str("-R"), String::from_str("mysql:mysql"), String::from_str(home)),
            cwd: None,
            on_failure: None,
        });
        push_step(&mut plan, InstallStep::Run {
            program: join_path(home, "bin/mysqld"),
            args: args4(
                String::from_str("--initialize-insecure"),
                String::from_str("--user=mysql"),
                concat2("--basedir=", home),
                concat2("--datadir=", data.as_str()),
            ),
            cwd: None,
            on_failure: Some(String::from_str("MySQL initialization failed")),
        });
        push_step(&mut plan, InstallStep::WriteFile { path: String::from_str("/etc/my.cnf"), content: Self::my_cnf(home, data.as_str()) });
        push_register_unit(&mut plan, "/etc/systemd/system/mysqld.service", Self::unit_file(home), "mysqld");
        push_step(&mut plan, InstallStep::RemoveDirQuietly(temp));
        push_step(&mut plan, InstallStep::Say(String::from_str("MySQL installed successfully! Root password is empty.")));
        assert(steps_view(plan@) =~= mysql_install_steps(version@, temp_root@, pm));
        plan
    }

    /// The steps that remove MySQL: stop and unregister the service, remove
    /// the installation and `/etc/my.cnf`.
    pub fn uninstall_plan() -> (r: Vec<InstallStep>)
        ensures
            steps_view(r@) == mysql_uninstall_steps(),
    {
        let mut plan: Vec<InstallStep> = Vec::new();
        push_step(&mut plan, InstallStep::Say(String::from_str("Uninstalling MySQL...")));
        push_unregister_unit(&mut plan, "mysqld", "/etc/systemd/system/mysqld.service");
        push_step(&mut plan, InstallStep::RemoveDirIfExists(String::from_str("/www/server/mysql")));
        push_step(&mut plan, InstallStep::RemoveFileQuietly(String::from_str("/etc/my.cnf")));
        push_step(&mut plan, InstallStep::Say(String::from_str("MySQL uninstalled.")));
        assert(steps_view(plan@) =~= mysql_uninstall_steps());
        plan
    }
}

/// The MySQL installation initializes its data where it keeps it: with a
/// known package manager, the plan creates `/www/server/mysql/data`, runs
/// `mysqld --initialize-insecure` with that directory as `--datadir` (and
/// the installation directory as `--basedir`), and names it as `datadir` in
/// `/etc/my.cnf`.
pub proof fn lemma_mysql_initializes_its_data_dir(version: Seq<char>, temp_root: Seq<char>, pm: PackageManager)
    requires
        pm != PackageManager::Unknown,
    ensures
        ({
            let steps = mysql_install_steps(version, temp_root, pm);
            let home = "/www/server/mysql"@;
            let data = joined_path(home, "data"@);
            &&& steps.contains(StepView::CreateDir(data))
            &&& exists|i: int| 0 <= i < steps.len() && (#[trigger] steps[i] matches StepView::Run { args, .. } && {
                &&& args.contains("--initialize-insecure"@)
                &&& args.contains("--basedir="@ + home)
                &&& args.contains("--datadir="@ + data)
            })
            &&& exists|i: int| 0 <= i < steps.len() && (#[trigger] steps[i] matches StepView::WriteFile { path, content } && {
                &&& path == "/etc/my.cnf"@
                &&& has_infix(content, "\ndatadir = "@ + data + "\n"@)
            })
        }),
{
    let steps = mysql_install_steps(version, temp_root, pm);
    let home = "/www/server/mysql"@;
    let data = joined_path(home, "data"@);
    assert(steps[9] == StepView::CreateDir(data));
    let args = seq!["--initialize-insecure"@, "--user=mysql"@, "--basedir="@ + home, "--datadir="@ + data];
    assert(steps[11] matches StepView::Run { args: a, .. } && a == args);
    assert(args[0] == "--initialize-insecure"@);
    assert(args[2] == "--basedir="@ + home);
    assert(args[3] == "--datadir="@ + data);
    let cnf = mysql_my_cnf(home, data);
    assert(steps[12] == StepView::WriteFile { path: "/etc/my.cnf"@, content: cnf });
    let head = "\n[client]\nport = 3306\nsocket = /tmp/mysql.sock\n\n[mysqld]\nport = 3306\nsocket = /tmp/mysql.sock\nbasedir = "@ + home;
    let needle = "\ndatadir = "@ + data + "\n"@;
    let tail = "user = mysql\nbind-address = 127.0.0.1\n"@;
    reveal_strlit("\nuser = mysql\nbind-address = 127.0.0.1\n");
    reveal_strlit("user = mysql\nbind-address = 127.0.0.1\n");
    reveal_strlit("\n");
    assert(cnf =~= head + needle + tail);
    assert(cnf.subrange(head.len() as int, (head.len() + needle.len()) as int) =~= needle);
    assert(occurs_at(cnf, needle, head.len() as int));
}

} // verus!
