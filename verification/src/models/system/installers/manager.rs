use vstd::prelude::*;
use crate::common::text::texts;

verus! {

/// The system's package manager.
#[derive(Debug, Clone, Copy, PartialEq, Eq, Structural)]
pub enum PackageManager {
    Yum,
    Apt,
    Unknown,
}

/// The operating-system families that decide the package manager; every
/// other kind of system is `Other`.
#[derive(Debug, Clone, Copy, PartialEq, Eq, Structural)]
pub enum OsKind {
    CentOS,
    Redhat,
    Fedora,
    Amazon,
    Ubuntu,
    Debian,
    Pop,
    Mint,
    Other,
}

/// Operations on the host system used by the installers.
pub struct OsManager;

#[verifier::external_type_specification]
#[verifier::external_body]
pub struct ExOsInfo(os_info::Info);

/// One step of installing or removing a piece of software. Paths are text.
/// A step whose operation fails ends the whole procedure with that failure,
/// unless the step says it is quiet.
pub enum InstallStep {
    /// Prints a line of progress.
    Say(String),
    /// Ends the procedure with this message.
    Fail(String),
    /// Installs these system packages with the system's package manager.
    InstallPackages(Vec<String>),
    /// Creates a system user without a home directory, unless it exists.
    CreateUser { name: String, shell: String },
    /// Removes the directory if it exists, then creates it.
    FreshDir(String),
    /// Creates the directory (and its parents) unless it exists.
    EnsureDir(String),
    /// Creates the directory and its parents.
    CreateDir(String),
    /// Downloads `url` into the file `dest`.
    Download { url: String, dest: String },
    /// Unpacks the archive into `dest`.
    Extract { archive: String, dest: String },
    /// Runs a program; if it runs but reports failure and `on_failure` is
    /// given, the procedure ends with that message.
    Run { program: String, args: Vec<String>, cwd: Option<String>, on_failure: Option<String> },
    /// Runs a program and ignores every outcome.
    RunQuietly { program: String, args: Vec<String> },
    /// Writes the file.
    WriteFile { path: String, content: String },
    /// Removes the directory tree, ignoring every outcome.
    RemoveDirQuietly(String),
    /// Removes the directory tree if it exists.
    RemoveDirIfExists(String),
    /// Removes the file, ignoring every outcome.
    RemoveFileQuietly(String),
    /// If the unit file exists, removes it and quietly reloads systemd.
    RemoveUnitFile(String),
    /// If the directory exists, quietly stops the service and removes the directory tree.
    StopAndClearDir { service: String, dir: String },
    /// Moves the first directory in `from_dir` whose name starts with
    /// `prefix` to `dest`; ends with `missing` when there is none.
    MoveExtracted { from_dir: String, prefix: String, dest: String, missing: String },
    /// Moves every regular file of `from_dir` into `to_dir`.
    MoveFiles { from_dir: String, to_dir: String },
    /// Copies the file.
    CopyFile { from: String, to: String },
    /// Rewrites a Redis configuration file for running as a service.
    TuneRedisConfig(String),
}

/// The mathematical content of an `InstallStep`.
pub enum StepView {
    Say(Seq<char>),
    Fail(Seq<char>),
    InstallPackages(Seq<Seq<char>>),
    CreateUser { name: Seq<char>, shell: Seq<char> },
    FreshDir(Seq<char>),
    EnsureDir(Seq<char>),
    CreateDir(Seq<char>),
    Download { url: Seq<char>, dest: Seq<char> },
    Extract { archive: Seq<char>, dest: Seq<char> },
    Run { program: Seq<char>, args: Seq<Seq<char>>, cwd: Option<Seq<char>>, on_failure: Option<Seq<char>> },
    RunQuietly { program: Seq<char>, args: Seq<Seq<char>> },
    WriteFile { path: Seq<char>, content: Seq<char> },
    RemoveDirQuietly(Seq<char>),
    RemoveDirIfExists(Seq<char>),
    RemoveFileQuietly(Seq<char>),
    RemoveUnitFile(Seq<char>),
    StopAndClearDir { service: Seq<char>, dir: Seq<char> },
    MoveExtracted { from_dir: Seq<char>, prefix: Seq<char>, dest: Seq<char>, missing: Seq<char> },
    MoveFiles { from_dir: Seq<char>, to_dir: Seq<char> },
    CopyFile { from: Seq<char>, to: Seq<char> },
    TuneRedisConfig(Seq<char>),
}

/// The view of an optional string.
pub open spec fn opt_text(o: Option<String>) -> Option<Seq<char>> {
    match o {
        Some(s) => Some(s@),
        None => None,
    }
}

impl View for InstallStep {
    type V = StepView;

    open spec fn view(&self) -> StepView {
        match self {
            InstallStep::Say(s) => StepView::Say(s@),
            InstallStep::Fail(s) => StepView::Fail(s@),
            InstallStep::InstallPackages(p) => StepView::InstallPackages(texts(p@)),
            InstallStep::CreateUser { name, shell } => StepView::CreateUser { name: name@, shell: shell@ },
            InstallStep::FreshDir(p) => StepView::FreshDir(p@),
            InstallStep::EnsureDir(p) => StepView::EnsureDir(p@),
            InstallStep::CreateDir(p) => StepView::CreateDir(p@),
            InstallStep::Download { url, dest } => StepView::Download { url: url@, dest: dest@ },
            InstallStep::Extract { archive, dest } => StepView::Extract { archive: archive@, dest: dest@ },
            InstallStep::Run { program, args, cwd, on_failure } => StepView::Run {
                program: program@,
                args: texts(args@),
                cwd: opt_text(*cwd),
                on_failure: opt_text(*on_failure),
            },
            InstallStep::RunQuietly { program, args } => StepView::RunQuietly { program: program@, args: texts(args@) },
            InstallStep::WriteFile { path, content } => StepView::WriteFile { path: path@, content: content@ },
            InstallStep::RemoveDirQuietly(p) => StepView::RemoveDirQuietly(p@),
            InstallStep::RemoveDirIfExists(p) => StepView::RemoveDirIfExists(p@),
            InstallStep::RemoveFileQuietly(p) => StepView::RemoveFileQuietly(p@),
            InstallStep::RemoveUnitFile(p) => StepView::RemoveUnitFile(p@),
            InstallStep::StopAndClearDir { service, dir } => StepView::StopAndClearDir { service: service@, dir: dir@ },
            InstallStep::MoveExtracted { from_dir, prefix, dest, missing } => StepView::MoveExtracted {
                from_dir: from_dir@,
                prefix: prefix@,
                dest: dest@,
                missing: missing@,
            },
            InstallStep::MoveFiles { from_dir, to_dir } => StepView::MoveFiles { from_dir: from_dir@, to_dir: to_dir@ },
            InstallStep::CopyFile { from, to } => StepView::CopyFile { from: from@, to: to@ },
            InstallStep::TuneRedisConfig(p) => StepView::TuneRedisConfig(p@),
        }
    }
}

/// The views of a sequence of steps.
pub open spec fn steps_view(v: Seq<InstallStep>) -> Seq<StepView> {
    v.map_values(|s: InstallStep| s@)
}

/// The command that installs packages: optionally refresh the package index
/// first, then run `program` with `args` followed by the package names.
pub struct PackageCommand {
    pub refresh_first: bool,
    pub program: String,
    pub args: Vec<String>,
}

/// The package manager that an operating-system family uses, when the family decides it.
pub open spec fn os_package_manager(kind: OsKind) -> Option<PackageManager> {
    match kind {
        OsKind::CentOS | OsKind::Redhat | OsKind::Fedora | OsKind::Amazon => Some(PackageManager::Yum),
        OsKind::Ubuntu | OsKind::Debian | OsKind::Pop | OsKind::Mint => Some(PackageManager::Apt),
        OsKind::Other => None,
    }
}

/// The package manager found from the tools installed on the system.
pub open spec fn tools_package_manager(has_yum: bool, has_dnf: bool, has_apt_get: bool) -> PackageManager {
    if has_yum || has_dnf {
        PackageManager::Yum
    } else if has_apt_get {
        PackageManager::Apt
    } else {
        PackageManager::Unknown
    }
}

/// The package manager of a system of family `kind` with the given tools
/// installed: the family decides where it can, the tools otherwise.
pub open spec fn package_manager_rule(kind: OsKind, has_yum: bool, has_dnf: bool, has_apt_get: bool) -> PackageManager {
    match os_package_manager(kind) {
        Some(p) => p,
        None => tools_package_manager(has_yum, has_dnf, has_apt_get),
    }
}

/// Calls `os_info::Info::os_type` and tells the families apart. What comes
/// back depends on the system that was inspected; nothing is stated of it.
#[verifier::external_body]
fn os_kind_of(info: &os_info::Info) -> (r: OsKind) {
    match info.os_type() {
        os_info::Type::CentOS => OsKind::CentOS,
        os_info::Type::Redhat => OsKind::Redhat,
        os_info::Type::Fedora => OsKind::Fedora,
        os_info::Type::Amazon => OsKind::Amazon,
        os_info::Type::Ubuntu => OsKind::Ubuntu,
        os_info::Type::Debian => OsKind::Debian,
        os_info::Type::Pop => OsKind::Pop,
        os_info::Type::Mint => OsKind::Mint,
        _ => OsKind::Other,
    }
}

/// Calls `std::path::Path::exists`; the answer depends on the disk, so
/// nothing is stated of it.
#[verifier::external_body]
fn path_exists(path: &str) -> (r: bool) {
    std::path::Path::new(path).exists()
}

impl OsManager {
    /// Calls `os_info::get`, which inspects the running system; nothing is
    /// stated of what it finds.
    #[verifier::external_body]
    pub fn get_os_info() -> os_info::Info {
        os_info::get()
    }

    /// The package manager that an operating-system family uses, if the family decides it.
    pub fn package_manager_for_os(kind: OsKind) -> (r: Option<PackageManager>)
        ensures
            r == os_package_manager(kind),
    {
        match kind {
            OsKind::CentOS | OsKind::Redhat | OsKind::Fedora | OsKind::Amazon => Some(PackageManager::Yum),
            OsKind::Ubuntu | OsKind::Debian | OsKind::Pop | OsKind::Mint => Some(PackageManager::Apt),
            OsKind::Other => None,
        }
    }

    /// The package manager found from the installed tools: yum or dnf make it
    /// Yum, otherwise apt-get makes it Apt.
    pub fn package_manager_from_tools(has_yum: bool, has_dnf: bool, has_apt_get: bool) -> (r: PackageManager)
        ensures
            r == tools_package_manager(has_yum, has_dnf, has_apt_get),
    {
        if has_yum || has_dnf {
            PackageManager::Yum
        } else if has_apt_get {
            PackageManager::Apt
        } else {
            PackageManager::Unknown
        }
    }

    /// The rule that picks the package manager: the operating-system family
    /// decides first; only where it does not do the installed tools count,
    /// yum or dnf ahead of apt-get.
    pub fn package_manager_of(kind: OsKind, has_yum: bool, has_dnf: bool, has_apt_get: bool) -> (r: PackageManager)
        ensures
            r == package_manager_rule(kind, has_yum, has_dnf, has_apt_get),
    {
        match Self::package_manager_for_os(kind) {
            Some(pm) => pm,
            None => Self::package_manager_from_tools(has_yum, has_dnf, has_apt_get),
        }
    }

    /// The paths whose presence tells the installed tools apart: yum, dnf
    /// and apt-get under `/usr/bin`.
    pub fn tool_paths() -> (r: (String, String, String))
        ensures
            r.0@ == "/usr/bin/yum"@,
            r.1@ == "/usr/bin/dnf"@,
            r.2@ == "/usr/bin/apt-get"@,
    {
        (String::from_str("/usr/bin/yum"), String::from_str("/usr/bin/dnf"), String::from_str("/usr/bin/apt-get"))
    }

    /// Detects the package manager of the running system by the rule of
    /// `package_manager_of`, from the family that `os_info` reports and from
    /// which of the paths of `tool_paths` exist. The tools are probed only
    /// where the family does not decide, and only as far as the rule needs.
    pub fn detect_package_manager() -> (r: PackageManager)
        ensures
            exists|kind: OsKind, has_yum: bool, has_dnf: bool, has_apt_get: bool|
                r == package_manager_rule(kind, has_yum, has_dnf, has_apt_get),
    {
        let info = Self::get_os_info();
        let kind = os_kind_of(&info);
        let (yum, dnf, apt_get) = Self::tool_paths();
        let decided = Self::package_manager_for_os(kind).is_some();
        let has_yum = if decided { false } else { path_exists(yum.as_str()) };
        let has_dnf = if decided || has_yum { false } else { path_exists(dnf.as_str()) };
        let has_apt_get = if decided || has_yum || has_dnf { false } else { path_exists(apt_get.as_str()) };
        let r = Self::package_manager_of(kind, has_yum, has_dnf, has_apt_get);
        assert(r == package_manager_rule(kind, has_yum, has_dnf, has_apt_get));
        r
    }

    /// The command that installs packages with `pm`: `yum install -y`, or
    /// `apt-get install -y` after `apt-get update`; none for an unknown manager.
    pub fn install_command(pm: PackageManager) -> (r: Option<PackageCommand>)
        ensures
            pm == PackageManager::Unknown <==> r is None,
            r matches Some(c) ==> {
                &&& c.refresh_first == (pm == PackageManager::Apt)
                &&& pm == PackageManager::Yum ==> c.program@ == "yum"@
                &&& pm == PackageManager::Apt ==> c.program@ == "apt-get"@
                &&& texts(c.args@) == seq!["install"@, "-y"@]
            },
    {
        let mut args: Vec<String> = Vec::new();
        args.push(String::from_str("install"));
        args.push(String::from_str("-y"));
        assert(texts(args@) =~= seq!["install"@, "-y"@]);
        match pm {
            PackageManager::Yum => Some(PackageCommand { refresh_first: false, program: String::from_str("yum"), args }),
            PackageManager::Apt => Some(PackageCommand { refresh_first: true, program: String::from_str("apt-get"), args }),
            PackageManager::Unknown => None,
        }
    }
}

} // verus!

verus! {

/// Arguments made of one text.
pub fn args1(a: String) -> (r: Vec<String>)
    ensures
        texts(r@) == seq![a@],
{
    let mut v: Vec<String> = Vec::new();
    v.push(a);
    assert(texts(v@) =~= seq![a@]);
    v
}

/// Arguments made of two texts.
pub fn args2(a: String, b: String) -> (r: Vec<String>)
    ensures
        texts(r@) == seq![a@, b@],
{
    let ghost (av, bv) = (a@, b@);
    let mut v: Vec<String> = Vec::new();
    v.push(a);
    v.push(b);
    assert(texts(v@) =~= seq![av, bv]);
    v
}

/// Arguments made of three texts.
pub fn args3(a: String, b: String, c: String) -> (r: Vec<String>)
    ensures
        texts(r@) == seq![a@, b@, c@],
{
    let ghost (av, bv, cv) = (a@, b@, c@);
    let mut v: Vec<String> = Vec::new();
    v.push(a);
    v.push(b);
    v.push(c);
    assert(texts(v@) =~= seq![av, bv, cv]);
    v
}

/// Arguments made of four texts.
pub fn args4(a: String, b: String, c: String, d: String) -> (r: Vec<String>)
    ensures
        texts(r@) == seq![a@, b@, c@, d@],
{
    let ghost (av, bv, cv, dv) = (a@, b@, c@, d@);
    let mut v: Vec<String> = Vec::new();
    v.push(a);
    v.push(b);
    v.push(c);
    v.push(d);
    assert(texts(v@) =~= seq![av, bv, cv, dv]);
    v
}

/// Arguments made of the texts `items`.
pub fn args_of(items: &[&str]) -> (r: Vec<String>)
    ensures
        texts(r@) == items@.map_values(|s: &str| s@),
{
    let mut v: Vec<String> = Vec::new();
    let mut i: usize = 0;
    while i < items.len()
        invariant
            i <= items@.len(),
            texts(v@) =~= items@.take(i as int).map_values(|s: &str| s@),
        decreases items@.len() - i,
    {
        let ghost old_v = v@;
        let item = String::from_str(items[i]);
        v.push(item);
        assert(texts(v@) =~= texts(old_v).push(items@[i as int]@));
        assert(items@.take(i + 1) =~= items@.take(i as int).push(items@[i as int]));
        i = i + 1;
    }
    assert(items@.take(i as int) =~= items@);
    v
}

/// The steps that write a systemd unit file, reload systemd and enable the
/// service, ignoring the outcome of the last two.
pub open spec fn register_unit_steps(unit_path: Seq<char>, content: Seq<char>, service: Seq<char>) -> Seq<StepView> {
    seq![
        StepView::WriteFile { path: unit_path, content },
        StepView::RunQuietly { program: "systemctl"@, args: seq!["daemon-reload"@] },
        StepView::RunQuietly { program: "systemctl"@, args: seq!["enable"@, service] },
    ]
}

/// Appends the steps that register a systemd unit.
pub fn push_register_unit(plan: &mut Vec<InstallStep>, unit_path: &str, content: String, service: &str)
    ensures
        steps_view(final(plan)@) == steps_view(old(plan)@) + register_unit_steps(unit_path@, content@, service@),
{
    let ghost c = content@;
    plan.push(InstallStep::WriteFile { path: String::from_str(unit_path), content });
    plan.push(InstallStep::RunQuietly { program: String::from_str("systemctl"), args: args1(String::from_str("daemon-reload")) });
    plan.push(InstallStep::RunQuietly {
        program: String::from_str("systemctl"),
        args: args2(String::from_str("enable"), String::from_str(service)),
    });
    assert(steps_view(plan@) =~= steps_view(old(plan)@) + register_unit_steps(unit_path@, c, service@));
}

/// The steps that stop and disable a service and remove its unit file.
pub open spec fn unregister_unit_steps(service: Seq<char>, unit_path: Seq<char>) -> Seq<StepView> {
    seq![
        StepView::RunQuietly { program: "systemctl"@, args: seq!["stop"@, service] },
        StepView::RunQuietly { program: "systemctl"@, args: seq!["disable"@, service] },
        StepView::RemoveUnitFile(unit_path),
    ]
}

/// Appends the steps that stop, disable and unregister a service.
pub fn push_unregister_unit(plan: &mut Vec<InstallStep>, service: &str, unit_path: &str)
    ensures
        steps_view(final(plan)@) == steps_view(old(plan)@) + unregister_unit_steps(service@, unit_path@),
{
    plan.push(InstallStep::RunQuietly {
        program: String::from_str("systemctl"),
        args: args2(String::from_str("stop"), String::from_str(service)),
    });
    plan.push(InstallStep::RunQuietly {
        program: String::from_str("systemctl"),
        args: args2(String::from_str("disable"), String::from_str(service)),
    });
    plan.push(InstallStep::RemoveUnitFile(String::from_str(unit_path)));
    assert(steps_view(plan@) =~= steps_view(old(plan)@) + unregister_unit_steps(service@, unit_path@));
}

} // verus!

verus! {

/// Appends one step.
pub fn push_step(plan: &mut Vec<InstallStep>, step: InstallStep)
    ensures
        steps_view(final(plan)@) == steps_view(old(plan)@).push(step@),
{
    let ghost sv = step@;
    plan.push(step);
    assert(steps_view(plan@) =~= steps_view(old(plan)@).push(sv));
}

/// The steps that create a system user `username` with login shell
/// `shell` and no home directory, once it is known not to exist.
pub open spec fn create_user_steps(username: Seq<char>, shell: Seq<char>) -> Seq<StepView> {
    seq![
        StepView::Say("Creating user '"@ + username + "'..."@),
        StepView::Run {
            program: "useradd"@,
            args: seq!["-s"@, shell, "-M"@, username],
            cwd: None,
            on_failure: Some("Failed to create user "@ + username),
        },
    ]
}

impl OsManager {
    /// The steps that create the system user `username` with login shell
    /// `shell`, to be taken when `id <username>` does not succeed.
    pub fn create_user_plan(username: &str, shell: &str) -> (r: Vec<InstallStep>)
        ensures
            steps_view(r@) == create_user_steps(username@, shell@),
    {
        let mut plan: Vec<InstallStep> = Vec::new();
        push_step(&mut plan, InstallStep::Say(crate::common::text::concat3("Creating user '", username, "'...")));
        push_step(&mut plan, InstallStep::Run {
            program: String::from_str("useradd"),
            args: args4(String::from_str("-s"), String::from_str(shell), String::from_str("-M"), String::from_str(username)),
            cwd: None,
            on_failure: Some(crate::common::text::concat2("Failed to create user ", username)),
        });
        assert(steps_view(plan@) =~= create_user_steps(username@, shell@));
        plan
    }
}

/// The family decides the package manager where it can, whatever tools are
/// installed: the Red Hat family (CentOS, Red Hat, Fedora, Amazon) uses
/// Yum and the Debian family (Ubuntu, Debian, Pop!_OS, Mint) uses Apt.
/// Only on another system do the tools count: yum or dnf give Yum, else
/// apt-get gives Apt, else the package manager is unknown.
pub proof fn lemma_family_decides_package_manager(kind: OsKind, has_yum: bool, has_dnf: bool, has_apt_get: bool)
    ensures
        os_package_manager(kind) == Some(PackageManager::Yum)
            <==> (kind == OsKind::CentOS || kind == OsKind::Redhat || kind == OsKind::Fedora || kind == OsKind::Amazon),
        os_package_manager(kind) == Some(PackageManager::Apt)
            <==> (kind == OsKind::Ubuntu || kind == OsKind::Debian || kind == OsKind::Pop || kind == OsKind::Mint),
        os_package_manager(kind) is None <==> kind == OsKind::Other,
        kind != OsKind::Other ==> Some(package_manager_rule(kind, has_yum, has_dnf, has_apt_get)) == os_package_manager(kind),
        kind == OsKind::Other ==> {
            &&& package_manager_rule(kind, has_yum, has_dnf, has_apt_get) == PackageManager::Yum <==> (has_yum || has_dnf)
            &&& package_manager_rule(kind, has_yum, has_dnf, has_apt_get) == PackageManager::Apt <==> (!has_yum && !has_dnf && has_apt_get)
            &&& package_manager_rule(kind, has_yum, has_dnf, has_apt_get) == PackageManager::Unknown <==> (!has_yum && !has_dnf && !has_apt_get)
        },
{
}

/// Whether `steps` runs `program` in the directory `cwd` (none: the
/// panel's own) with `arg` among its arguments.
pub open spec fn runs_with(steps: Seq<StepView>, program: Seq<char>, cwd: Option<Seq<char>>, arg: Seq<char>) -> bool {
    exists|i: int|
        0 <= i < steps.len() && (#[trigger] steps[i] matches StepView::Run { program: p, args, cwd: c, .. } && p == program
            && c == cwd && args.contains(arg))
}

/// A run step of a plan witnesses each of its arguments.
pub proof fn lemma_run_step_witness(
    steps: Seq<StepView>,
    i: int,
    program: Seq<char>,
    args: Seq<Seq<char>>,
    cwd: Option<Seq<char>>,
    on_failure: Option<Seq<char>>,
    j: int,
)
    requires
        0 <= i < steps.len(),
        steps[i] == (StepView::Run { program, args, cwd, on_failure }),
        0 <= j < args.len(),
    ensures
        runs_with(steps, program, cwd, args[j]),
{
    assert(args.contains(args[j]));
}

} // verus!
