use vstd::prelude::*;
use crate::common::text::text_eq;

verus! {

/// A failure to reach Docker, with its message.
pub struct DockerError {
    pub message: String,
}

impl DockerError {
    /// The text with which the error displays itself: its message.
    pub fn to_text(&self) -> (r: String)
        ensures
            r@ == self.message@,
    {
        self.message.clone()
    }
}

/// How Docker is set up on a kind of operating system.
pub enum DockerSetup {
    /// Run the install script with `sh` and this argument.
    RunScript(String),
    /// Nothing is done on Windows.
    Windows,
    /// Nothing is done on macOS.
    Macos,
    /// Nothing is done on other systems.
    Other,
}

/// The argument of `sh` that installs Docker from the Aliyun mirrors.
pub open spec fn docker_script() -> Seq<char> {
    "./install/docker.sh --source mirrors.aliyun.com/docker-ce --source-registry registry.cn-hangzhou.aliyuncs.com --install-latested true  --ignore-backup-tips"@
}

/// How Docker is set up on the operating system named `os_type`: by the
/// install script on `linux`, not at all elsewhere.
pub fn docker_setup(os_type: &str) -> (r: DockerSetup)
    ensures
        os_type@ == "linux"@ ==> (r matches DockerSetup::RunScript(s) && s@ == docker_script()),
        os_type@ != "linux"@ && os_type@ == "windows"@ ==> r is Windows,
        os_type@ != "linux"@ && os_type@ != "windows"@ && os_type@ == "macos"@ ==> r is Macos,
        os_type@ != "linux"@ && os_type@ != "windows"@ && os_type@ != "macos"@ ==> r is Other,
{
    if text_eq(os_type, "linux") {
        DockerSetup::RunScript(String::from_str(
            "./install/docker.sh --source mirrors.aliyun.com/docker-ce --source-registry registry.cn-hangzhou.aliyuncs.com --install-latested true  --ignore-backup-tips",
        ))
    } else if text_eq(os_type, "windows") {
        DockerSetup::Windows
    } else if text_eq(os_type, "macos") {
        DockerSetup::Macos
    } else {
        DockerSetup::Other
    }
}

} // verus!
