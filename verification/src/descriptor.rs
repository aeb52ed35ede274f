//! What is to be installed and run, and where it lives on the host.

use crate::process::{optional_text, Invocation, InvocationView};
use crate::text::{ends_with, has_suffix, join3};
use vstd::prelude::*;

verus! {

/// Where the runtime's installer is downloaded from.
pub const JRE_LINK: &'static str =
    "https://download.bell-sw.com/java/18.0.1.1+2/bellsoft-jre18.0.1.1+2-windows-amd64-full.msi";

/// The file name under which the runtime's installer arrives.
pub const SETUP: &'static str = "bellsoft-jre18.0.1.1+2-windows-amd64-full.msi";

/// Where the payload is downloaded from.
pub const GAEM_LINK: &'static str =
    "https://github.com/sirkostya009/term-paper/releases/download/second-release/term-paper.jar";

/// The file name under which the payload arrives.
pub const JAR_NAME: &'static str = "term-paper.jar";

/// The one build of the runtime that the payload is run with.
pub const JRE_VERSION: &'static str = "18.0.1.1";

/// The application-data directory of the user called `username`.
pub open spec fn app_data_dir_spec(username: Seq<char>) -> Seq<char> {
    "C:/Users/"@ + username + "/AppData/Roaming/GaemApp"@
}

/// The application-data directory of the user called `username`.
pub fn app_data_dir(username: &str) -> (dir: String)
    ensures
        dir@ == app_data_dir_spec(username@),
{
    join3("C:/Users/", username, "/AppData/Roaming/GaemApp")
}

/// `whoami::username`: the name of the user who runs the process, or a
/// stand-in where the host does not tell. It depends on the host, so nothing
/// is claimed of it.
#[verifier::external_body]
fn current_username() -> (name: String) {
    whoami::username()
}

/// The application-data directory of the user who runs the process.
pub fn path() -> (dir: String)
    ensures
        exists|username: Seq<char>| dir@ == app_data_dir_spec(username),
{
    let name = current_username();
    let dir = app_data_dir(name.as_str());
    assert(dir@ == app_data_dir_spec(name@));
    dir
}

/// How an installer is made to install without asking the user.
#[derive(Clone, Copy, Debug, PartialEq, Eq, Structural)]
pub enum InstallKind {
    /// A package that the host's installer front-end unpacks.
    CompressedInstaller,
    /// A program that installs itself.
    SelfExecuting,
}

/// The install mechanism that the extension of `installer` selects: a name
/// ending in `.msi` is a package, one ending in `.exe` installs itself, and
/// no other name is an installer.
pub open spec fn install_kind_spec(installer: Seq<char>) -> Option<InstallKind> {
    if has_suffix(installer, ".msi"@) {
        Some(InstallKind::CompressedInstaller)
    } else if has_suffix(installer, ".exe"@) {
        Some(InstallKind::SelfExecuting)
    } else {
        None
    }
}

/// Selects the install mechanism by the extension of `installer`.
pub fn install_kind(installer: &str) -> (kind: Option<InstallKind>)
    ensures
        kind == install_kind_spec(installer@),
{
    if ends_with(installer, ".msi") {
        Some(InstallKind::CompressedInstaller)
    } else if ends_with(installer, ".exe") {
        Some(InstallKind::SelfExecuting)
    } else {
        None
    }
}

/// The runtime that the payload needs.
///
/// The install mechanism is selected once, when the descriptor is made, by
/// the extension of the installer's file name, and the two cannot be set
/// apart afterwards: every descriptor is well formed.
#[derive(Debug, PartialEq, Eq)]
pub struct DependencyDescriptor {
    name: String,
    required_version: Option<String>,
    url: String,
    installer: String,
    kind: InstallKind,
    binary: String,
}

/// The mathematical content of a [`DependencyDescriptor`].
pub struct DependencyView {
    /// What status messages call the runtime.
    pub name: Seq<char>,
    /// The version that the runtime must report, where one is pinned.
    pub required_version: Option<Seq<char>>,
    /// Where the installer is downloaded from.
    pub url: Seq<char>,
    /// The file name under which the installer arrives.
    pub installer: Seq<char>,
    /// How the installer is run.
    pub kind: InstallKind,
    /// The program that runs the payload.
    pub binary: Seq<char>,
}

impl DependencyView {
    /// The install mechanism is the one that the extension of the
    /// installer's file name selects.
    pub open spec fn well_formed(self) -> bool {
        install_kind_spec(self.installer) == Some(self.kind)
    }
}

impl View for DependencyDescriptor {
    type V = DependencyView;

    closed spec fn view(&self) -> DependencyView {
        DependencyView {
            name: self.name@,
            required_version: optional_text(self.required_version),
            url: self.url@,
            installer: self.installer@,
            kind: self.kind,
            binary: self.binary@,
        }
    }
}

/// The application that the launcher starts.
#[derive(Debug, PartialEq, Eq)]
pub struct PayloadDescriptor {
    /// What status messages call the payload.
    pub name: String,
    /// Where the payload is downloaded from.
    pub url: String,
    /// The file name under which the payload arrives.
    pub file: String,
    /// The directory that holds the downloads and in which they run.
    pub directory: String,
}

/// The mathematical content of a [`PayloadDescriptor`].
pub struct PayloadView {
    pub name: Seq<char>,
    pub url: Seq<char>,
    pub file: Seq<char>,
    pub directory: Seq<char>,
}

impl View for PayloadDescriptor {
    type V = PayloadView;

    open spec fn view(&self) -> PayloadView {
        PayloadView {
            name: self.name@,
            url: self.url@,
            file: self.file@,
            directory: self.directory@,
        }
    }
}

/// The command that asks a runtime for its version: the long form of the
/// flag, which is answered on standard output.
pub open spec fn probe_command_spec(binary: Seq<char>) -> InvocationView {
    InvocationView { program: binary, args: seq!["--version"@], working_dir: None }
}

/// The command that downloads `link` into `dir`, following redirects and
/// writing over an earlier download.
pub open spec fn curl_spec(link: Seq<char>, dir: Seq<char>) -> InvocationView {
    InvocationView { program: "curl"@, args: seq!["-LO"@, link], working_dir: Some(dir) }
}

/// The command that installs `installer`, which lies in `dir`, without asking
/// the user.
pub open spec fn install_command_spec(
    kind: InstallKind,
    installer: Seq<char>,
    dir: Seq<char>,
) -> InvocationView {
    match kind {
        InstallKind::CompressedInstaller => InvocationView {
            program: "msiexec"@,
            args: seq!["/i"@, installer, "/quiet"@],
            working_dir: Some(dir),
        },
        InstallKind::SelfExecuting => InvocationView {
            program: dir + "/"@ + installer,
            args: seq!["/S"@],
            working_dir: Some(dir),
        },
    }
}

/// The command that runs the payload `file`, which lies in `dir`, with the
/// runtime `binary`.
pub open spec fn launch_command_spec(
    binary: Seq<char>,
    dir: Seq<char>,
    file: Seq<char>,
) -> InvocationView {
    InvocationView {
        program: binary,
        args: seq!["-jar"@, dir + "/"@ + file],
        working_dir: Some(dir),
    }
}

/// The command that downloads `link` into `dir`.
pub fn curl(link: &str, dir: &str) -> (inv: Invocation)
    ensures
        inv@ == curl_spec(link@, dir@),
{
    let mut args: Vec<String> = Vec::new();
    args.push(String::from_str("-LO"));
    args.push(String::from_str(link));
    let inv = Invocation {
        program: String::from_str("curl"),
        args,
        working_dir: Some(String::from_str(dir)),
    };
    assert(inv@.args =~= seq!["-LO"@, link@]);
    inv
}

/// The command that runs the payload `file`, which lies in `dir`, with the
/// runtime `binary`.
pub fn launch_command(binary: &str, dir: &str, file: &str) -> (inv: Invocation)
    ensures
        inv@ == launch_command_spec(binary@, dir@, file@),
{
    let mut args: Vec<String> = Vec::new();
    args.push(String::from_str("-jar"));
    args.push(join3(dir, "/", file));
    let inv = Invocation {
        program: String::from_str(binary),
        args,
        working_dir: Some(String::from_str(dir)),
    };
    assert(inv@.args =~= seq!["-jar"@, dir@ + "/"@ + file@]);
    inv
}

impl DependencyDescriptor {
    /// What holds of every descriptor.
    #[verifier::type_invariant]
    pub open spec fn kind_follows_extension(self) -> bool {
        self@.well_formed()
    }

    /// What status messages call the runtime.
    pub fn name(&self) -> (name: &str)
        ensures
            name@ == self@.name,
    {
        self.name.as_str()
    }

    /// The version that the runtime must report, where one is pinned.
    pub fn required_version(&self) -> (version: Option<&str>)
        ensures
            match version {
                Some(text) => self@.required_version == Some(text@),
                None => self@.required_version is None,
            },
    {
        match &self.required_version {
            Some(text) => Some(text.as_str()),
            None => None,
        }
    }

    /// Where the installer is downloaded from.
    pub fn url(&self) -> (url: &str)
        ensures
            url@ == self@.url,
    {
        self.url.as_str()
    }

    /// The file name under which the installer arrives.
    pub fn installer(&self) -> (installer: &str)
        ensures
            installer@ == self@.installer,
    {
        self.installer.as_str()
    }

    /// How the installer is run: as the extension of its file name says.
    pub fn kind(&self) -> (kind: InstallKind)
        ensures
            kind == self@.kind,
            install_kind_spec(self@.installer) == Some(kind),
    {
        proof {
            use_type_invariant(self);
        }
        self.kind
    }

    /// The program that runs the payload.
    pub fn binary(&self) -> (binary: &str)
        ensures
            binary@ == self@.binary,
    {
        self.binary.as_str()
    }

    /// Describes a runtime, selecting the install mechanism once, by the
    /// extension of `installer`. There is no descriptor for an installer of
    /// an unknown kind.
    pub fn new(
        name: String,
        required_version: Option<String>,
        url: String,
        installer: String,
        binary: String,
    ) -> (made: Option<DependencyDescriptor>)
        ensures
            match install_kind_spec(installer@) {
                Some(kind) => made matches Some(d) && d@ == (DependencyView {
                    name: name@,
                    required_version: optional_text(required_version),
                    url: url@,
                    installer: installer@,
                    kind,
                    binary: binary@,
                }),
                None => made is None,
            },
            made matches Some(d) ==> d@.well_formed(),
    {
        match install_kind(installer.as_str()) {
            Some(kind) => Some(
                DependencyDescriptor { name, required_version, url, installer, kind, binary },
            ),
            None => None,
        }
    }

    /// The command that asks the runtime for its version.
    pub fn probe_command(&self) -> (inv: Invocation)
        ensures
            inv@ == probe_command_spec(self@.binary),
    {
        let mut args: Vec<String> = Vec::new();
        args.push(String::from_str("--version"));
        let inv = Invocation { program: self.binary.clone(), args, working_dir: None };
        assert(inv@.args =~= seq!["--version"@]);
        inv
    }

    /// The command that installs the runtime from its installer in `dir`:
    /// the one that the extension of the installer's file name asks for.
    pub fn install_command(&self, dir: &str) -> (inv: Invocation)
        ensures
            self@.well_formed(),
            inv@ == install_command_spec(self@.kind, self@.installer, dir@),
    {
        proof {
            use_type_invariant(self);
        }
        let mut args: Vec<String> = Vec::new();
        match self.kind {
            InstallKind::CompressedInstaller => {
                args.push(String::from_str("/i"));
                args.push(self.installer.clone());
                args.push(String::from_str("/quiet"));
                let inv = Invocation {
                    program: String::from_str("msiexec"),
                    args,
                    working_dir: Some(String::from_str(dir)),
                };
                assert(inv@.args =~= seq!["/i"@, self.installer@, "/quiet"@]);
                inv
            },
            InstallKind::SelfExecuting => {
                args.push(String::from_str("/S"));
                let inv = Invocation {
                    program: join3(dir, "/", self.installer.as_str()),
                    args,
                    working_dir: Some(String::from_str(dir)),
                };
                assert(inv@.args =~= seq!["/S"@]);
                inv
            },
        }
    }
}

/// The pinned runtime.
pub open spec fn jre_spec() -> DependencyView {
    DependencyView {
        name: "jre"@,
        required_version: Some(JRE_VERSION@),
        url: JRE_LINK@,
        installer: SETUP@,
        kind: InstallKind::CompressedInstaller,
        binary: "java"@,
    }
}

/// The payload, kept in `directory`.
pub open spec fn gaem_spec(directory: Seq<char>) -> PayloadView {
    PayloadView { name: "gaem"@, url: GAEM_LINK@, file: JAR_NAME@, directory }
}

/// The pinned runtime.
pub fn jre() -> (d: DependencyDescriptor)
    ensures
        d@ == jre_spec(),
        d@.well_formed(),
{
    proof {
        reveal_strlit("bellsoft-jre18.0.1.1+2-windows-amd64-full.msi");
        reveal_strlit(".msi");
        assert(SETUP@.subrange(SETUP@.len() - 4, SETUP@.len() as int) =~= ".msi"@);
    }
    DependencyDescriptor {
        name: String::from_str("jre"),
        required_version: Some(String::from_str(JRE_VERSION)),
        url: String::from_str(JRE_LINK),
        installer: String::from_str(SETUP),
        kind: InstallKind::CompressedInstaller,
        binary: String::from_str("java"),
    }
}

/// The payload, kept in `directory`.
pub fn gaem(directory: String) -> (d: PayloadDescriptor)
    ensures
        d@ == gaem_spec(directory@),
{
    PayloadDescriptor {
        name: String::from_str("gaem"),
        url: String::from_str(GAEM_LINK),
        file: String::from_str(JAR_NAME),
        directory,
    }
}

impl PayloadView {
    /// Where the payload lies once it is fetched.
    pub open spec fn location(self) -> Seq<char> {
        self.directory + "/"@ + self.file
    }
}

impl PayloadDescriptor {
    /// Where the payload lies once it is fetched.
    pub fn location(&self) -> (file: String)
        ensures
            file@ == self@.location(),
    {
        join3(self.directory.as_str(), "/", self.file.as_str())
    }
}

} // verus!
