//! Where the toolchain is installed, and the lines shown while it is unpacked.

use vstd::prelude::*;
use vstd::string::*;
use crate::text::{ends_with, text_view};

verus! {

/// The directory under the user's home that the toolchain is unpacked into.
pub const INSTALL_SUBPATH: &'static str = "/.zig/";

/// The default install path for a given home directory.
pub open spec fn install_path_under(home: Seq<char>) -> Seq<char> {
    home + INSTALL_SUBPATH@
}

/// The line shown while the archive entry at `entry_path` is unpacked.
pub open spec fn extracting_line(entry_path: Seq<char>) -> Seq<char> {
    "Extracting: "@ + entry_path
}

/// The line that tells where a download was left when it is not unpacked.
pub open spec fn staged_line(staged_path: Seq<char>) -> Seq<char> {
    "You can find tar in "@ + staged_path
}

/// Calls `simple_home_dir::home_dir` and turns the path into text. The answer
/// comes from the environment of the process, so nothing is claimed of it.
#[verifier::external_body]
fn home_directory() -> (home: Option<String>) {
    simple_home_dir::home_dir().map(|path| path.to_string_lossy().into_owned())
}

/// The default install path for the home directory `home`.
pub fn default_install_path(home: &str) -> (path: String)
    ensures
        path@ == install_path_under(home@),
{
    String::from_str(home).concat(INSTALL_SUBPATH)
}

/// What a reported home directory gives: no install path where none is
/// known, else the default one under it.
pub open spec fn install_path_for_home(home: Option<Seq<char>>) -> Option<Seq<char>> {
    match home {
        Some(directory) => Some(install_path_under(directory)),
        None => None,
    }
}

/// The default install path for the home directory that the system reported.
pub fn install_path_for(home: Option<String>) -> (found: Option<String>)
    ensures
        text_view(found) == install_path_for_home(text_view(home)),
{
    match home {
        Some(directory) => Some(default_install_path(directory.as_str())),
        None => None,
    }
}

/// The default install path of the user who runs the process, or `None`
/// where no home directory is known. Whatever home directory the system
/// reports, the path is that directory followed by the install subpath.
pub fn locate_install_path() -> (found: Option<String>)
    ensures
        found matches Some(path) ==> ends_with(path@, INSTALL_SUBPATH@),
{
    let home = home_directory();
    proof {
        if text_view(home) is Some {
            lemma_install_path_ends_with_subpath(text_view(home)->Some_0);
        }
    }
    install_path_for(home)
}

/// Every default install path ends with the install subpath, and what stands
/// before it is the home directory.
pub proof fn lemma_install_path_ends_with_subpath(home: Seq<char>)
    ensures
        ends_with(install_path_under(home), INSTALL_SUBPATH@),
        install_path_under(home).subrange(0, home.len() as int) == home,
{
    let path = install_path_under(home);
    assert(path.subrange(path.len() - INSTALL_SUBPATH@.len(), path.len() as int)
        =~= INSTALL_SUBPATH@);
    assert(path.subrange(0, home.len() as int) =~= home);
}

/// The directory to unpack into, and whether it is there already.
#[derive(Debug, Clone, PartialEq, Eq)]
pub struct InstallDestination {
    pub path: String,
    pub exists: bool,
}

/// An [`InstallDestination`] with its path as a sequence of characters.
pub ghost struct InstallDestinationView {
    pub path: Seq<char>,
    pub exists: bool,
}

impl View for InstallDestination {
    type V = InstallDestinationView;

    open spec fn view(&self) -> InstallDestinationView {
        InstallDestinationView { path: self.path@, exists: self.exists }
    }
}

impl InstallDestination {
    pub fn new(path: &str, exists: bool) -> (destination: InstallDestination)
        ensures
            destination@ == (InstallDestinationView { path: path@, exists }),
    {
        InstallDestination { path: String::from_str(path), exists }
    }

    /// Whether the directory has to be created before the first entry is
    /// unpacked: exactly when it is not there yet.
    pub fn needs_creation(&self) -> (needed: bool)
        ensures
            needed == !self@.exists,
    {
        !self.exists
    }

    /// The destination once its directory has been created.
    pub fn created(self) -> (destination: InstallDestination)
        ensures
            destination@ == (InstallDestinationView { path: self@.path, exists: true }),
    {
        InstallDestination { path: self.path, exists: true }
    }
}

/// The line shown while the archive entry at `entry_path` is unpacked.
pub fn extracting_message(entry_path: &str) -> (line: String)
    ensures
        line@ == extracting_line(entry_path@),
{
    String::from_str("Extracting: ").concat(entry_path)
}

/// The line that tells the user where the download was left.
pub fn staged_notice(staged_path: &str) -> (line: String)
    ensures
        line@ == staged_line(staged_path@),
{
    String::from_str("You can find tar in ").concat(staged_path)
}

} // verus!
