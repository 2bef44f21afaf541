//! The closed sets of choices a user can make, and the release-index key that a
//! chosen platform stands for.

use vstd::prelude::*;
use vstd::string::*;

verus! {

/// Top-level action offered when the program starts.
#[derive(Debug, Clone, Copy, PartialEq, Eq, Structural)]
pub enum Menu {
    Zig,
    Quit,
}

/// Operating system of the machine the toolchain is installed for.
#[derive(Debug, Clone, Copy, PartialEq, Eq, Structural)]
pub enum OperatingSystem {
    Linux,
    MacOS,
}

/// Processor architecture; only asked for when the system is macOS.
#[derive(Debug, Clone, Copy, PartialEq, Eq, Structural)]
pub enum Architecture {
    X86_64,
    Aarch64,
}

/// What the user selected: a system and, for macOS, an architecture.
#[derive(Debug, Clone, Copy, PartialEq, Eq, Structural)]
pub struct InstallTarget {
    pub operating_system: OperatingSystem,
    pub architecture: Architecture,
}

/// Text shown for a menu action.
pub open spec fn menu_label(choice: Menu) -> Seq<char> {
    match choice {
        Menu::Zig => "Dowload latest Zig binary"@,
        Menu::Quit => "Quit"@,
    }
}

/// Text shown for an operating system.
pub open spec fn system_label(system: OperatingSystem) -> Seq<char> {
    match system {
        OperatingSystem::Linux => "Linux"@,
        OperatingSystem::MacOS => "Mac"@,
    }
}

/// Text shown for an architecture.
pub open spec fn architecture_label(architecture: Architecture) -> Seq<char> {
    match architecture {
        Architecture::X86_64 => "x86_64-macos"@,
        Architecture::Aarch64 => "aarch64_macos"@,
    }
}

/// The release-index key of a target. Linux has one build; for macOS the
/// architecture decides.
pub open spec fn target_key(target: InstallTarget) -> Seq<char> {
    match target.operating_system {
        OperatingSystem::Linux => "x86_64-linux"@,
        OperatingSystem::MacOS => match target.architecture {
            Architecture::X86_64 => "x86_64-macos"@,
            Architecture::Aarch64 => "aarch64-macos"@,
        },
    }
}

/// Two targets name the same build exactly when they agree on the system and,
/// for macOS, on the architecture.
pub open spec fn same_build(a: InstallTarget, b: InstallTarget) -> bool {
    a.operating_system == b.operating_system && (a.operating_system == OperatingSystem::MacOS
        ==> a.architecture == b.architecture)
}

impl Menu {
    /// The actions in the order in which they are offered.
    pub fn variants() -> (all: Vec<Menu>)
        ensures
            all@ == seq![Menu::Zig, Menu::Quit],
    {
        vec![Menu::Zig, Menu::Quit]
    }

    pub fn label(&self) -> (text: String)
        ensures
            text@ == menu_label(*self),
    {
        match self {
            Menu::Zig => String::from_str("Dowload latest Zig binary"),
            Menu::Quit => String::from_str("Quit"),
        }
    }
}

impl OperatingSystem {
    /// The systems in the order in which they are offered.
    pub fn variants() -> (all: Vec<OperatingSystem>)
        ensures
            all@ == seq![OperatingSystem::Linux, OperatingSystem::MacOS],
    {
        vec![OperatingSystem::Linux, OperatingSystem::MacOS]
    }

    pub fn label(&self) -> (text: String)
        ensures
            text@ == system_label(*self),
    {
        match self {
            OperatingSystem::Linux => String::from_str("Linux"),
            OperatingSystem::MacOS => String::from_str("Mac"),
        }
    }
}

impl Architecture {
    /// The architectures in the order in which they are offered.
    pub fn variants() -> (all: Vec<Architecture>)
        ensures
            all@ == seq![Architecture::X86_64, Architecture::Aarch64],
    {
        vec![Architecture::X86_64, Architecture::Aarch64]
    }

    pub fn label(&self) -> (text: String)
        ensures
            text@ == architecture_label(*self),
    {
        match self {
            Architecture::X86_64 => String::from_str("x86_64-macos"),
            Architecture::Aarch64 => String::from_str("aarch64_macos"),
        }
    }
}

impl InstallTarget {
    /// The Linux build. The architecture is fixed, so the field carries the
    /// only one there is.
    pub fn linux() -> (target: InstallTarget)
        ensures
            target == (InstallTarget {
                operating_system: OperatingSystem::Linux,
                architecture: Architecture::X86_64,
            }),
    {
        InstallTarget {
            operating_system: OperatingSystem::Linux,
            architecture: Architecture::X86_64,
        }
    }

    /// The macOS build for the given architecture.
    pub fn macos(architecture: Architecture) -> (target: InstallTarget)
        ensures
            target == (InstallTarget { operating_system: OperatingSystem::MacOS, architecture }),
    {
        InstallTarget { operating_system: OperatingSystem::MacOS, architecture }
    }

    /// The key under which the release index lists this target's build.
    pub fn key(&self) -> (key: String)
        ensures
            key@ == target_key(*self),
    {
        match self.operating_system {
            OperatingSystem::Linux => String::from_str("x86_64-linux"),
            OperatingSystem::MacOS => match self.architecture {
                Architecture::X86_64 => String::from_str("x86_64-macos"),
                Architecture::Aarch64 => String::from_str("aarch64-macos"),
            },
        }
    }
}

/// The mapping from targets to keys has no ambiguity: two targets share a key
/// exactly when they name the same build.
pub proof fn lemma_key_identifies_build(a: InstallTarget, b: InstallTarget)
    ensures
        target_key(a) == target_key(b) <==> same_build(a, b),
{
    reveal_strlit("x86_64-linux");
    reveal_strlit("x86_64-macos");
    reveal_strlit("aarch64-macos");
    assert("x86_64-linux"@.len() == 12);
    assert("x86_64-macos"@.len() == 12);
    assert("aarch64-macos"@.len() == 13);
    assert("x86_64-linux"@[7] == 'l');
    assert("x86_64-macos"@[7] == 'm');
}

} // verus!
