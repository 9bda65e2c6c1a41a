//! The machine that the SDK runs on, and where the desktop app keeps its library there.
use vstd::prelude::*;

use crate::error::{Error, ErrorView};

verus! {

/// What the running program knows of its machine: the names of the operating system and of the
/// architecture, as the Rust standard library spells them.
pub struct Host {
    pub os: String,
    pub architecture: String,
}

/// A host by the texts of its names.
pub struct HostView {
    pub os: Seq<char>,
    pub architecture: Seq<char>,
}

impl View for Host {
    type V = HostView;

    open spec fn view(&self) -> HostView {
        HostView { os: self.os@, architecture: self.architecture@ }
    }
}

/// An operating system for which there is a desktop transport.
#[derive(Clone, Copy, Debug, PartialEq, Eq, Structural)]
pub enum Platform {
    Macos,
    Linux,
}

/// A place where the SDK IPC library may lie: an absolute path, or a path below the home directory
/// of the user.
#[derive(Debug)]
pub enum LibraryPath {
    Absolute(String),
    UnderHome(String),
}

/// A place where the library may lie, by the text of its path.
pub enum LibraryPathView {
    Absolute(Seq<char>),
    UnderHome(Seq<char>),
}

impl View for LibraryPath {
    type V = LibraryPathView;

    open spec fn view(&self) -> LibraryPathView {
        match self {
            LibraryPath::Absolute(path) => LibraryPathView::Absolute(path@),
            LibraryPath::UnderHome(path) => LibraryPathView::UnderHome(path@),
        }
    }
}

/// The places of a sequence of them.
pub open spec fn places_of(paths: Seq<LibraryPath>) -> Seq<LibraryPathView> {
    paths.map_values(|path: LibraryPath| path@)
}

/// The platform of the operating system with this name; an error where there is no transport for
/// it.
pub open spec fn platform_named(os: Seq<char>) -> Result<Platform, ErrorView> {
    if os == "macos"@ {
        Ok(Platform::Macos)
    } else if os == "linux"@ {
        Ok(Platform::Linux)
    } else {
        Err(
            ErrorView::UnsupportedPlatform(
                "desktop transport proof is currently implemented for macOS and Linux"@,
            ),
        )
    }
}

/// The name that the desktop app has for the operating system.
pub open spec fn os_name(os: Seq<char>) -> Seq<char> {
    if os == "macos"@ {
        "darwin"@
    } else {
        os
    }
}

/// The places where the library may lie, in the order in which they are tried. The one below the
/// home directory is there only where there is a home directory.
pub open spec fn candidate_places(platform: Platform, has_home: bool) -> Seq<LibraryPathView> {
    match platform {
        Platform::Macos => {
            let application = seq![
                LibraryPathView::Absolute(
                    "/Applications/1Password.app/Contents/Frameworks/libop_sdk_ipc_client.dylib"@,
                ),
            ];
            if has_home {
                application.push(
                    LibraryPathView::UnderHome(
                        "Applications/1Password.app/Contents/Frameworks/libop_sdk_ipc_client.dylib"@,
                    ),
                )
            } else {
                application
            }
        },
        Platform::Linux => seq![
            LibraryPathView::Absolute("/usr/bin/1password/libop_sdk_ipc_client.so"@),
            LibraryPathView::Absolute("/opt/1Password/libop_sdk_ipc_client.so"@),
            LibraryPathView::Absolute("/snap/bin/1password/libop_sdk_ipc_client.so"@),
        ],
    }
}

/// The platform of the operating system with this name, where there is a transport for it.
pub fn platform_for(os: &str) -> (result: Result<Platform, Error>)
    ensures
        match result {
            Ok(platform) => platform_named(os@) == Ok::<Platform, ErrorView>(platform),
            Err(error) => platform_named(os@) == Err::<Platform, ErrorView>(error@),
        },
{
    let name = os.to_owned();
    if name == "macos".to_owned() {
        Ok(Platform::Macos)
    } else if name == "linux".to_owned() {
        Ok(Platform::Linux)
    } else {
        Err(
            Error::UnsupportedPlatform(
                "desktop transport proof is currently implemented for macOS and Linux",
            ),
        )
    }
}

/// The name that the desktop app has for the operating system.
pub fn sdk_os_name(os: &str) -> (name: String)
    ensures
        name@ == os_name(os@),
{
    let name = os.to_owned();
    if name == "macos".to_owned() {
        "darwin".to_owned()
    } else {
        name
    }
}

/// The places where the library may lie, in the order in which they are tried.
pub fn candidate_library_paths(platform: Platform, has_home: bool) -> (paths: Vec<LibraryPath>)
    ensures
        places_of(paths@) == candidate_places(platform, has_home),
{
    let mut paths: Vec<LibraryPath> = Vec::new();
    match platform {
        Platform::Macos => {
            paths.push(
                LibraryPath::Absolute(
                    "/Applications/1Password.app/Contents/Frameworks/libop_sdk_ipc_client.dylib".to_owned(),
                ),
            );
            if has_home {
                paths.push(
                    LibraryPath::UnderHome(
                        "Applications/1Password.app/Contents/Frameworks/libop_sdk_ipc_client.dylib".to_owned(),
                    ),
                );
            }
        },
        Platform::Linux => {
            paths.push(
                LibraryPath::Absolute("/usr/bin/1password/libop_sdk_ipc_client.so".to_owned()),
            );
            paths.push(LibraryPath::Absolute("/opt/1Password/libop_sdk_ipc_client.so".to_owned()));
            paths.push(
                LibraryPath::Absolute("/snap/bin/1password/libop_sdk_ipc_client.so".to_owned()),
            );
        },
    }
    assert(places_of(paths@) =~= candidate_places(platform, has_home));
    paths
}

} // verus!
