//! Where the library of the desktop app is looked for and how it is loaded, said of the calls that
//! decide it.
use vstd::prelude::*;

use crate::error::Error;
use crate::loader::{LoadStep, OpenResult, Opening, Probing, Resolving};
use crate::platform::{
    candidate_library_paths, places_of, platform_for, sdk_os_name, LibraryPath, LibraryPathView,
    Platform,
};
use crate::transport::DesktopTransport;

verus! {

/// The desktop app calls macOS `darwin`, and any other system what Rust calls it.
pub proof fn law_os_names(os: &str, name: String)
    requires
        call_ensures(sdk_os_name, (os,), name),
    ensures
        os@ == "macos"@ ==> name@ == "darwin"@,
        os@ != "macos"@ ==> name@ == os@,
{
}

/// There is a transport for macOS and for Linux, and for no other system.
pub proof fn law_platforms(os: &str, result: Result<Platform, Error>)
    requires
        call_ensures(platform_for, (os,), result),
    ensures
        os@ == "macos"@ ==> result == Ok::<Platform, Error>(Platform::Macos),
        os@ == "linux"@ ==> result == Ok::<Platform, Error>(Platform::Linux),
        os@ != "macos"@ && os@ != "linux"@ ==> (result matches Err(Error::UnsupportedPlatform(message))
            && message@ == "desktop transport proof is currently implemented for macOS and Linux"@),
{
    reveal_strlit("macos");
    reveal_strlit("linux");
    assert("macos"@[0] != "linux"@[0]);
}

/// Two places look the same exactly where they are of one kind and have the same path.
pub proof fn law_places_are_told_apart(path: LibraryPath)
    ensures
        match path {
            LibraryPath::Absolute(text) => path@ == LibraryPathView::Absolute(text@),
            LibraryPath::UnderHome(text) => path@ == LibraryPathView::UnderHome(text@),
        },
{
}

/// On Linux the library is looked for at three places, whether there is a home directory or not.
pub proof fn law_places_on_linux(has_home: bool, paths: Vec<LibraryPath>)
    requires
        call_ensures(candidate_library_paths, (Platform::Linux, has_home), paths),
    ensures
        paths@.len() == 3,
        paths@[0] matches LibraryPath::Absolute(path) && path@
            == "/usr/bin/1password/libop_sdk_ipc_client.so"@,
        paths@[1] matches LibraryPath::Absolute(path) && path@
            == "/opt/1Password/libop_sdk_ipc_client.so"@,
        paths@[2] matches LibraryPath::Absolute(path) && path@
            == "/snap/bin/1password/libop_sdk_ipc_client.so"@,
{
    assert(places_of(paths@).len() == paths@.len());
    assert(places_of(paths@)[0] == paths@[0]@);
    assert(places_of(paths@)[1] == paths@[1]@);
    assert(places_of(paths@)[2] == paths@[2]@);
}

/// On macOS the library is looked for among the applications of the machine, and then, where there
/// is a home directory, at the same path below it.
pub proof fn law_places_on_macos(has_home: bool, paths: Vec<LibraryPath>)
    requires
        call_ensures(candidate_library_paths, (Platform::Macos, has_home), paths),
    ensures
        paths@.len() == if has_home {
            2int
        } else {
            1int
        },
        paths@[0] matches LibraryPath::Absolute(path) && path@
            == "/Applications/1Password.app/Contents/Frameworks/libop_sdk_ipc_client.dylib"@,
        has_home ==> (paths@[1] matches LibraryPath::UnderHome(path) && path@
            == "Applications/1Password.app/Contents/Frameworks/libop_sdk_ipc_client.dylib"@),
{
    assert(places_of(paths@).len() == paths@.len());
    assert(places_of(paths@)[0] == paths@[0]@);
    if has_home {
        assert(places_of(paths@)[1] == paths@[1]@);
    }
}

/// Loading begins with a search that stands at the first of the places of the platform and goes
/// through all of them; where there is no transport for the system, it does not begin.
pub proof fn law_loading_begins(
    os: &str,
    has_home: bool,
    supported: Result<Platform, Error>,
    paths: Vec<LibraryPath>,
    result: Result<Probing, Error>,
)
    requires
        call_ensures(DesktopTransport::load, (os, has_home), result),
        call_ensures(platform_for, (os,), supported),
        supported matches Ok(platform) ==> call_ensures(
            candidate_library_paths,
            (platform, has_home),
            paths,
        ),
    ensures
        match supported {
            Ok(platform) => {
                &&& result matches Ok(probing)
                &&& probing@.platform == platform
                &&& probing@.index == 0
                &&& probing@.places.len() == paths@.len()
                &&& forall|i: int|
                    0 <= i < paths@.len() ==> #[trigger] probing@.places[i] == paths@[i]@
            },
            Err(refusal) => result matches Err(error) && error@ == refusal@,
        },
{
    if supported is Ok {
        assert(places_of(paths@).len() == paths@.len());
    }
}

/// A search looks at the place that it stands at. A file there is the library to open. Otherwise the
/// search goes on with the next place, or ends with an error after the last.
pub proof fn law_searching(probing: Probing, path: &LibraryPath, is_file: bool, step: LoadStep)
    requires
        call_ensures(Probing::path, (&probing,), path),
        call_ensures(Probing::probed, (probing, is_file), step),
    ensures
        path@ == probing@.places[probing@.index],
        is_file ==> {
            &&& step matches LoadStep::Open(opening)
            &&& opening@.place == path@
            &&& opening@.platform == probing@.platform
        },
        !is_file && probing@.index + 1 < probing@.places.len() ==> {
            &&& step matches LoadStep::Probe(next)
            &&& next@.index == probing@.index + 1
            &&& next@.places == probing@.places
            &&& next@.platform == probing@.platform
        },
        !is_file && probing@.index + 1 >= probing@.places.len() ==> {
            &&& step matches LoadStep::Fail { error: Error::Unavailable(message), close: false }
            &&& message@ == "SDK IPC library was not found; install the 1Password desktop app"@
        },
{
}

/// A library that was found is opened where it was found. Once it is open its symbols are looked up;
/// where it cannot be opened, loading has failed and there is nothing to close.
pub proof fn law_opening(opening: Opening, path: &LibraryPath, result: OpenResult, step: LoadStep)
    requires
        call_ensures(Opening::path, (&opening,), path),
        call_ensures(Opening::opened, (opening, result), step),
    ensures
        path@ == opening@.place,
        match result {
            OpenResult::Opened => step matches LoadStep::Resolve(resolving) && resolving@
                == opening@.platform,
            OpenResult::Refused => {
                &&& step matches LoadStep::Fail { error: Error::Unavailable(message), close: false }
                &&& message@ == "failed to open the 1Password SDK IPC library"@
            },
            OpenResult::BadPath(reason) => {
                &&& step matches LoadStep::Fail { error: Error::Unavailable(message), close: false }
                &&& message@ == reason@
            },
        },
{
}

/// The transport is ready exactly where the library has both symbols; else loading has failed and
/// the library is to be closed.
pub proof fn law_resolving(resolving: Resolving, send: bool, free: bool, step: LoadStep)
    requires
        call_ensures(Resolving::resolved, (resolving, send, free), step),
    ensures
        send && free ==> (step matches LoadStep::Ready(transport) && transport.platform
            == resolving@),
        !(send && free) ==> {
            &&& step matches LoadStep::Fail { error: Error::Unavailable(message), close: true }
            &&& message@ == "1Password SDK IPC library is missing required symbols"@
        },
{
}

} // verus!
