//! Loading the SDK IPC library, step by step.
//!
//! The steps are decided here and carried out by the program around this library: it looks whether
//! a file is there, opens it, looks its symbols up, and hands back what it found.
use vstd::prelude::*;

use crate::error::{Error, ErrorView};
use crate::platform::{
    candidate_library_paths, candidate_places, places_of, platform_for, platform_named,
    LibraryPath, LibraryPathView, Platform,
};
use crate::transport::DesktopTransport;

verus! {

/// The search for the library: the next thing to do is to see whether a file lies at `path()`.
pub struct Probing {
    platform: Platform,
    paths: Vec<LibraryPath>,
    index: usize,
}

/// A library file was found: the next thing to do is to open the one at `path()`.
pub struct Opening {
    platform: Platform,
    path: LibraryPath,
}

/// The library is open: the next thing to do is to look its two symbols up.
pub struct Resolving {
    platform: Platform,
}

/// How opening the library went.
pub enum OpenResult {
    /// It is open.
    Opened,
    /// It could not be opened.
    Refused,
    /// Its path cannot be handed to the system, for the reason given.
    BadPath(String),
}

/// The next step of loading the library.
pub enum LoadStep {
    Probe(Probing),
    Open(Opening),
    Resolve(Resolving),
    Ready(DesktopTransport),
    /// Loading has failed. The library is open and must be closed where `close` says so.
    Fail { error: Error, close: bool },
}

/// A search by the places that it goes through.
pub struct ProbingView {
    pub platform: Platform,
    pub places: Seq<LibraryPathView>,
    pub index: int,
}

/// A library file that was found, by its place.
pub struct OpeningView {
    pub platform: Platform,
    pub place: LibraryPathView,
}

/// How opening the library went.
pub enum OpenResultView {
    Opened,
    Refused,
    BadPath(Seq<char>),
}

/// The next step of loading the library.
pub enum LoadStepView {
    Probe(ProbingView),
    Open(OpeningView),
    Resolve(Platform),
    Ready(Platform),
    Fail { error: ErrorView, close: bool },
}

impl View for Probing {
    type V = ProbingView;

    closed spec fn view(&self) -> ProbingView {
        ProbingView {
            platform: self.platform,
            places: places_of(self.paths@),
            index: self.index as int,
        }
    }
}

impl View for Opening {
    type V = OpeningView;

    closed spec fn view(&self) -> OpeningView {
        OpeningView { platform: self.platform, place: self.path@ }
    }
}

impl View for Resolving {
    type V = Platform;

    closed spec fn view(&self) -> Platform {
        self.platform
    }
}

impl View for OpenResult {
    type V = OpenResultView;

    open spec fn view(&self) -> OpenResultView {
        match self {
            OpenResult::Opened => OpenResultView::Opened,
            OpenResult::Refused => OpenResultView::Refused,
            OpenResult::BadPath(reason) => OpenResultView::BadPath(reason@),
        }
    }
}

impl View for LoadStep {
    type V = LoadStepView;

    open spec fn view(&self) -> LoadStepView {
        match self {
            LoadStep::Probe(probing) => LoadStepView::Probe(probing@),
            LoadStep::Open(opening) => LoadStepView::Open(opening@),
            LoadStep::Resolve(resolving) => LoadStepView::Resolve(resolving@),
            LoadStep::Ready(transport) => LoadStepView::Ready(transport.platform),
            LoadStep::Fail { error, close } => LoadStepView::Fail { error: error@, close: *close },
        }
    }
}

/// The failure of a search that found no file.
pub open spec fn not_found() -> LoadStepView {
    LoadStepView::Fail {
        error: ErrorView::Unavailable(
            "SDK IPC library was not found; install the 1Password desktop app"@,
        ),
        close: false,
    }
}

impl ProbingView {
    /// Whether the search stands at one of its places.
    pub open spec fn is_at_place(self) -> bool {
        0 <= self.index < self.places.len()
    }

    /// The step after it is known whether a file lies at the current place.
    pub open spec fn probed(self, is_file: bool) -> LoadStepView {
        if is_file {
            LoadStepView::Open(
                OpeningView { platform: self.platform, place: self.places[self.index] },
            )
        } else if self.index + 1 < self.places.len() {
            LoadStepView::Probe(ProbingView { index: self.index + 1, ..self })
        } else {
            not_found()
        }
    }

    /// The step after the rest of the search, where `files` says of each place whether a file lies
    /// there.
    pub open spec fn searched(self, files: Seq<bool>) -> LoadStepView
        decreases self.places.len() - self.index,
    {
        match self.probed(files[self.index]) {
            LoadStepView::Probe(next) => next.searched(files),
            step => step,
        }
    }
}

impl OpeningView {
    /// The step after it is known how opening the library went.
    pub open spec fn opened(self, result: OpenResultView) -> LoadStepView {
        match result {
            OpenResultView::Opened => LoadStepView::Resolve(self.platform),
            OpenResultView::Refused => LoadStepView::Fail {
                error: ErrorView::Unavailable("failed to open the 1Password SDK IPC library"@),
                close: false,
            },
            OpenResultView::BadPath(reason) => LoadStepView::Fail {
                error: ErrorView::Unavailable(reason),
                close: false,
            },
        }
    }
}

/// The step after it is known which of the two symbols the library has.
pub open spec fn symbols_found(platform: Platform, send: bool, free: bool) -> LoadStepView {
    if send && free {
        LoadStepView::Ready(platform)
    } else {
        LoadStepView::Fail {
            error: ErrorView::Unavailable("1Password SDK IPC library is missing required symbols"@),
            close: true,
        }
    }
}

impl DesktopTransport {
    /// Begins to load the SDK IPC library of the operating system with this name.
    pub fn load(os: &str, has_home: bool) -> (result: Result<Probing, Error>)
        ensures
            match (result, platform_named(os@)) {
                (Ok(probing), Ok(platform)) => {
                    &&& probing@.platform == platform
                    &&& probing@.places == candidate_places(platform, has_home)
                    &&& probing@.index == 0
                    &&& probing@.is_at_place()
                },
                (Err(error), Err(unsupported)) => error@ == unsupported,
                _ => false,
            },
    {
        let platform = platform_for(os)?;
        let paths = candidate_library_paths(platform, has_home);
        assert(places_of(paths@).len() > 0);
        Ok(Probing { platform, paths, index: 0 })
    }
}

impl Probing {
    #[verifier::type_invariant]
    spec fn well_formed(self) -> bool {
        self.index < self.paths@.len()
    }

    /// The place to look at.
    pub fn path(&self) -> (path: &LibraryPath)
        ensures
            self@.is_at_place(),
            path@ == self@.places[self@.index],
    {
        proof {
            use_type_invariant(self);
        }
        &self.paths[self.index]
    }

    /// Goes on, now that it is known whether a file lies at the place.
    pub fn probed(self, is_file: bool) -> (step: LoadStep)
        ensures
            step@ == self@.probed(is_file),
    {
        proof {
            use_type_invariant(&self);
        }
        let Probing { platform, mut paths, index } = self;
        if is_file {
            let path = paths.swap_remove(index);
            return LoadStep::Open(Opening { platform, path });
        }
        if index < paths.len() - 1 {
            LoadStep::Probe(Probing { platform, paths, index: index + 1 })
        } else {
            LoadStep::Fail {
                error: Error::Unavailable(
                    "SDK IPC library was not found; install the 1Password desktop app".to_owned(),
                ),
                close: false,
            }
        }
    }
}

impl Opening {
    /// The library file to open.
    pub fn path(&self) -> (path: &LibraryPath)
        ensures
            path@ == self@.place,
    {
        &self.path
    }

    /// Goes on, now that it is known how opening the library went.
    pub fn opened(self, result: OpenResult) -> (step: LoadStep)
        ensures
            step@ == self@.opened(result@),
    {
        match result {
            OpenResult::Opened => LoadStep::Resolve(Resolving { platform: self.platform }),
            OpenResult::Refused => LoadStep::Fail {
                error: Error::Unavailable(
                    "failed to open the 1Password SDK IPC library".to_owned(),
                ),
                close: false,
            },
            OpenResult::BadPath(reason) => LoadStep::Fail {
                error: Error::Unavailable(reason),
                close: false,
            },
        }
    }
}

impl Resolving {
    /// Goes on, now that it is known which of the two symbols the library has.
    pub fn resolved(self, send: bool, free: bool) -> (step: LoadStep)
        ensures
            step@ == symbols_found(self@, send, free),
    {
        if send && free {
            LoadStep::Ready(DesktopTransport { platform: self.platform })
        } else {
            LoadStep::Fail {
                error: Error::Unavailable(
                    "1Password SDK IPC library is missing required symbols".to_owned(),
                ),
                close: true,
            }
        }
    }
}

/// The first place with a file wins: a search leads to opening the earliest place from its current
/// one on at which a file lies, and fails where there is none.
pub proof fn law_first_file_wins(probing: ProbingView, files: Seq<bool>)
    requires
        probing.is_at_place(),
        files.len() == probing.places.len(),
    ensures
        forall|i: int|
            probing.index <= i < files.len() && #[trigger] files[i] && (forall|j: int|
                probing.index <= j < i ==> !#[trigger] files[j]) ==> probing.searched(files)
                == LoadStepView::Open(
                OpeningView { platform: probing.platform, place: probing.places[i] },
            ),
        (forall|i: int| probing.index <= i < files.len() ==> !#[trigger] files[i])
            ==> probing.searched(files) == not_found(),
    decreases probing.places.len() - probing.index,
{
    if !files[probing.index] && probing.index + 1 < probing.places.len() {
        let next = ProbingView { index: probing.index + 1, ..probing };
        law_first_file_wins(next, files);
        assert(probing.searched(files) == next.searched(files));
    }
}

/// A library that was opened and is not going to be used is closed, and nothing else is: a failure
/// asks for it exactly where it comes after the library was opened.
pub proof fn law_failures_close_what_is_open(
    probing: ProbingView,
    is_file: bool,
    opening: OpeningView,
    result: OpenResultView,
    platform: Platform,
    send: bool,
    free: bool,
)
    ensures
        probing.probed(is_file) matches LoadStepView::Fail { error, close } ==> !close,
        opening.opened(result) matches LoadStepView::Fail { error, close } ==> !close,
        symbols_found(platform, send, free) matches LoadStepView::Fail { error, close } ==> close,
{
}

} // verus!
