//! Dialog sessions. A session's verified part is a small state machine: it
//! builds the configuration a dialog must be shown with, and it applies the
//! outcome of the show call to the registry and to the caller's result. The
//! show call itself — the platform's modal dialog — is the application's side
//! of the boundary and hands its outcome back as a `DialogEvent`.

use vstd::prelude::*;
use crate::codec::wide_of;
use crate::codec::FileDialogUtils;
use crate::filter::encode_filters;
use crate::filter::encodes_filters;
use crate::filter::FileTypeFilter;
use crate::filter::FileTypeFilterWin32;
use crate::registry::DialogError;
use crate::registry::FileDialogManager;

verus! {

/// What the platform's show call came back with: a confirmed selection with
/// its path, a user dismissal, or one of the two failure points of the
/// sequence (configuration before the show, retrieval after a confirmation).
#[derive(Debug, PartialEq, Eq)]
pub enum DialogEvent {
    Confirmed(String),
    Cancelled,
    ConfigurationFailed,
    ResultRetrievalFailed,
}

/// Everything a show call needs, in plain values: the optional platform
/// filters, the null-terminated wide title, the null-terminated wide starting
/// folder, whether selection is restricted to folders, and the parent window.
#[derive(Debug)]
pub struct DialogConfig {
    pub filters: Option<Vec<FileTypeFilterWin32>>,
    pub title: Vec<u16>,
    pub start_folder: Vec<u16>,
    pub folder_only: bool,
    pub window: isize,
}

/// The default window title of a dialog kind.
pub open spec fn spec_default_title(save: bool) -> Seq<char> {
    if save {
        "Save a file"@
    } else {
        "Open a file"@
    }
}

/// The title a session resolves: the caller's when one was supplied, else the
/// kind's default.
pub open spec fn spec_resolved_title(title: Option<&str>, save: bool) -> Seq<char> {
    match title {
        Some(t) => t@,
        None => spec_default_title(save),
    }
}

/// The starting folder a dialog of the given kind is configured with: the
/// registry's remembered default for that kind, as null-terminated wide text.
pub open spec fn spec_start_folder(save: bool, m: FileDialogManager) -> Seq<u16> {
    wide_of(if save { m.spec_default_save() } else { m.spec_default_open() }).push(0u16)
}

/// What applying a show outcome does. A confirmed selection updates the
/// registry default of the session's kind to the chosen path — and nothing
/// else — and hands the path back; a dismissal is a success carrying nothing;
/// each failure is its error; in every case but confirmation the registry is
/// left exactly as it was.
pub open spec fn finish_transition(
    save: bool,
    m0: FileDialogManager,
    m1: FileDialogManager,
    event: DialogEvent,
    r: Result<Option<String>, DialogError>,
) -> bool {
    match event {
        DialogEvent::Confirmed(p) => {
            &&& r matches Ok(o) && o matches Some(q) && q@ == p@
            &&& if save {
                m1.spec_default_save() == p@ && m1.spec_default_open() == m0.spec_default_open()
            } else {
                m1.spec_default_open() == p@ && m1.spec_default_save() == m0.spec_default_save()
            }
            &&& m1.spec_window() == m0.spec_window()
        },
        DialogEvent::Cancelled => {
            &&& r == Ok::<Option<String>, DialogError>(None)
            &&& m1 == m0
        },
        DialogEvent::ConfigurationFailed => {
            &&& r == Err::<Option<String>, DialogError>(DialogError::DialogConfigurationFailed)
            &&& m1 == m0
        },
        DialogEvent::ResultRetrievalFailed => {
            &&& r == Err::<Option<String>, DialogError>(DialogError::DialogResultRetrievalFailed)
            &&& m1 == m0
        },
    }
}

/// The capability shared by the two dialog kinds: a default title, title
/// resolution, and access to the registry field of the session's own kind.
pub trait FileDialog {
    /// Which registry default this kind reads and writes: the save one or the
    /// open one.
    spec fn is_save(&self) -> bool;

    fn get_default_title(&self) -> (r: &'static str)
        ensures
            r@ == spec_default_title(self.is_save()),
    ;

    fn get_title(&self, title: Option<&str>) -> (r: Vec<u16>)
        ensures
            r@ == wide_of(spec_resolved_title(title, self.is_save())).push(0u16),
    ;

    fn get_default_path<'a>(&self, manager: &'a FileDialogManager) -> (r: &'a str)
        ensures
            r@ == if self.is_save() {
                manager.spec_default_save()
            } else {
                manager.spec_default_open()
            },
    ;

    fn set_default_path(&self, manager: &mut FileDialogManager, file: &str)
        ensures
            if self.is_save() {
                final(manager).spec_default_save() == file@ && final(manager).spec_default_open()
                    == old(manager).spec_default_open()
            } else {
                final(manager).spec_default_open() == file@ && final(manager).spec_default_save()
                    == old(manager).spec_default_save()
            },
            final(manager).spec_window() == old(manager).spec_window(),
    ;

    fn get_window_handle(&self, manager: &FileDialogManager) -> (r: isize)
        ensures
            r == manager.spec_window(),
    ;

    /// Applies a show outcome: updates the registry default of this kind on a
    /// confirmed selection, and translates the outcome into the caller's
    /// result — a dismissal is `Ok(None)`, never an error.
    fn finish(&self, manager: &mut FileDialogManager, event: DialogEvent) -> (r: Result<
        Option<String>,
        DialogError,
    >)
        ensures
            finish_transition(self.is_save(), *old(manager), *final(manager), event, r),
    ;
}

/// A session for the open-file (and pick-folder) dialog kind.
pub struct OpenDialog;

/// A session for the save-file dialog kind.
pub struct SaveDialog;

impl FileDialog for OpenDialog {
    open spec fn is_save(&self) -> bool {
        false
    }

    fn get_default_title(&self) -> (r: &'static str) {
        "Open a file"
    }

    fn get_title(&self, title: Option<&str>) -> (r: Vec<u16>) {
        match title {
            Some(v) => FileDialogUtils::to_win32_wide(v),
            None => FileDialogUtils::to_win32_wide(self.get_default_title()),
        }
    }

    fn get_default_path<'a>(&self, manager: &'a FileDialogManager) -> (r: &'a str) {
        manager.get_default_open()
    }

    fn set_default_path(&self, manager: &mut FileDialogManager, file: &str) {
        manager.set_default_open(file);
    }

    fn get_window_handle(&self, manager: &FileDialogManager) -> (r: isize) {
        manager.get_window_handle()
    }

    fn finish(&self, manager: &mut FileDialogManager, event: DialogEvent) -> (r: Result<
        Option<String>,
        DialogError,
    >) {
        match event {
            DialogEvent::Confirmed(p) => {
                self.set_default_path(manager, p.as_str());
                Ok(Some(p))
            },
            DialogEvent::Cancelled => Ok(None),
            DialogEvent::ConfigurationFailed => Err(DialogError::DialogConfigurationFailed),
            DialogEvent::ResultRetrievalFailed => Err(DialogError::DialogResultRetrievalFailed),
        }
    }
}

impl FileDialog for SaveDialog {
    open spec fn is_save(&self) -> bool {
        true
    }

    fn get_default_title(&self) -> (r: &'static str) {
        "Save a file"
    }

    fn get_title(&self, title: Option<&str>) -> (r: Vec<u16>) {
        match title {
            Some(v) => FileDialogUtils::to_win32_wide(v),
            None => FileDialogUtils::to_win32_wide(self.get_default_title()),
        }
    }

    fn get_default_path<'a>(&self, manager: &'a FileDialogManager) -> (r: &'a str) {
        manager.get_default_save()
    }

    fn set_default_path(&self, manager: &mut FileDialogManager, file: &str) {
        manager.set_default_save(file);
    }

    fn get_window_handle(&self, manager: &FileDialogManager) -> (r: isize) {
        manager.get_window_handle()
    }

    fn finish(&self, manager: &mut FileDialogManager, event: DialogEvent) -> (r: Result<
        Option<String>,
        DialogError,
    >) {
        match event {
            DialogEvent::Confirmed(p) => {
                self.set_default_path(manager, p.as_str());
                Ok(Some(p))
            },
            DialogEvent::Cancelled => Ok(None),
            DialogEvent::ConfigurationFailed => Err(DialogError::DialogConfigurationFailed),
            DialogEvent::ResultRetrievalFailed => Err(DialogError::DialogResultRetrievalFailed),
        }
    }
}

/// The configuration a session of kind `save` builds from the registry and
/// the caller's arguments, before the dialog is shown.
pub open spec fn config_built(
    c: DialogConfig,
    save: bool,
    folder_only: bool,
    m: FileDialogManager,
    title: Option<&str>,
) -> bool {
    &&& c.folder_only == folder_only
    &&& c.window == m.spec_window()
    &&& c.title@ == wide_of(spec_resolved_title(title, save)).push(0u16)
    &&& c.start_folder@ == spec_start_folder(save, m)
}

impl OpenDialog {
    /// A session against a dialog object the platform did or did not manage
    /// to create: the instantiation failure is the one error `new` can carry.
    pub fn new(os_dialog_created: bool) -> (r: Result<Self, DialogError>)
        ensures
            r is Ok <==> os_dialog_created,
            r matches Err(e) ==> e == DialogError::DialogInstantiationFailed,
    {
        if os_dialog_created {
            Ok(OpenDialog)
        } else {
            Err(DialogError::DialogInstantiationFailed)
        }
    }

    /// Builds the show configuration for an open-file call: every supplied
    /// filter encoded in order (none supplied means no restriction), the
    /// resolved title, the remembered open default as starting folder, and
    /// the registry's window — with selection not restricted to folders.
    pub fn open(
        &self,
        manager: &FileDialogManager,
        filter: Option<&Vec<FileTypeFilter>>,
        title: Option<&str>,
    ) -> (c: DialogConfig)
        ensures
            config_built(c, false, false, *manager, title),
            filter is None <==> c.filters is None,
            filter matches Some(fs) ==> c.filters matches Some(ws) && encodes_filters(fs@, ws@),
    {
        let filters = match filter {
            Some(fs) => Some(encode_filters(fs)),
            None => None,
        };
        DialogConfig {
            filters,
            title: self.get_title(title),
            start_folder: FileDialogUtils::to_win32_wide(self.get_default_path(manager)),
            folder_only: false,
            window: self.get_window_handle(manager),
        }
    }

    /// Builds the show configuration for a pick-folder call: as `open`, but
    /// selection is restricted to folders and no filters are ever installed.
    pub fn open_folder(&self, manager: &FileDialogManager, title: Option<&str>) -> (c: DialogConfig)
        ensures
            config_built(c, false, true, *manager, title),
            c.filters is None,
    {
        DialogConfig {
            filters: None,
            title: self.get_title(title),
            start_folder: FileDialogUtils::to_win32_wide(self.get_default_path(manager)),
            folder_only: true,
            window: self.get_window_handle(manager),
        }
    }
}

impl SaveDialog {
    /// A session against a dialog object the platform did or did not manage
    /// to create: the instantiation failure is the one error `new` can carry.
    pub fn new(os_dialog_created: bool) -> (r: Result<Self, DialogError>)
        ensures
            r is Ok <==> os_dialog_created,
            r matches Err(e) ==> e == DialogError::DialogInstantiationFailed,
    {
        if os_dialog_created {
            Ok(SaveDialog)
        } else {
            Err(DialogError::DialogInstantiationFailed)
        }
    }

    /// Builds the show configuration for a save-file call: every supplied
    /// filter encoded in order (none supplied means no restriction), the
    /// resolved title, the remembered save default as starting folder, and
    /// the registry's window.
    pub fn save(
        &self,
        manager: &FileDialogManager,
        filter: Option<&Vec<FileTypeFilter>>,
        title: Option<&str>,
    ) -> (c: DialogConfig)
        ensures
            config_built(c, true, false, *manager, title),
            filter is None <==> c.filters is None,
            filter matches Some(fs) ==> c.filters matches Some(ws) && encodes_filters(fs@, ws@),
    {
        let filters = match filter {
            Some(fs) => Some(encode_filters(fs)),
            None => None,
        };
        DialogConfig {
            filters,
            title: self.get_title(title),
            start_folder: FileDialogUtils::to_win32_wide(self.get_default_path(manager)),
            folder_only: false,
            window: self.get_window_handle(manager),
        }
    }
}

/// Law: the default round-trips. After a confirmed selection of `p`, the next
/// dialog of the same kind starts from `p`; after any other outcome — a
/// dismissal or a failure — it starts from the very folder it would have
/// started from before.
pub proof fn lemma_round_trip_default_update(
    save: bool,
    m0: FileDialogManager,
    m1: FileDialogManager,
    event: DialogEvent,
    r: Result<Option<String>, DialogError>,
)
    requires
        finish_transition(save, m0, m1, event, r),
    ensures
        event matches DialogEvent::Confirmed(p) ==> spec_start_folder(save, m1) == wide_of(
            p@,
        ).push(0u16),
        !(event matches DialogEvent::Confirmed(_)) ==> spec_start_folder(save, m1)
            == spec_start_folder(save, m0),
{
}

/// Law: a dismissal and a failure never meet. Applying a `Cancelled` outcome
/// yields the success `Ok(None)`; applying a failed configuration yields
/// `Err(DialogConfigurationFailed)` and never a success.
pub proof fn lemma_cancellation_is_not_an_error(
    save: bool,
    m0: FileDialogManager,
    m1: FileDialogManager,
    event: DialogEvent,
    r: Result<Option<String>, DialogError>,
)
    requires
        finish_transition(save, m0, m1, event, r),
    ensures
        event == DialogEvent::Cancelled ==> r == Ok::<Option<String>, DialogError>(None),
        event == DialogEvent::ConfigurationFailed ==> r == Err::<Option<String>, DialogError>(
            DialogError::DialogConfigurationFailed,
        ) && !(r is Ok),
{
}

} // verus!
