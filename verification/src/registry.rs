//! The default-path registry: a process-wide store of the last-used folder
//! for open dialogs and for save dialogs, plus the owning window handle.
//!
//! The store itself is an explicit cell that the application creates once and
//! guards with its own lock; every accessor here works through a borrow of
//! that cell, so exclusive access is the borrow discipline of the caller.

use vstd::prelude::*;

verus! {

/// The failures a dialog operation can surface to its caller.
#[derive(Debug, Clone, Copy, PartialEq, Eq)]
pub enum DialogError {
    /// The registry was read before any creation.
    RegistryUninitialized,
    /// The platform could not create the underlying dialog object.
    DialogInstantiationFailed,
    /// A title, filter or starting-folder setup call failed.
    DialogConfigurationFailed,
    /// The platform confirmed a selection but the chosen path could not be
    /// retrieved or decoded.
    DialogResultRetrievalFailed,
}

/// The registry: remembered default folders per dialog kind and the window
/// that subsequent dialogs are parented to.
#[derive(Debug)]
pub struct FileDialogManager {
    default_open: String,
    default_save: String,
    window: isize,
}

impl FileDialogManager {
    pub closed spec fn spec_default_open(&self) -> Seq<char> {
        self.default_open@
    }

    pub closed spec fn spec_default_save(&self) -> Seq<char> {
        self.default_save@
    }

    pub closed spec fn spec_window(&self) -> isize {
        self.window
    }

    pub fn get_default_open(&self) -> (r: &str)
        ensures
            r@ == self.spec_default_open(),
    {
        self.default_open.as_str()
    }

    pub fn get_default_save(&self) -> (r: &str)
        ensures
            r@ == self.spec_default_save(),
    {
        self.default_save.as_str()
    }

    pub fn set_default_open(&mut self, value: &str)
        ensures
            final(self).spec_default_open() == value@,
            final(self).spec_default_save() == old(self).spec_default_save(),
            final(self).spec_window() == old(self).spec_window(),
    {
        self.default_open = value.to_owned();
    }

    pub fn set_default_save(&mut self, value: &str)
        ensures
            final(self).spec_default_save() == value@,
            final(self).spec_default_open() == old(self).spec_default_open(),
            final(self).spec_window() == old(self).spec_window(),
    {
        self.default_save = value.to_owned();
    }

    pub fn get_window_handle(&self) -> (r: isize)
        ensures
            r == self.spec_window(),
    {
        self.window
    }
}

/// The one place a registry can live. The application holds a single cell for
/// the whole process, behind its own mutual-exclusion lock.
#[derive(Debug)]
pub struct RegistryCell {
    pub inner: Option<FileDialogManager>,
}

impl RegistryCell {
    /// The registry currently installed; meaningful only when one is.
    pub open spec fn spec_manager(&self) -> FileDialogManager
        recommends
            self.inner is Some,
    {
        self.inner->0
    }

    /// A cell with no registry installed yet.
    pub fn empty() -> (r: Self)
        ensures
            r.inner is None,
    {
        Self { inner: None }
    }
}

/// A freshly installed registry: both remembered defaults start at the given
/// path, and the window handle is the given one.
pub open spec fn installed(m: FileDialogManager, default: Seq<char>, window: isize) -> bool {
    &&& m.spec_default_open() == default
    &&& m.spec_default_save() == default
    &&& m.spec_window() == window
}

/// What `get_or_set` does to the cell: an installed registry is kept
/// untouched, an empty cell gets a fresh one.
pub open spec fn get_or_set_transition(
    pre: RegistryCell,
    post: RegistryCell,
    default: Seq<char>,
    window: isize,
) -> bool {
    &&& post.inner is Some
    &&& (pre.inner is Some ==> post == pre)
    &&& (pre.inner is None ==> installed(post.spec_manager(), default, window))
}

impl FileDialogManager {
    /// Installs a registry into the cell, overwriting any previous one.
    pub fn new(cell: &mut RegistryCell, default: String, window: isize)
        ensures
            final(cell).inner is Some,
            installed(final(cell).spec_manager(), default@, window),
    {
        let default_save = default.clone();
        cell.inner = Some(
            FileDialogManager { default_open: default, default_save, window },
        );
    }

    /// The installed registry, or `RegistryUninitialized` when none is.
    pub fn get(cell: &RegistryCell) -> (r: Result<&FileDialogManager, DialogError>)
        ensures
            r is Ok <==> cell.inner is Some,
            r matches Ok(m) ==> *m == cell.spec_manager(),
            r matches Err(e) ==> e == DialogError::RegistryUninitialized,
    {
        match &cell.inner {
            Some(m) => Ok(m),
            None => Err(DialogError::RegistryUninitialized),
        }
    }

    /// The installed registry, or nothing when none is; never an error.
    pub fn try_get(cell: &RegistryCell) -> (r: Option<&FileDialogManager>)
        ensures
            r is Some <==> cell.inner is Some,
            r matches Some(m) ==> *m == cell.spec_manager(),
    {
        match &cell.inner {
            Some(m) => Some(m),
            None => None,
        }
    }

    /// The idiomatic entry point: keeps an already-installed registry exactly
    /// as it is, and installs a fresh one only into an empty cell.
    pub fn get_or_set(cell: &mut RegistryCell, default: String, window: isize)
        ensures
            get_or_set_transition(*old(cell), *final(cell), default@, window),
    {
        match &cell.inner {
            Some(_) => {},
            None => {
                Self::new(cell, default, window);
            },
        }
    }
}

/// Law: the registry is a first-writer-wins singleton. Once one `get_or_set`
/// has installed a registry, a second `get_or_set` — whatever its arguments —
/// leaves the cell exactly as the first call left it, so both callers see the
/// one instance whose fields the first call fixed.
pub proof fn lemma_get_or_set_idempotent(
    c0: RegistryCell,
    c1: RegistryCell,
    c2: RegistryCell,
    d1: Seq<char>,
    w1: isize,
    d2: Seq<char>,
    w2: isize,
)
    requires
        c0.inner is None,
        get_or_set_transition(c0, c1, d1, w1),
        get_or_set_transition(c1, c2, d2, w2),
    ensures
        c2 == c1,
        installed(c1.spec_manager(), d1, w1),
        installed(c2.spec_manager(), d1, w1),
{
}

/// Law: the two remembered defaults are independent. Setting the open default
/// never moves the save default, and the other way round; the window handle
/// moves under neither.
pub proof fn lemma_open_save_independent(
    m0: FileDialogManager,
    m1: FileDialogManager,
    m2: FileDialogManager,
    open_path: Seq<char>,
    save_path: Seq<char>,
)
    requires
        m1.spec_default_open() == open_path,
        m1.spec_default_save() == m0.spec_default_save(),
        m1.spec_window() == m0.spec_window(),
        m2.spec_default_save() == save_path,
        m2.spec_default_open() == m1.spec_default_open(),
        m2.spec_window() == m1.spec_window(),
    ensures
        m2.spec_default_open() == open_path,
        m2.spec_default_save() == save_path,
        m2.spec_window() == m0.spec_window(),
{
}

} // verus!
