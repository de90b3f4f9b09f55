//! The multi-document archiving engine: a bounded, indexed registry of open
//! files, driven by one ordered stream of actions.
//!
//! The consumer that owns the action queue calls [`MultiArchiver::step`] for
//! each dequeued action.  The step mutates the registry and returns the
//! effects the caller must carry out, in order: notifications to fire,
//! actions to put back on the queue, and background reads or writes to
//! start.  Workers report back by enqueueing the result action built with
//! [`open_read_outcome`] or [`save_write_outcome`].

use vstd::pervasive::VecAdditionalExecFns;
use vstd::prelude::*;

use crate::text::is_untitled_name;
use crate::text::join_path;
use crate::text::make_untitled_name;
use crate::text::parse_untitled;
use crate::text::path_join;
use crate::text::starts_with;
use crate::text::str_eq;
use crate::text::str_starts_with;
use crate::text::untitled_marker;
use crate::text::untitled_name;
use crate::text::untitled_num;

verus! {

/// Ceiling on how many documents the registry may hold at once.
pub const MAX_OPEN_FILES: usize = 16;

/// Ceiling on the length of a document's decoded text.  Oversized
/// files are rejected after the read, before they enter the registry.
pub const MAX_FILE_SIZE: usize = 5_000_000;

/// One open document.
///
/// `index` records the entry's position in the registry and must equal its
/// array offset at all times.  `dt` is the instant of creation or open,
/// in seconds; the engine never reads it back.
pub struct OpenedFile {
    pub name: String,
    pub path: Option<String>,
    pub content: Option<String>,
    pub saved: bool,
    pub dt: Option<u64>,
    pub index: usize,
}

impl Clone for OpenedFile {
    /// A clone carries exactly the fields of the original.
    fn clone(&self) -> (r: Self)
        ensures
            r == *self,
    {
        OpenedFile {
            name: self.name.clone(),
            path: match &self.path {
                Some(p) => Some(p.clone()),
                None => None,
            },
            content: match &self.content {
                Some(c) => Some(c.clone()),
                None => None,
            },
            saved: self.saved,
            dt: self.dt,
            index: self.index,
        }
    }
}

/// The snapshot handed to the collaborator for persistence at shutdown or
/// close-request time.  `recent` accumulates every file ever added, opened
/// or first saved, deduplicated by path; `files` mirrors the registry.
pub struct FinalState {
    pub recent: Vec<OpenedFile>,
    pub files: Vec<OpenedFile>,
}

impl Clone for FinalState {
    fn clone(&self) -> (r: Self)
        ensures
            r.recent@ == self.recent@,
            r.files@ == self.files@,
    {
        FinalState { recent: clone_files(&self.recent), files: clone_files(&self.files) }
    }
}

/// A request or result flowing through the engine's action queue.
/// Requests come from the caller; results are produced by finished workers
/// or by the engine re-posting to itself.
pub enum MultiArchiverAction {
    OpenRequest(String),
    OpenRelativeRequest(String),
    SetPrefix(Option<String>),
    OpenSuccess(OpenedFile),
    /// An addition to the recent file list (not necessarily opened).
    Add(OpenedFile),
    OpenError(String),
    /// File position and whether the close skips the confirmation.
    CloseRequest(usize, bool),
    SaveRequest(Option<String>),
    SaveSuccess(usize, String),
    SaveError(String),
    NewRequest,
    WindowCloseRequest,
    SetSaved(usize, bool),
    Select(Option<usize>),
}

/// An outbound notification, one per relevant transition.
pub enum MultiEvent {
    New(OpenedFile),
    Reopen(OpenedFile),
    Added(OpenedFile),
    Opened(OpenedFile),
    Selected(Option<OpenedFile>),
    /// The removed entry and the number of files that remain.
    Closed(OpenedFile, usize),
    CloseConfirm(OpenedFile),
    FileChanged(OpenedFile),
    FilePersisted(OpenedFile),
    Error(String),
    WindowClose,
    SaveUnknownPath(String),
    NameChanged(usize, String),
}

/// What the caller must carry out after a step, in order.
pub enum MultiEffect {
    /// Fire the notification synchronously.
    Notify(MultiEvent),
    /// Put the action at the back of the queue.
    Enqueue(MultiArchiverAction),
    /// Join any open worker still in flight, then spawn one that reads
    /// `path` and enqueues the action built by [`open_read_outcome`] with
    /// this `index`.
    SpawnOpen { path: String, index: usize },
    /// Pull the current buffer content for document `index`, join any save
    /// worker still in flight, then spawn one that writes the content to
    /// `path` and enqueues the action built by [`save_write_outcome`].
    SpawnSave { path: String, index: usize },
}

// ---------------------------------------------------------------------------
// Error messages
// ---------------------------------------------------------------------------

pub open spec fn msg_max_files() -> Seq<char> {
    "Maximum number of files opened"@
}

pub open spec fn msg_file_limit() -> Seq<char> {
    "File list limit reached"@
}

pub open spec fn msg_no_prefix() -> Seq<char> {
    "No path prefix set"@
}

pub open spec fn msg_open_outside_prefix(prefix: Seq<char>) -> Seq<char> {
    "Cannot open file outside prefix "@ + prefix
}

pub open spec fn msg_save_outside_prefix(prefix: Seq<char>) -> Seq<char> {
    "Cannot save file outside prefix "@ + prefix
}

pub open spec fn msg_too_large() -> Seq<char> {
    "File extrapolates maximum size"@
}

pub open spec fn msg_non_absolute() -> Seq<char> {
    "Using non-absolute path"@
}

pub open spec fn msg_save_to_dir() -> Seq<char> {
    "Tried to save file to directory path"@
}

/// `f` is registered under `path`.
pub open spec fn path_matches(f: OpenedFile, path: Seq<char>) -> bool {
    f.path matches Some(p) && p@ == path
}

/// Some entry of `files` is registered under `path`.
pub open spec fn has_path(files: Seq<OpenedFile>, path: Seq<char>) -> bool {
    exists|j: int| 0 <= j < files.len() && path_matches(#[trigger] files[j], path)
}

/// Every entry records its own position: the registry index invariant.
pub open spec fn files_indexed(files: Seq<OpenedFile>) -> bool {
    forall|i: int| 0 <= i < files.len() ==> (#[trigger] files[i]).index == i
}

/// The registry after removing position `ix`: later entries move down one
/// position and their recorded index moves with them.
pub open spec fn remove_reindexed(files: Seq<OpenedFile>, ix: int) -> Seq<OpenedFile> {
    files.take(ix) + files.skip(ix + 1).map_values(
        |f: OpenedFile| OpenedFile { index: (f.index - 1) as usize, ..f },
    )
}

/// The multi-document engine state.  All mutation goes through
/// [`MultiArchiver::step`].
pub struct MultiArchiver {
    /// The document registry: the files currently open.
    pub files: Vec<OpenedFile>,
    /// Every file ever added, opened or first saved, deduplicated by path.
    pub recent: Vec<OpenedFile>,
    /// The currently selected registry position, if any.
    pub selected: Option<usize>,
    /// A window close is pending on a close confirmation.
    pub win_close_request: bool,
    /// The entry removed by the most recent close, kept to recognize one
    /// trailing stale `SetSaved` for it.
    pub last_closed: Option<OpenedFile>,
    /// The sandbox prefix: when set, open and save targets must start with
    /// it.
    pub prefix: Option<String>,
    /// The extension given to untitled documents.
    pub extension: String,
    /// The registry ceiling.
    pub max_files: usize,
    /// The snapshot refreshed on close and window-close requests.
    pub final_state: FinalState,
}

impl MultiArchiver {
    /// The registry invariant: entries record their own position and the list never
    /// exceeds the ceiling.
    pub open spec fn wf(self) -> bool {
        &&& files_indexed(self.files@)
        &&& self.files@.len() <= self.max_files
    }

    /// A fresh engine with an empty registry.
    pub fn new(extension: String) -> (r: Self)
        ensures
            r.wf(),
            r.files@.len() == 0,
            r.recent@.len() == 0,
            r.selected is None,
            r.win_close_request == false,
            r.last_closed is None,
            r.prefix is None,
            r.extension == extension,
            r.max_files == MAX_OPEN_FILES,
            r.final_state.recent@.len() == 0,
            r.final_state.files@.len() == 0,
    {
        MultiArchiver {
            files: Vec::new(),
            recent: Vec::new(),
            selected: None,
            win_close_request: false,
            last_closed: None,
            prefix: None,
            extension,
            max_files: MAX_OPEN_FILES,
            final_state: FinalState { recent: Vec::new(), files: Vec::new() },
        }
    }

    /// A copy of the snapshot taken at the most recent close or
    /// window-close request.
    pub fn final_state(&self) -> (r: FinalState)
        ensures
            r.recent@ == self.final_state.recent@,
            r.files@ == self.final_state.files@,
    {
        self.final_state.clone()
    }

    /// The highest untitled counter among the registry's names.
    pub open spec fn max_untitled(files: Seq<OpenedFile>, ext: Seq<char>) -> nat
        decreases files.len(),
    {
        if files.len() == 0 {
            0
        } else {
            let prev = Self::max_untitled(files.drop_last(), ext);
            let name = files.last().name@;
            if is_untitled_name(name, ext) && untitled_num(name, ext) > prev {
                untitled_num(name, ext)
            } else {
                prev
            }
        }
    }

    /// What a `NewRequest` does: at the ceiling, one admission-control
    /// error and no mutation; otherwise one fresh untitled document
    /// appended at the next free index, with the counter one above the
    /// highest in use.
    pub open spec fn post_new_request(pre: Self, post: Self, out: Seq<MultiEffect>, now: u64) -> bool {
        if pre.files@.len() >= pre.max_files {
            &&& post == pre
            &&& out.len() == 1
            &&& out[0] matches MultiEffect::Enqueue(a)
            &&& a matches MultiArchiverAction::OpenError(m) && m@ == msg_max_files()
        } else {
            &&& post == Self { files: post.files, ..pre }
            &&& post.files@.len() == pre.files@.len() + 1
            &&& forall|i: int| 0 <= i < pre.files@.len() ==> post.files@[i] == pre.files@[i]
            &&& ({
                let f = post.files@.last();
                &&& f.name@ == untitled_name(
                    Self::max_untitled(pre.files@, pre.extension@) + 1,
                    pre.extension@,
                )
                &&& f.path is None
                &&& f.content is None
                &&& f.saved == true
                &&& f.dt == Some(now)
                &&& f.index == pre.files@.len()
            })
            &&& out.len() == 1
            &&& out[0] matches MultiEffect::Notify(e)
            &&& e matches MultiEvent::New(f2) && f2 == post.files@.last()
        }
    }

    fn handle_new_request(&mut self, now: u64) -> (out: Vec<MultiEffect>)
        requires
            old(self).wf(),
        ensures
            final(self).wf(),
            Self::post_new_request(*old(self), *final(self), out@, now),
    {
        let mut out: Vec<MultiEffect> = Vec::new();
        if self.files.len() >= self.max_files {
            let msg = String::from_str("Maximum number of files opened");
            out.push(MultiEffect::Enqueue(MultiArchiverAction::OpenError(msg)));
            return out;
        }
        let mut m: u64 = 0;
        let mut i: usize = 0;
        while i < self.files.len()
            invariant
                0 <= i <= self.files@.len(),
                *self == *old(self),
                m < u64::MAX,
                m as nat == Self::max_untitled(self.files@.take(i as int), self.extension@),
            decreases self.files@.len() - i,
        {
            match parse_untitled(self.files[i].name.as_str(), self.extension.as_str()) {
                Some(v) => {
                    if v > m {
                        m = v;
                    }
                },
                None => {},
            }
            i += 1;
            proof {
                assert(self.files@.take(i as int).drop_last() =~= self.files@.take(i - 1));
                assert(self.files@.take(i as int).last() == self.files@[i - 1]);
            }
        }
        proof {
            assert(self.files@.take(self.files@.len() as int) =~= self.files@);
        }
        let name = make_untitled_name(m + 1, self.extension.as_str());
        let f = OpenedFile {
            path: None,
            name,
            saved: true,
            content: None,
            index: self.files.len(),
            dt: Some(now),
        };
        let fc = f.clone();
        self.files.push(f);
        out.push(MultiEffect::Notify(MultiEvent::New(fc)));
        out
    }

    /// What a `SetPrefix` does: replaces the sandbox prefix, nothing
    /// else.
    pub open spec fn post_set_prefix(
        pre: Self,
        post: Self,
        out: Seq<MultiEffect>,
        p: Option<String>,
    ) -> bool {
        &&& post == Self { prefix: p, ..pre }
        &&& out.len() == 0
    }

    fn handle_set_prefix(&mut self, p: Option<String>) -> (out: Vec<MultiEffect>)
        ensures
            Self::post_set_prefix(*old(self), *final(self), out@, p),
    {
        self.prefix = p;
        Vec::new()
    }

    /// What an error result does: the message is forwarded to the error
    /// notification; the registry is never mutated.
    pub open spec fn post_error(pre: Self, post: Self, out: Seq<MultiEffect>, msg: String) -> bool {
        &&& post == pre
        &&& out.len() == 1
        &&& out[0] matches MultiEffect::Notify(e)
        &&& e matches MultiEvent::Error(m) && m == msg
    }

    fn handle_error(&mut self, msg: String) -> (out: Vec<MultiEffect>)
        ensures
            Self::post_error(*old(self), *final(self), out@, msg),
    {
        let mut out: Vec<MultiEffect> = Vec::new();
        out.push(MultiEffect::Notify(MultiEvent::Error(msg)));
        out
    }

    /// What an `Add` does: the file enters the recent list unless an entry
    /// with the same path is already there; the addition is notified either
    /// way.
    pub open spec fn post_add(pre: Self, post: Self, out: Seq<MultiEffect>, file: OpenedFile) -> bool {
        &&& (if (file.path matches Some(p) && has_path(pre.recent@, p@)) {
            post == pre
        } else {
            &&& post == Self { recent: post.recent, ..pre }
            &&& post.recent@ == pre.recent@.push(file)
        })
        &&& out.len() == 1
        &&& out[0] matches MultiEffect::Notify(e)
        &&& e matches MultiEvent::Added(f) && f == file
    }

    fn handle_add(&mut self, file: OpenedFile) -> (out: Vec<MultiEffect>)
        ensures
            Self::post_add(*old(self), *final(self), out@, file),
    {
        let dup = match &file.path {
            Some(p) => find_path_index(&self.recent, p.as_str()).is_some(),
            None => false,
        };
        if !dup {
            self.recent.push(file.clone());
        }
        let mut out: Vec<MultiEffect> = Vec::new();
        out.push(MultiEffect::Notify(MultiEvent::Added(file)));
        out
    }

    /// What a `SetSaved` does: an out-of-range index is dropped; the index
    /// of the most recently closed file is recognized as stale and dropped
    /// (it races the close); otherwise the flag transitions fire exactly one
    /// notification each, and repeating a transition fires none.
    pub open spec fn post_set_saved(
        pre: Self,
        post: Self,
        out: Seq<MultiEffect>,
        ix: usize,
        saved: bool,
    ) -> bool {
        if ix >= pre.files@.len() {
            &&& post == pre
            &&& out.len() == 0
        } else if pre.last_closed matches Some(f) && f.index == ix {
            &&& post == Self { last_closed: None, ..pre }
            &&& out.len() == 0
        } else if saved == pre.files@[ix as int].saved {
            &&& post == pre
            &&& out.len() == 0
        } else {
            &&& post == Self { files: post.files, ..pre }
            &&& post.files@ == pre.files@.update(
                ix as int,
                OpenedFile { saved: saved, ..pre.files@[ix as int] },
            )
            &&& out.len() == 1
            &&& out[0] matches MultiEffect::Notify(e)
            &&& (if saved {
                e matches MultiEvent::FilePersisted(f) && f == post.files@[ix as int]
            } else {
                e matches MultiEvent::FileChanged(f) && f == post.files@[ix as int]
            })
        }
    }

    fn handle_set_saved(&mut self, ix: usize, saved: bool) -> (out: Vec<MultiEffect>)
        requires
            old(self).wf(),
        ensures
            final(self).wf(),
            Self::post_set_saved(*old(self), *final(self), out@, ix, saved),
    {
        let mut out: Vec<MultiEffect> = Vec::new();
        if ix >= self.files.len() {
            return out;
        }
        let stale = match &self.last_closed {
            Some(f) => f.index == ix,
            None => false,
        };
        if stale {
            self.last_closed = None;
            return out;
        }
        if saved {
            if !self.files[ix].saved {
                let mut f = self.files[ix].clone();
                f.saved = true;
                self.files.set(ix, f);
                out.push(MultiEffect::Notify(MultiEvent::FilePersisted(self.files[ix].clone())));
            }
        } else {
            if self.files[ix].saved {
                let mut f = self.files[ix].clone();
                f.saved = false;
                self.files.set(ix, f);
                out.push(MultiEffect::Notify(MultiEvent::FileChanged(self.files[ix].clone())));
            }
        }
        out
    }

    /// What a `Select` does: an out-of-range index is dropped; otherwise
    /// the selection pointer moves and the selected entry (or `None`) is
    /// notified.
    pub open spec fn post_select(
        pre: Self,
        post: Self,
        out: Seq<MultiEffect>,
        opt_ix: Option<usize>,
    ) -> bool {
        if opt_ix matches Some(ix) && ix >= pre.files@.len() {
            &&& post == pre
            &&& out.len() == 0
        } else {
            &&& post == Self { selected: opt_ix, ..pre }
            &&& out.len() == 1
            &&& out[0] matches MultiEffect::Notify(e)
            &&& e matches MultiEvent::Selected(o)
            &&& (match opt_ix {
                Some(ix) => o matches Some(f) && f == pre.files@[ix as int],
                None => o is None,
            })
        }
    }

    fn handle_select(&mut self, opt_ix: Option<usize>) -> (out: Vec<MultiEffect>)
        ensures
            Self::post_select(*old(self), *final(self), out@, opt_ix),
    {
        let mut out: Vec<MultiEffect> = Vec::new();
        let payload = match opt_ix {
            Some(ix) => {
                if ix >= self.files.len() {
                    return out;
                }
                Some(self.files[ix].clone())
            },
            None => None,
        };
        self.selected = opt_ix;
        out.push(MultiEffect::Notify(MultiEvent::Selected(payload)));
        out
    }

    /// What an `OpenRequest` does, in the order the checks run: a target
    /// outside the sandbox prefix is rejected before any read starts;
    /// a path already open is never opened twice, the existing entry is
    /// re-notified instead; at the ceiling one admission-control error
    /// is raised; otherwise a read worker is started for the next free
    /// index.
    pub open spec fn post_open_request(pre: Self, post: Self, out: Seq<MultiEffect>, path: String) -> bool {
        if pre.prefix matches Some(pr) && !starts_with(path@, pr@) {
            &&& post == pre
            &&& out.len() == 1
            &&& out[0] matches MultiEffect::Enqueue(a)
            &&& a matches MultiArchiverAction::OpenError(m)
            &&& pre.prefix matches Some(pr) && m@ == msg_open_outside_prefix(pr@)
        } else if has_path(pre.files@, path@) {
            &&& post == pre
            &&& out.len() == 1
            &&& out[0] matches MultiEffect::Notify(e)
            &&& e matches MultiEvent::Reopen(f)
            &&& exists|j: int|
                0 <= j < pre.files@.len() && path_matches(#[trigger] pre.files@[j], path@) && f
                    == pre.files@[j] && (forall|k: int|
                    0 <= k < j ==> !path_matches(pre.files@[k], path@))
        } else if pre.files@.len() >= pre.max_files {
            &&& post == pre
            &&& out.len() == 1
            &&& out[0] matches MultiEffect::Enqueue(a)
            &&& a matches MultiArchiverAction::OpenError(m) && m@ == msg_file_limit()
        } else {
            &&& post == pre
            &&& out.len() == 1
            &&& out[0] matches MultiEffect::SpawnOpen { path: p, index } && p == path && index
                == pre.files@.len()
        }
    }

    fn handle_open_request(&mut self, path: String) -> (out: Vec<MultiEffect>)
        requires
            old(self).wf(),
        ensures
            final(self).wf(),
            Self::post_open_request(*old(self), *final(self), out@, path),
    {
        let mut out: Vec<MultiEffect> = Vec::new();
        match &self.prefix {
            Some(pr) => {
                if !str_starts_with(path.as_str(), pr.as_str()) {
                    let msg = String::from_str("Cannot open file outside prefix ").concat(
                        pr.as_str(),
                    );
                    out.push(MultiEffect::Enqueue(MultiArchiverAction::OpenError(msg)));
                    return out;
                }
            },
            None => {},
        }
        match find_path_index(&self.files, path.as_str()) {
            Some(j) => {
                out.push(MultiEffect::Notify(MultiEvent::Reopen(self.files[j].clone())));
                return out;
            },
            None => {},
        }
        if self.files.len() >= self.max_files {
            let msg = String::from_str("File list limit reached");
            out.push(MultiEffect::Enqueue(MultiArchiverAction::OpenError(msg)));
            return out;
        }
        let index = self.files.len();
        out.push(MultiEffect::SpawnOpen { path, index });
        out
    }

    /// What an `OpenRelativeRequest` does: with a prefix set, the resolved
    /// path is re-enqueued as an ordinary open request; without one, an
    /// error is raised.
    pub open spec fn post_open_relative(pre: Self, post: Self, out: Seq<MultiEffect>, rel: String) -> bool {
        &&& post == pre
        &&& out.len() == 1
        &&& out[0] matches MultiEffect::Enqueue(a)
        &&& (if pre.prefix is Some {
            a matches MultiArchiverAction::OpenRequest(p) && pre.prefix matches Some(pr) && p@
                == join_path(pr@, rel@)
        } else {
            a matches MultiArchiverAction::OpenError(m) && m@ == msg_no_prefix()
        })
    }

    fn handle_open_relative(&mut self, rel: String) -> (out: Vec<MultiEffect>)
        ensures
            Self::post_open_relative(*old(self), *final(self), out@, rel),
    {
        let mut out: Vec<MultiEffect> = Vec::new();
        match &self.prefix {
            Some(pr) => {
                let abs = path_join(pr.as_str(), rel.as_str());
                out.push(MultiEffect::Enqueue(MultiArchiverAction::OpenRequest(abs)));
            },
            None => {
                let msg = String::from_str("No path prefix set");
                out.push(MultiEffect::Enqueue(MultiArchiverAction::OpenError(msg)));
            },
        }
        out
    }

    /// What an `OpenSuccess` does: the file is appended at the next free
    /// index (re-indexed so the index invariant holds whatever index the worker carried),
    /// notified, marked saved through the queue, and recorded in the recent
    /// list unless its path is already there.  At the ceiling nothing is
    /// appended and one admission-control error is raised.
    pub open spec fn post_open_success(pre: Self, post: Self, out: Seq<MultiEffect>, file: OpenedFile) -> bool {
        if pre.files@.len() >= pre.max_files {
            &&& post == pre
            &&& out.len() == 1
            &&& out[0] matches MultiEffect::Enqueue(a)
            &&& a matches MultiArchiverAction::OpenError(m) && m@ == msg_file_limit()
        } else {
            let f = OpenedFile { index: pre.files@.len() as usize, ..file };
            &&& post == Self { files: post.files, recent: post.recent, ..pre }
            &&& post.files@ == pre.files@.push(f)
            &&& (if (file.path matches Some(p) && has_path(pre.recent@, p@)) {
                post.recent == pre.recent
            } else {
                post.recent@ == pre.recent@.push(f)
            })
            &&& out.len() == 2
            &&& out[0] matches MultiEffect::Notify(e)
            &&& e matches MultiEvent::Opened(f2) && f2 == f
            &&& out[1] matches MultiEffect::Enqueue(a)
            &&& a matches MultiArchiverAction::SetSaved(ix, s) && ix == pre.files@.len() && s
                == true
        }
    }

    fn handle_open_success(&mut self, file: OpenedFile) -> (out: Vec<MultiEffect>)
        requires
            old(self).wf(),
        ensures
            final(self).wf(),
            Self::post_open_success(*old(self), *final(self), out@, file),
    {
        let mut out: Vec<MultiEffect> = Vec::new();
        if self.files.len() >= self.max_files {
            let msg = String::from_str("File list limit reached");
            out.push(MultiEffect::Enqueue(MultiArchiverAction::OpenError(msg)));
            return out;
        }
        let index = self.files.len();
        let mut f = file;
        f.index = index;
        let dup = match &f.path {
            Some(p) => find_path_index(&self.recent, p.as_str()).is_some(),
            None => false,
        };
        if !dup {
            self.recent.push(f.clone());
        }
        out.push(MultiEffect::Notify(MultiEvent::Opened(f.clone())));
        out.push(MultiEffect::Enqueue(MultiArchiverAction::SetSaved(index, true)));
        self.files.push(f);
        out
    }

    /// What a `CloseRequest` does: an out-of-range index is dropped without
    /// a crash; a forced close, or a close of a saved file, removes the
    /// entry and re-indexes everything after it, remembering it as the
    /// most recently closed; a close of a dirty file only asks for
    /// confirmation.  A forced close with a window close pending also fires
    /// the window-close notification and clears the pending flag.  The
    /// snapshot is refreshed in every non-dropped case.
    pub open spec fn post_close_request(
        pre: Self,
        post: Self,
        out: Seq<MultiEffect>,
        ix: usize,
        force: bool,
    ) -> bool {
        if ix >= pre.files@.len() {
            &&& post == pre
            &&& out.len() == 0
        } else if force || pre.files@[ix as int].saved {
            &&& post == Self {
                files: post.files,
                last_closed: post.last_closed,
                win_close_request: post.win_close_request,
                final_state: post.final_state,
                ..pre
            }
            &&& post.files@ == remove_reindexed(pre.files@, ix as int)
            &&& post.last_closed == Some(pre.files@[ix as int])
            &&& post.final_state.files@ == post.files@
            &&& post.final_state.recent@ == pre.recent@
            &&& out[0] matches MultiEffect::Notify(e)
            &&& e matches MultiEvent::Closed(f, n) && f == pre.files@[ix as int] && n
                == pre.files@.len() - 1
            &&& (if force && pre.win_close_request {
                &&& post.win_close_request == false
                &&& out.len() == 2
                &&& out[1] matches MultiEffect::Notify(e2)
                &&& e2 is WindowClose
            } else {
                &&& post.win_close_request == pre.win_close_request
                &&& out.len() == 1
            })
        } else {
            &&& post == Self { final_state: post.final_state, ..pre }
            &&& post.final_state.files@ == pre.files@
            &&& post.final_state.recent@ == pre.recent@
            &&& out.len() == 1
            &&& out[0] matches MultiEffect::Notify(e)
            &&& e matches MultiEvent::CloseConfirm(f) && f == pre.files@[ix as int]
        }
    }

    fn handle_close_request(&mut self, ix: usize, force: bool) -> (out: Vec<MultiEffect>)
        requires
            old(self).wf(),
        ensures
            final(self).wf(),
            Self::post_close_request(*old(self), *final(self), out@, ix, force),
    {
        let mut out: Vec<MultiEffect> = Vec::new();
        if ix >= self.files.len() {
            return out;
        }
        if force || self.files[ix].saved {
            let closed = remove_file(&mut self.files, ix);
            let n = self.files.len();
            self.last_closed = Some(closed.clone());
            out.push(MultiEffect::Notify(MultiEvent::Closed(closed, n)));
            if force && self.win_close_request {
                out.push(MultiEffect::Notify(MultiEvent::WindowClose));
                self.win_close_request = false;
            }
        } else {
            out.push(MultiEffect::Notify(MultiEvent::CloseConfirm(self.files[ix].clone())));
        }
        self.final_state = FinalState {
            recent: clone_files(&self.recent),
            files: clone_files(&self.files),
        };
        out
    }

    /// What a `WindowCloseRequest` does: with some file dirty, the first
    /// dirty one is put up for confirmation and the window close is
    /// recorded as pending; with everything saved, the window close is
    /// notified at once.  The snapshot is refreshed either way.
    pub open spec fn post_window_close(pre: Self, post: Self, out: Seq<MultiEffect>) -> bool {
        let dirty = exists|j: int| 0 <= j < pre.files@.len() && !(#[trigger] pre.files@[j]).saved;
        &&& post == Self {
            win_close_request: post.win_close_request,
            final_state: post.final_state,
            ..pre
        }
        &&& post.final_state.files@ == pre.files@
        &&& post.final_state.recent@ == pre.recent@
        &&& out.len() == 1
        &&& out[0] matches MultiEffect::Notify(e)
        &&& (if dirty {
            &&& post.win_close_request == true
            &&& e matches MultiEvent::CloseConfirm(f)
            &&& exists|j: int|
                0 <= j < pre.files@.len() && !(#[trigger] pre.files@[j]).saved && f
                    == pre.files@[j] && (forall|k: int| 0 <= k < j ==> pre.files@[k].saved)
        } else {
            &&& post.win_close_request == pre.win_close_request
            &&& e is WindowClose
        })
    }

    fn handle_window_close(&mut self) -> (out: Vec<MultiEffect>)
        requires
            old(self).wf(),
        ensures
            final(self).wf(),
            Self::post_window_close(*old(self), *final(self), out@),
    {
        let mut out: Vec<MultiEffect> = Vec::new();
        let mut i: usize = 0;
        while i < self.files.len() && self.files[i].saved
            invariant
                0 <= i <= self.files@.len(),
                *self == *old(self),
                forall|k: int| 0 <= k < i ==> (#[trigger] self.files@[k]).saved,
            decreases self.files@.len() - i,
        {
            i += 1;
        }
        if i < self.files.len() {
            out.push(MultiEffect::Notify(MultiEvent::CloseConfirm(self.files[i].clone())));
            self.win_close_request = true;
        } else {
            out.push(MultiEffect::Notify(MultiEvent::WindowClose));
        }
        self.final_state = FinalState {
            recent: clone_files(&self.recent),
            files: clone_files(&self.files),
        };
        out
    }

    /// What saving to a resolved target does: a target outside the sandbox
    /// prefix is rejected before any write starts; otherwise a write
    /// worker is started for the selected index.
    pub open spec fn save_with_target(
        pre: Self,
        post: Self,
        out: Seq<MultiEffect>,
        ix: int,
        target: String,
    ) -> bool {
        if pre.prefix matches Some(pr) && !starts_with(target@, pr@) {
            &&& post == pre
            &&& out.len() == 1
            &&& out[0] matches MultiEffect::Enqueue(a)
            &&& a matches MultiArchiverAction::OpenError(m)
            &&& pre.prefix matches Some(pr) && m@ == msg_save_outside_prefix(pr@)
        } else {
            &&& post == pre
            &&& out.len() == 1
            &&& out[0] matches MultiEffect::SpawnSave { path, index } && path == target && index
                == ix
        }
    }

    /// What a `SaveRequest` does: the explicit target takes priority, then
    /// the file's stored path; with neither, the caller is asked for a path
    /// and nothing is written.  A save with no selection is the caller's
    /// contract violation and is excluded by `step`'s precondition.
    pub open spec fn post_save_request(
        pre: Self,
        post: Self,
        out: Seq<MultiEffect>,
        opt_path: Option<String>,
    ) -> bool {
        &&& pre.selected matches Some(ix)
        &&& (match opt_path {
            Some(p) => Self::save_with_target(pre, post, out, ix as int, p),
            None => match pre.files@[ix as int].path {
                Some(p) => Self::save_with_target(pre, post, out, ix as int, p),
                None => {
                    &&& post == pre
                    &&& out.len() == 1
                    &&& out[0] matches MultiEffect::Notify(e)
                    &&& e matches MultiEvent::SaveUnknownPath(nm)
                    &&& nm == pre.files@[ix as int].name
                },
            },
        })
    }

    fn handle_save_request(&mut self, opt_path: Option<String>) -> (out: Vec<MultiEffect>)
        requires
            old(self).wf(),
            old(self).selected matches Some(ix) && ix < old(self).files@.len(),
        ensures
            final(self).wf(),
            Self::post_save_request(*old(self), *final(self), out@, opt_path),
    {
        let mut out: Vec<MultiEffect> = Vec::new();
        let ix = match self.selected {
            Some(i) => i,
            None => vstd::pervasive::unreached(),
        };
        let target: Option<String> = match opt_path {
            Some(p) => Some(p),
            None => match &self.files[ix].path {
                Some(p) => Some(p.clone()),
                None => None,
            },
        };
        match target {
            Some(t) => {
                match &self.prefix {
                    Some(pr) => {
                        if !str_starts_with(t.as_str(), pr.as_str()) {
                            let msg = String::from_str("Cannot save file outside prefix ").concat(
                                pr.as_str(),
                            );
                            out.push(MultiEffect::Enqueue(MultiArchiverAction::OpenError(msg)));
                            return out;
                        }
                    },
                    None => {},
                }
                out.push(MultiEffect::SpawnSave { path: t, index: ix });
            },
            None => {
                out.push(
                    MultiEffect::Notify(MultiEvent::SaveUnknownPath(self.files[ix].name.clone())),
                );
            },
        }
        out
    }

    /// What a `SaveSuccess` does: an out-of-range (stale) index is dropped;
    /// a file whose name still has the untitled placeholder form takes the
    /// saved path as its name and path, the rename is notified, and the
    /// entry is recorded in the recent list unless its path is already
    /// there.  Every surviving save is followed by a queued `SetSaved`.
    pub open spec fn post_save_success(
        pre: Self,
        post: Self,
        out: Seq<MultiEffect>,
        ix: usize,
        path: String,
    ) -> bool {
        if ix >= pre.files@.len() {
            &&& post == pre
            &&& out.len() == 0
        } else if starts_with(pre.files@[ix as int].name@, untitled_marker()) {
            let f = OpenedFile { name: path, path: Some(path), ..pre.files@[ix as int] };
            &&& post == Self { files: post.files, recent: post.recent, ..pre }
            &&& post.files@ == pre.files@.update(ix as int, f)
            &&& (if has_path(pre.recent@, path@) {
                post.recent == pre.recent
            } else {
                post.recent@ == pre.recent@.push(f)
            })
            &&& out.len() == 2
            &&& out[0] matches MultiEffect::Notify(e)
            &&& e matches MultiEvent::NameChanged(i2, p2) && i2 == ix && p2 == path
            &&& out[1] matches MultiEffect::Enqueue(a)
            &&& a matches MultiArchiverAction::SetSaved(i3, s) && i3 == ix && s == true
        } else {
            &&& post == pre
            &&& out.len() == 1
            &&& out[0] matches MultiEffect::Enqueue(a)
            &&& a matches MultiArchiverAction::SetSaved(i3, s) && i3 == ix && s == true
        }
    }

    fn handle_save_success(&mut self, ix: usize, path: String) -> (out: Vec<MultiEffect>)
        requires
            old(self).wf(),
        ensures
            final(self).wf(),
            Self::post_save_success(*old(self), *final(self), out@, ix, path),
    {
        let mut out: Vec<MultiEffect> = Vec::new();
        if ix >= self.files.len() {
            return out;
        }
        let untitled = str_starts_with(self.files[ix].name.as_str(), "Untitled");
        proof {
            reveal_strlit("Untitled");
            assert("Untitled"@ =~= untitled_marker());
        }
        if untitled {
            let mut f = self.files[ix].clone();
            f.name = path.clone();
            f.path = Some(path.clone());
            self.files.set(ix, f);
            out.push(MultiEffect::Notify(MultiEvent::NameChanged(ix, path.clone())));
            let dup = find_path_index(&self.recent, path.as_str()).is_some();
            if !dup {
                self.recent.push(self.files[ix].clone());
            }
        }
        out.push(MultiEffect::Enqueue(MultiArchiverAction::SetSaved(ix, true)));
        out
    }

    /// Processes one dequeued action to completion: validates it, mutates
    /// the registry, and returns the effects the caller must carry out, in
    /// order.  Feeding every action through here, one at a time, is what
    /// lets the registry go without locking, and keeps the registry invariant standing
    /// after every step.
    pub fn step(&mut self, action: MultiArchiverAction, now: u64) -> (out: Vec<MultiEffect>)
        requires
            old(self).wf(),
            action matches MultiArchiverAction::SaveRequest(_) ==> old(self).selected matches Some(
                ix,
            ) && ix < old(self).files@.len(),
        ensures
            final(self).wf(),
            match action {
                MultiArchiverAction::NewRequest => Self::post_new_request(
                    *old(self),
                    *final(self),
                    out@,
                    now,
                ),
                MultiArchiverAction::OpenRequest(path) => Self::post_open_request(
                    *old(self),
                    *final(self),
                    out@,
                    path,
                ),
                MultiArchiverAction::OpenRelativeRequest(rel) => Self::post_open_relative(
                    *old(self),
                    *final(self),
                    out@,
                    rel,
                ),
                MultiArchiverAction::SetPrefix(p) => Self::post_set_prefix(
                    *old(self),
                    *final(self),
                    out@,
                    p,
                ),
                MultiArchiverAction::OpenSuccess(file) => Self::post_open_success(
                    *old(self),
                    *final(self),
                    out@,
                    file,
                ),
                MultiArchiverAction::Add(file) => Self::post_add(
                    *old(self),
                    *final(self),
                    out@,
                    file,
                ),
                MultiArchiverAction::OpenError(msg) => Self::post_error(
                    *old(self),
                    *final(self),
                    out@,
                    msg,
                ),
                MultiArchiverAction::CloseRequest(ix, force) => Self::post_close_request(
                    *old(self),
                    *final(self),
                    out@,
                    ix,
                    force,
                ),
                MultiArchiverAction::SaveRequest(opt_path) => Self::post_save_request(
                    *old(self),
                    *final(self),
                    out@,
                    opt_path,
                ),
                MultiArchiverAction::SaveSuccess(ix, path) => Self::post_save_success(
                    *old(self),
                    *final(self),
                    out@,
                    ix,
                    path,
                ),
                MultiArchiverAction::SaveError(msg) => Self::post_error(
                    *old(self),
                    *final(self),
                    out@,
                    msg,
                ),
                MultiArchiverAction::WindowCloseRequest => Self::post_window_close(
                    *old(self),
                    *final(self),
                    out@,
                ),
                MultiArchiverAction::SetSaved(ix, saved) => Self::post_set_saved(
                    *old(self),
                    *final(self),
                    out@,
                    ix,
                    saved,
                ),
                MultiArchiverAction::Select(opt_ix) => Self::post_select(
                    *old(self),
                    *final(self),
                    out@,
                    opt_ix,
                ),
            },
    {
        match action {
            MultiArchiverAction::NewRequest => self.handle_new_request(now),
            MultiArchiverAction::OpenRequest(path) => self.handle_open_request(path),
            MultiArchiverAction::OpenRelativeRequest(rel) => self.handle_open_relative(rel),
            MultiArchiverAction::SetPrefix(p) => self.handle_set_prefix(p),
            MultiArchiverAction::OpenSuccess(file) => self.handle_open_success(file),
            MultiArchiverAction::Add(file) => self.handle_add(file),
            MultiArchiverAction::OpenError(msg) => self.handle_error(msg),
            MultiArchiverAction::CloseRequest(ix, force) => self.handle_close_request(ix, force),
            MultiArchiverAction::SaveRequest(opt_path) => self.handle_save_request(opt_path),
            MultiArchiverAction::SaveSuccess(ix, path) => self.handle_save_success(ix, path),
            MultiArchiverAction::SaveError(msg) => self.handle_error(msg),
            MultiArchiverAction::WindowCloseRequest => self.handle_window_close(),
            MultiArchiverAction::SetSaved(ix, saved) => self.handle_set_saved(ix, saved),
            MultiArchiverAction::Select(opt_ix) => self.handle_select(opt_ix),
        }
    }
}

// ---------------------------------------------------------------------------
// Worker decisions
// ---------------------------------------------------------------------------

/// The check an open worker makes before reading: a relative target is
/// rejected without touching the disk.  (Absolute here means the path
/// starts with the separator.)  `None` means the read may proceed.
pub fn open_target_check(path: &str) -> (r: Option<MultiArchiverAction>)
    ensures
        starts_with(path@, seq!['/']) <==> r is None,
        r matches Some(a) ==> a matches MultiArchiverAction::SaveError(m) && m@
            == msg_non_absolute(),
{
    let abs = str_starts_with(path, "/");
    proof {
        reveal_strlit("/");
        assert("/"@ =~= seq!['/']);
    }
    if abs {
        None
    } else {
        Some(MultiArchiverAction::SaveError(String::from_str("Using non-absolute path")))
    }
}

/// The checks a save worker makes before writing: a relative target, or a
/// target that is a directory, is rejected without a write.  The caller
/// supplies `is_dir`, the one fact only the filesystem knows.  `None`
/// means the write may proceed.
pub fn save_target_check(path: &str, is_dir: bool) -> (r: Option<MultiArchiverAction>)
    ensures
        !starts_with(path@, seq!['/']) ==> (r matches Some(a) && a matches
            MultiArchiverAction::SaveError(m) && m@ == msg_non_absolute()),
        starts_with(path@, seq!['/']) && is_dir ==> (r matches Some(a) && a matches
            MultiArchiverAction::SaveError(m) && m@ == msg_save_to_dir()),
        starts_with(path@, seq!['/']) && !is_dir ==> r is None,
{
    let abs = str_starts_with(path, "/");
    proof {
        reveal_strlit("/");
        assert("/"@ =~= seq!['/']);
    }
    if !abs {
        Some(MultiArchiverAction::SaveError(String::from_str("Using non-absolute path")))
    } else if is_dir {
        Some(MultiArchiverAction::SaveError(String::from_str("Tried to save file to directory path")))
    } else {
        None
    }
}

/// The action a finished open worker reports: a read error is forwarded;
/// decoded text longer than `MAX_FILE_SIZE` is rejected after the read, so
/// it never enters the registry; otherwise the success carries the
/// complete record for the document, saved and stamped with `now`.
pub fn open_read_outcome(path: String, read: Result<String, String>, index: usize, now: u64) -> (a:
    MultiArchiverAction)
    ensures
        match read {
            Result::Ok(content) => if content@.len() > MAX_FILE_SIZE {
                a matches MultiArchiverAction::OpenError(m) && m@ == msg_too_large()
            } else {
                a matches MultiArchiverAction::OpenSuccess(f) && f == (OpenedFile {
                    name: path,
                    path: Some(path),
                    content: Some(content),
                    saved: true,
                    dt: Some(now),
                    index: index,
                })
            },
            Result::Err(e) => a matches MultiArchiverAction::OpenError(m) && m == e,
        },
{
    match read {
        Ok(content) => {
            if content.as_str().unicode_len() > MAX_FILE_SIZE {
                MultiArchiverAction::OpenError(String::from_str("File extrapolates maximum size"))
            } else {
                let name = path.clone();
                MultiArchiverAction::OpenSuccess(
                    OpenedFile {
                        name,
                        path: Some(path),
                        content: Some(content),
                        saved: true,
                        dt: Some(now),
                        index,
                    },
                )
            }
        },
        Err(e) => MultiArchiverAction::OpenError(e),
    }
}

/// The action a finished save worker reports: success carries the index
/// and the path written; a write error is forwarded.
pub fn save_write_outcome(path: String, index: usize, write: Result<(), String>) -> (a:
    MultiArchiverAction)
    ensures
        match write {
            Result::Ok(_) => a matches MultiArchiverAction::SaveSuccess(i, p) && i == index && p
                == path,
            Result::Err(e) => a matches MultiArchiverAction::SaveError(m) && m == e,
        },
{
    match write {
        Ok(_) => MultiArchiverAction::SaveSuccess(index, path),
        Err(e) => MultiArchiverAction::SaveError(e),
    }
}

/// An element-for-element copy of a file list.
fn clone_files(v: &Vec<OpenedFile>) -> (r: Vec<OpenedFile>)
    ensures
        r@ == v@,
{
    let mut r: Vec<OpenedFile> = Vec::new();
    let mut i: usize = 0;
    while i < v.len()
        invariant
            0 <= i <= v@.len(),
            r@ == v@.take(i as int),
        decreases v@.len() - i,
    {
        r.push(v[i].clone());
        i += 1;
        proof {
            assert(v@.take(i as int) =~= v@.take(i - 1).push(v@[i - 1]));
        }
    }
    proof {
        assert(v@.take(v@.len() as int) =~= v@);
    }
    r
}

/// The position of the first entry registered under `path`, if any.
fn find_path_index(files: &Vec<OpenedFile>, path: &str) -> (r: Option<usize>)
    ensures
        r matches Some(j) ==> j < files@.len() && path_matches(files@[j as int], path@) && (forall|
            k: int,
        | 0 <= k < j ==> !path_matches(files@[k], path@)),
        r is None ==> !has_path(files@, path@),
{
    let mut i: usize = 0;
    while i < files.len()
        invariant
            0 <= i <= files@.len(),
            forall|k: int| 0 <= k < i ==> !path_matches(files@[k], path@),
        decreases files@.len() - i,
    {
        match &files[i].path {
            Some(p) => {
                if str_eq(p.as_str(), path) {
                    return Some(i);
                }
            },
            None => {},
        }
        i += 1;
    }
    None
}

/// Removes position `ix` from the registry, moving every later entry and
/// its recorded index down by one.  Returns the removed entry.
pub fn remove_file(files: &mut Vec<OpenedFile>, ix: usize) -> (r: OpenedFile)
    requires
        files_indexed(old(files)@),
        ix < old(files)@.len(),
    ensures
        r == old(files)@[ix as int],
        final(files)@ == remove_reindexed(old(files)@, ix as int),
        files_indexed(final(files)@),
{
    let ghost orig = files@;
    let n = files.len();
    assert(ix < n);
    let mut i: usize = ix + 1;
    while i < files.len()
        invariant
            ix < i <= files@.len(),
            files@.len() == orig.len(),
            files_indexed(orig),
            forall|k: int| 0 <= k < ix + 1 ==> files@[k] == orig[k],
            forall|k: int|
                ix + 1 <= k < i ==> files@[k] == (OpenedFile {
                    index: (orig[k].index - 1) as usize,
                    ..orig[k]
                }),
            forall|k: int| i <= k < files@.len() ==> files@[k] == orig[k],
        decreases files@.len() - i,
    {
        let mut f = files[i].clone();
        assert(f.index == i);
        f.index = f.index - 1;
        files.set(i, f);
        i += 1;
    }
    let r = files.remove(ix);
    proof {
        assert(files@ =~= remove_reindexed(orig, ix as int));
        assert forall|k: int| 0 <= k < files@.len() implies (#[trigger] files@[k]).index == k by {
            if k >= ix {
                assert(files@[k] == remove_reindexed(orig, ix as int)[k]);
            }
        }
    }
    r
}

} // verus!
