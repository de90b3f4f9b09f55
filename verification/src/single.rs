//! The single-document archiving engine: exactly one current file, replaced
//! wholesale on new/open, over the same action-driven substrate as the
//! multi-document variant.
//!
//! The consumer that owns the action queue calls [`SingleArchiver::step`]
//! for each dequeued action and carries out the returned effects in order.
//! When a close needs confirmation, [`FileState`] records why it was
//! requested, so that resolving it fires exactly the right follow-up.

use vstd::prelude::*;

use crate::text::starts_with;
use crate::text::str_eq;
use crate::text::str_starts_with;

verus! {

/// Why a close confirmation was requested: the follow-up that fires once
/// the user discards the current file.
#[derive(Clone, Copy)]
pub enum FileState {
    New,
    Editing,
    Open,
    CloseWindow,
}

/// A request or result flowing through the engine's action queue.
pub enum SingleArchiverAction {
    /// Whether to skip the confirmation of discarding unsaved changes.
    NewRequest(bool),
    SaveRequest(Option<String>),
    SaveSuccess(String),
    SaveError(String),
    FileChanged,
    OpenRequest(String),
    /// Carries path and content.
    OpenSuccess(String, String),
    OpenError(String),
    RequestShowOpen,
    FileCloseRequest,
    WindowCloseRequest,
}

/// An outbound notification, one per relevant transition.
pub enum SingleEvent {
    Opened(String, String),
    New,
    FileChanged(Option<String>),
    SaveUnknownPath(String),
    Save(String),
    CloseConfirm(String),
    WindowClose,
    ShowOpen,
    Error(String),
}

/// What the caller must carry out after a step, in order.
pub enum SingleEffect {
    /// Fire the notification synchronously.
    Notify(SingleEvent),
    /// Join any open worker still in flight, then spawn one that reads
    /// `path` and enqueues the action built by [`open_read_outcome`].
    SpawnOpen { path: String },
    /// Pull the current buffer content, join any save worker still in
    /// flight, then spawn one that writes the content to `path` and
    /// enqueues the action built by [`save_write_outcome`].
    SpawnSave { path: String },
}

/// The current document.  `last_saved = None` means unsaved changes exist;
/// the instant doubles as the dirty flag.  `just_opened` swallows the one
/// buffer-change notification that follows a programmatic buffer load.
pub struct CurrentFile {
    pub last_saved: Option<u64>,
    pub path: Option<String>,
    pub just_opened: bool,
}

/// The display name of the current document when none has been chosen.
pub open spec fn spec_path_or_untitled(c: CurrentFile) -> Seq<char> {
    match c.path {
        Some(p) => p@,
        None => "Untitled.tex"@,
    }
}

impl Clone for CurrentFile {
    /// A clone carries exactly the fields of the original.
    fn clone(&self) -> (r: Self)
        ensures
            r == *self,
    {
        CurrentFile {
            last_saved: self.last_saved,
            path: match &self.path {
                Some(p) => Some(p.clone()),
                None => None,
            },
            just_opened: self.just_opened,
        }
    }
}

impl Default for CurrentFile {
    /// No document: no path, dirty, no pending buffer load.
    fn default() -> (r: Self)
        ensures
            r.last_saved is None,
            r.path is None,
            r.just_opened == false,
    {
        CurrentFile { last_saved: None, path: None, just_opened: false }
    }
}

impl CurrentFile {
    /// Forgets the current document: the path is cleared, the file counts
    /// as clean as of `now`, and the next buffer change is swallowed.
    pub fn reset(&mut self, now: u64)
        ensures
            *final(self) == (CurrentFile { last_saved: Some(now), path: None, just_opened: true }),
    {
        self.path = None;
        self.last_saved = Some(now);
        self.just_opened = true;
    }

    /// The stored path, or the untitled placeholder.
    pub fn path_or_untitled(&self) -> (r: String)
        ensures
            r@ == spec_path_or_untitled(*self),
    {
        match &self.path {
            Some(p) => p.clone(),
            None => String::from_str("Untitled.tex"),
        }
    }
}

/// The single-document engine state.  All mutation goes through
/// [`SingleArchiver::step`].
pub struct SingleArchiver {
    /// The current document.
    pub curr_file: CurrentFile,
    /// The follow-up recorded for a pending close confirmation.
    pub file_state: FileState,
}

impl SingleArchiver {
    /// A fresh engine: no path, clean as of `now`, next buffer change
    /// swallowed.
    pub fn new(now: u64) -> (r: Self)
        ensures
            r.curr_file == (CurrentFile { last_saved: Some(now), path: None, just_opened: true }),
            r.file_state is New,
    {
        let mut curr_file = CurrentFile::default();
        curr_file.reset(now);
        SingleArchiver { curr_file, file_state: FileState::New }
    }

    /// What a `NewRequest` does: with unsaved changes and no force, the
    /// confirmation is requested and `New` is recorded as the follow-up;
    /// otherwise the current document is replaced by a fresh one.
    pub open spec fn post_new_request(
        pre: Self,
        post: Self,
        out: Seq<SingleEffect>,
        force: bool,
        now: u64,
    ) -> bool {
        if !force && pre.curr_file.last_saved is None {
            &&& post == Self { file_state: FileState::New, ..pre }
            &&& out.len() == 1
            &&& out[0] matches SingleEffect::Notify(e)
            &&& e matches SingleEvent::CloseConfirm(p) && p@ == spec_path_or_untitled(pre.curr_file)
        } else {
            &&& post == Self { curr_file: post.curr_file, ..pre }
            &&& post.curr_file == (CurrentFile {
                last_saved: Some(now),
                path: None,
                just_opened: true,
            })
            &&& out.len() == 1
            &&& out[0] matches SingleEffect::Notify(e)
            &&& e is New
        }
    }

    fn handle_new_request(&mut self, force: bool, now: u64) -> (out: Vec<SingleEffect>)
        ensures
            Self::post_new_request(*old(self), *final(self), out@, force, now),
    {
        let mut out: Vec<SingleEffect> = Vec::new();
        if !force && self.curr_file.last_saved.is_none() {
            self.file_state = FileState::New;
            out.push(SingleEffect::Notify(SingleEvent::CloseConfirm(
                self.curr_file.path_or_untitled(),
            )));
        } else {
            self.curr_file.reset(now);
            out.push(SingleEffect::Notify(SingleEvent::New));
        }
        out
    }

    /// What a `SaveRequest` does: the explicit target takes priority, then
    /// the current path; with neither, the caller is asked for a path and
    /// nothing is written.
    pub open spec fn post_save_request(
        pre: Self,
        post: Self,
        out: Seq<SingleEffect>,
        opt_path: Option<String>,
    ) -> bool {
        &&& post == pre
        &&& out.len() == 1
        &&& (match opt_path {
            Some(p) => out[0] matches SingleEffect::SpawnSave { path } && path == p,
            None => match pre.curr_file.path {
                Some(p) => out[0] matches SingleEffect::SpawnSave { path } && path == p,
                None => out[0] matches SingleEffect::Notify(e) && e matches
                    SingleEvent::SaveUnknownPath(s) && s@ == Seq::<char>::empty(),
            },
        })
    }

    fn handle_save_request(&mut self, opt_path: Option<String>) -> (out: Vec<SingleEffect>)
        ensures
            Self::post_save_request(*old(self), *final(self), out@, opt_path),
    {
        let mut out: Vec<SingleEffect> = Vec::new();
        match opt_path {
            Some(p) => {
                out.push(SingleEffect::SpawnSave { path: p });
            },
            None => match &self.curr_file.path {
                Some(p) => {
                    out.push(SingleEffect::SpawnSave { path: p.clone() });
                },
                None => {
                    out.push(SingleEffect::Notify(SingleEvent::SaveUnknownPath(String::new())));
                },
            },
        }
        out
    }

    /// What a `FileChanged` does: the first change after an open or reset
    /// is a programmatic buffer load and is swallowed; a change to a clean
    /// file marks it dirty and is notified once; a change to an already
    /// dirty file is notified no further (no duplicate events).
    pub open spec fn post_file_changed(pre: Self, post: Self, out: Seq<SingleEffect>) -> bool {
        if pre.curr_file.just_opened {
            &&& post == Self { curr_file: post.curr_file, ..pre }
            &&& post.curr_file == (CurrentFile { just_opened: false, ..pre.curr_file })
            &&& out.len() == 0
        } else if pre.curr_file.last_saved is Some {
            &&& post == Self { curr_file: post.curr_file, ..pre }
            &&& post.curr_file == (CurrentFile { last_saved: None, ..pre.curr_file })
            &&& out.len() == 1
            &&& out[0] matches SingleEffect::Notify(e)
            &&& e matches SingleEvent::FileChanged(p)
            &&& (match pre.curr_file.path {
                Some(q) => p matches Some(p2) && p2 == q,
                None => p is None,
            })
        } else {
            &&& post == pre
            &&& out.len() == 0
        }
    }

    fn handle_file_changed(&mut self) -> (out: Vec<SingleEffect>)
        ensures
            Self::post_file_changed(*old(self), *final(self), out@),
    {
        let mut out: Vec<SingleEffect> = Vec::new();
        if self.curr_file.just_opened {
            self.curr_file.just_opened = false;
            return out;
        }
        if self.curr_file.last_saved.is_some() {
            self.curr_file.last_saved = None;
            let p = match &self.curr_file.path {
                Some(q) => Some(q.clone()),
                None => None,
            };
            out.push(SingleEffect::Notify(SingleEvent::FileChanged(p)));
        }
        out
    }

    /// What a `SaveSuccess` does: the written path becomes the current
    /// path, the file counts as clean as of `now`, and the save is
    /// notified.
    pub open spec fn post_save_success(
        pre: Self,
        post: Self,
        out: Seq<SingleEffect>,
        path: String,
        now: u64,
    ) -> bool {
        &&& post == Self { curr_file: post.curr_file, ..pre }
        &&& post.curr_file == (CurrentFile {
            path: Some(path),
            last_saved: Some(now),
            just_opened: pre.curr_file.just_opened,
        })
        &&& out.len() == 1
        &&& out[0] matches SingleEffect::Notify(e)
        &&& e matches SingleEvent::Save(p) && p == path
    }

    fn handle_save_success(&mut self, path: String, now: u64) -> (out: Vec<SingleEffect>)
        ensures
            Self::post_save_success(*old(self), *final(self), out@, path, now),
    {
        let mut out: Vec<SingleEffect> = Vec::new();
        self.curr_file.path = Some(path.clone());
        self.curr_file.last_saved = Some(now);
        out.push(SingleEffect::Notify(SingleEvent::Save(path)));
        out
    }

    /// What an error result does: the message is forwarded to the error
    /// notification; nothing is mutated.
    pub open spec fn post_error(pre: Self, post: Self, out: Seq<SingleEffect>, msg: String) -> bool {
        &&& post == pre
        &&& out.len() == 1
        &&& out[0] matches SingleEffect::Notify(e)
        &&& e matches SingleEvent::Error(m) && m == msg
    }

    fn handle_error(&mut self, msg: String) -> (out: Vec<SingleEffect>)
        ensures
            Self::post_error(*old(self), *final(self), out@, msg),
    {
        let mut out: Vec<SingleEffect> = Vec::new();
        out.push(SingleEffect::Notify(SingleEvent::Error(msg)));
        out
    }

    /// What a `RequestShowOpen` does: with the file clean, the open dialog
    /// may show at once; with unsaved changes, the confirmation comes first
    /// and `Open` is recorded as the follow-up.
    pub open spec fn post_show_open(pre: Self, post: Self, out: Seq<SingleEffect>) -> bool {
        if pre.curr_file.last_saved is Some {
            &&& post == pre
            &&& out.len() == 1
            &&& out[0] matches SingleEffect::Notify(e)
            &&& e is ShowOpen
        } else {
            &&& post == Self { file_state: FileState::Open, ..pre }
            &&& out.len() == 1
            &&& out[0] matches SingleEffect::Notify(e)
            &&& e matches SingleEvent::CloseConfirm(p) && p@ == spec_path_or_untitled(pre.curr_file)
        }
    }

    fn handle_show_open(&mut self) -> (out: Vec<SingleEffect>)
        ensures
            Self::post_show_open(*old(self), *final(self), out@),
    {
        let mut out: Vec<SingleEffect> = Vec::new();
        if self.curr_file.last_saved.is_some() {
            out.push(SingleEffect::Notify(SingleEvent::ShowOpen));
        } else {
            self.file_state = FileState::Open;
            out.push(SingleEffect::Notify(SingleEvent::CloseConfirm(
                self.curr_file.path_or_untitled(),
            )));
        }
        out
    }

    /// What an `OpenRequest` does: opening the path already current is a
    /// no-op; otherwise a read worker is started.
    pub open spec fn post_open_request(pre: Self, post: Self, out: Seq<SingleEffect>, path: String) -> bool {
        if pre.curr_file.path matches Some(p) && p@ == path@ {
            &&& post == pre
            &&& out.len() == 0
        } else {
            &&& post == pre
            &&& out.len() == 1
            &&& out[0] matches SingleEffect::SpawnOpen { path: p2 } && p2 == path
        }
    }

    fn handle_open_request(&mut self, path: String) -> (out: Vec<SingleEffect>)
        ensures
            Self::post_open_request(*old(self), *final(self), out@, path),
    {
        let mut out: Vec<SingleEffect> = Vec::new();
        let same = match &self.curr_file.path {
            Some(p) => str_eq(p.as_str(), path.as_str()),
            None => false,
        };
        if same {
            return out;
        }
        out.push(SingleEffect::SpawnOpen { path });
        out
    }

    /// What an `OpenSuccess` does: the next buffer change is marked to be
    /// swallowed *before* the open is notified (the notification may
    /// synchronously repopulate the buffer), the read path becomes current,
    /// and the file counts as clean as of `now`.
    pub open spec fn post_open_success(
        pre: Self,
        post: Self,
        out: Seq<SingleEffect>,
        path: String,
        content: String,
        now: u64,
    ) -> bool {
        &&& post == Self { curr_file: post.curr_file, ..pre }
        &&& post.curr_file == (CurrentFile {
            just_opened: true,
            path: Some(path),
            last_saved: Some(now),
        })
        &&& out.len() == 1
        &&& out[0] matches SingleEffect::Notify(e)
        &&& e matches SingleEvent::Opened(p, c) && p == path && c == content
    }

    fn handle_open_success(&mut self, path: String, content: String, now: u64) -> (out: Vec<
        SingleEffect,
    >)
        ensures
            Self::post_open_success(*old(self), *final(self), out@, path, content, now),
    {
        let mut out: Vec<SingleEffect> = Vec::new();
        self.curr_file.just_opened = true;
        self.curr_file.path = Some(path.clone());
        self.curr_file.last_saved = Some(now);
        out.push(SingleEffect::Notify(SingleEvent::Opened(path, content)));
        out
    }

    /// What a `FileCloseRequest` does (the user discarded the unsaved
    /// file): the current document is forgotten, then exactly the recorded
    /// follow-up fires — start a new file, show the open dialog, or close
    /// the window.
    pub open spec fn post_file_close(pre: Self, post: Self, out: Seq<SingleEffect>, now: u64) -> bool {
        &&& post == Self { curr_file: post.curr_file, ..pre }
        &&& post.curr_file == (CurrentFile { last_saved: Some(now), path: None, just_opened: true })
        &&& (match pre.file_state {
            FileState::New => out.len() == 1 && (out[0] matches SingleEffect::Notify(e) && e
                is New),
            FileState::Open => out.len() == 1 && (out[0] matches SingleEffect::Notify(e) && e
                is ShowOpen),
            FileState::CloseWindow => out.len() == 1 && (out[0] matches SingleEffect::Notify(e)
                && e is WindowClose),
            FileState::Editing => out.len() == 0,
        })
    }

    fn handle_file_close(&mut self, now: u64) -> (out: Vec<SingleEffect>)
        ensures
            Self::post_file_close(*old(self), *final(self), out@, now),
    {
        let mut out: Vec<SingleEffect> = Vec::new();
        self.curr_file.reset(now);
        match self.file_state {
            FileState::New => {
                out.push(SingleEffect::Notify(SingleEvent::New));
                self.curr_file.just_opened = true;
            },
            FileState::Open => {
                out.push(SingleEffect::Notify(SingleEvent::ShowOpen));
                self.curr_file.just_opened = true;
            },
            FileState::CloseWindow => {
                out.push(SingleEffect::Notify(SingleEvent::WindowClose));
            },
            FileState::Editing => {},
        }
        out
    }

    /// What a `WindowCloseRequest` does: with unsaved changes, the
    /// confirmation comes first and the window close is recorded as the
    /// follow-up; with the file clean, the window close is notified at
    /// once.
    pub open spec fn post_window_close(pre: Self, post: Self, out: Seq<SingleEffect>) -> bool {
        if pre.curr_file.last_saved is None {
            &&& post == Self { file_state: FileState::CloseWindow, ..pre }
            &&& out.len() == 1
            &&& out[0] matches SingleEffect::Notify(e)
            &&& e matches SingleEvent::CloseConfirm(p) && p@ == spec_path_or_untitled(pre.curr_file)
        } else {
            &&& post == pre
            &&& out.len() == 1
            &&& out[0] matches SingleEffect::Notify(e)
            &&& e is WindowClose
        }
    }

    fn handle_window_close(&mut self) -> (out: Vec<SingleEffect>)
        ensures
            Self::post_window_close(*old(self), *final(self), out@),
    {
        let mut out: Vec<SingleEffect> = Vec::new();
        if self.curr_file.last_saved.is_none() {
            self.file_state = FileState::CloseWindow;
            out.push(SingleEffect::Notify(SingleEvent::CloseConfirm(
                self.curr_file.path_or_untitled(),
            )));
        } else {
            out.push(SingleEffect::Notify(SingleEvent::WindowClose));
        }
        out
    }

    /// Processes one dequeued action to completion: mutates the current
    /// document and returns the effects the caller must carry out, in
    /// order.
    pub fn step(&mut self, action: SingleArchiverAction, now: u64) -> (out: Vec<SingleEffect>)
        ensures
            match action {
                SingleArchiverAction::NewRequest(force) => Self::post_new_request(
                    *old(self),
                    *final(self),
                    out@,
                    force,
                    now,
                ),
                SingleArchiverAction::SaveRequest(opt_path) => Self::post_save_request(
                    *old(self),
                    *final(self),
                    out@,
                    opt_path,
                ),
                SingleArchiverAction::SaveSuccess(path) => Self::post_save_success(
                    *old(self),
                    *final(self),
                    out@,
                    path,
                    now,
                ),
                SingleArchiverAction::SaveError(msg) => Self::post_error(
                    *old(self),
                    *final(self),
                    out@,
                    msg,
                ),
                SingleArchiverAction::FileChanged => Self::post_file_changed(
                    *old(self),
                    *final(self),
                    out@,
                ),
                SingleArchiverAction::OpenRequest(path) => Self::post_open_request(
                    *old(self),
                    *final(self),
                    out@,
                    path,
                ),
                SingleArchiverAction::OpenSuccess(path, content) => Self::post_open_success(
                    *old(self),
                    *final(self),
                    out@,
                    path,
                    content,
                    now,
                ),
                SingleArchiverAction::OpenError(msg) => Self::post_error(
                    *old(self),
                    *final(self),
                    out@,
                    msg,
                ),
                SingleArchiverAction::RequestShowOpen => Self::post_show_open(
                    *old(self),
                    *final(self),
                    out@,
                ),
                SingleArchiverAction::FileCloseRequest => Self::post_file_close(
                    *old(self),
                    *final(self),
                    out@,
                    now,
                ),
                SingleArchiverAction::WindowCloseRequest => Self::post_window_close(
                    *old(self),
                    *final(self),
                    out@,
                ),
            },
    {
        match action {
            SingleArchiverAction::NewRequest(force) => self.handle_new_request(force, now),
            SingleArchiverAction::SaveRequest(opt_path) => self.handle_save_request(opt_path),
            SingleArchiverAction::SaveSuccess(path) => self.handle_save_success(path, now),
            SingleArchiverAction::SaveError(msg) => self.handle_error(msg),
            SingleArchiverAction::FileChanged => self.handle_file_changed(),
            SingleArchiverAction::OpenRequest(path) => self.handle_open_request(path),
            SingleArchiverAction::OpenSuccess(path, content) => self.handle_open_success(
                path,
                content,
                now,
            ),
            SingleArchiverAction::OpenError(msg) => self.handle_error(msg),
            SingleArchiverAction::RequestShowOpen => self.handle_show_open(),
            SingleArchiverAction::FileCloseRequest => self.handle_file_close(now),
            SingleArchiverAction::WindowCloseRequest => self.handle_window_close(),
        }
    }
}

// ---------------------------------------------------------------------------
// Worker decisions
// ---------------------------------------------------------------------------

/// The check an open worker makes before reading: a relative target is
/// rejected without touching the disk.  `None` means the read may proceed.
pub fn open_target_check(path: &str) -> (r: Option<SingleArchiverAction>)
    ensures
        starts_with(path@, seq!['/']) <==> r is None,
        r matches Some(a) ==> a matches SingleArchiverAction::SaveError(m) && m@
            == crate::multi::msg_non_absolute(),
{
    let abs = str_starts_with(path, "/");
    proof {
        reveal_strlit("/");
        assert("/"@ =~= seq!['/']);
    }
    if abs {
        None
    } else {
        Some(SingleArchiverAction::SaveError(String::from_str("Using non-absolute path")))
    }
}

/// The checks a save worker makes before writing: a relative target, or a
/// target that is a directory, is rejected without a write.  The caller
/// supplies `is_dir`, the one fact only the filesystem knows.  `None`
/// means the write may proceed.
pub fn save_target_check(path: &str, is_dir: bool) -> (r: Option<SingleArchiverAction>)
    ensures
        !starts_with(path@, seq!['/']) ==> (r matches Some(a) && a matches
            SingleArchiverAction::SaveError(m) && m@ == crate::multi::msg_non_absolute()),
        starts_with(path@, seq!['/']) && is_dir ==> (r matches Some(a) && a matches
            SingleArchiverAction::SaveError(m) && m@ == crate::multi::msg_save_to_dir()),
        starts_with(path@, seq!['/']) && !is_dir ==> r is None,
{
    let abs = str_starts_with(path, "/");
    proof {
        reveal_strlit("/");
        assert("/"@ =~= seq!['/']);
    }
    if !abs {
        Some(SingleArchiverAction::SaveError(String::from_str("Using non-absolute path")))
    } else if is_dir {
        Some(
            SingleArchiverAction::SaveError(
                String::from_str("Tried to save file to directory path"),
            ),
        )
    } else {
        None
    }
}

/// The action a finished open worker reports: success carries the path and
/// the decoded content; a read error is forwarded.
pub fn open_read_outcome(path: String, read: Result<String, String>) -> (a: SingleArchiverAction)
    ensures
        match read {
            Result::Ok(content) => a matches SingleArchiverAction::OpenSuccess(p, c) && p == path
                && c == content,
            Result::Err(e) => a matches SingleArchiverAction::OpenError(m) && m == e,
        },
{
    match read {
        Ok(content) => SingleArchiverAction::OpenSuccess(path, content),
        Err(e) => SingleArchiverAction::OpenError(e),
    }
}

/// The action a finished save worker reports: success carries the path
/// written; a write error is forwarded.
pub fn save_write_outcome(path: String, write: Result<(), String>) -> (a: SingleArchiverAction)
    ensures
        match write {
            Result::Ok(_) => a matches SingleArchiverAction::SaveSuccess(p) && p == path,
            Result::Err(e) => a matches SingleArchiverAction::SaveError(m) && m == e,
        },
{
    match write {
        Ok(_) => SingleArchiverAction::SaveSuccess(path),
        Err(e) => SingleArchiverAction::SaveError(e),
    }
}

} // verus!
