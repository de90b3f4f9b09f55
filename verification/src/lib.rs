//! An action-driven archiving engine for editing applications.
//!
//! The engine tracks the set of documents open in an editor and serializes
//! every open/save/close/select request into one consistent stream of state
//! transitions.  All decisions are made by pure, verified step functions:
//! a caller (the event loop that owns the action queue) feeds actions in and
//! carries the returned effects out (notifications to fire, actions to
//! re-enqueue, background reads or writes to start).
//!
//! Two variants share this design: a multi-document registry (a bounded,
//! indexed list of open files) and a single-document tracker (one current
//! file, replaced wholesale on new/open).

pub mod multi;
pub mod single;
pub mod text;

pub use multi::FinalState;
pub use multi::MultiArchiver;
pub use multi::MultiArchiverAction;
pub use multi::MultiEffect;
pub use multi::MultiEvent;
pub use multi::OpenedFile;
pub use multi::remove_file;
pub use single::CurrentFile;
pub use single::FileState;
pub use single::SingleArchiver;
pub use single::SingleArchiverAction;
pub use single::SingleEffect;
pub use single::SingleEvent;
