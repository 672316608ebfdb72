//! Keeping the served document in step with the file.
//!
//! The process that serves a document listens to a file notifier. What the
//! listener decides stands here, free of any I/O: which notices call for a
//! reload, and what a reload does to the document being served. The caller
//! reads the file and holds the lock.

use crate::error::{Error, Fault};
use crate::setting::{Document, Setting};
use vstd::prelude::*;

verus! {

/// What a modification changed, as far as the notifier can tell.
#[derive(Clone, Copy, Debug, PartialEq, Eq, Structural)]
pub enum Change {
    /// The notifier does not say.
    Any,
    /// The content.
    Data,
    /// Nothing but the metadata: times, owner, permissions.
    Metadata,
    /// The name.
    Name,
    /// Something that has no kind of its own.
    Other,
}

/// The kinds of event that a file notifier tells apart.
#[derive(Clone, Copy, Debug, PartialEq, Eq, Structural)]
pub enum EventKind {
    Any,
    Access,
    Create,
    Modify(Change),
    Remove,
    Other,
}

impl EventKind {
    /// Whether the event is a modification that may have changed the
    /// file's content: any modification but one of the metadata alone.
    pub open spec fn touches_content(self) -> bool {
        self matches EventKind::Modify(change) && change != Change::Metadata
    }

    /// Whether the event is a modification.
    pub fn is_modify(&self) -> (r: bool)
        ensures
            r == (*self is Modify),
    {
        match self {
            EventKind::Modify(_) => true,
            _ => false,
        }
    }

    /// Whether the event is a modification that may have changed the
    /// file's content.
    pub fn is_content_change(&self) -> (r: bool)
        ensures
            r == self.touches_content(),
    {
        match self {
            EventKind::Modify(Change::Metadata) => false,
            EventKind::Modify(_) => true,
            _ => false,
        }
    }
}

/// What a notifier hands its listener: an event on the watched file, or word
/// of its own failure.
#[derive(Debug)]
pub enum Notice {
    Event(EventKind),
    Failure(String),
}

/// What the listener does about a notice.
#[derive(Debug)]
pub enum Task {
    /// Read the file again and install what it gives.
    Reload,
    /// Nothing.
    Ignore,
    /// Report the error; the document stays as it is.
    Report(Error),
}

/// What a reload did to the document being served.
#[derive(Debug)]
pub enum Outcome {
    /// The new document is being served.
    Replaced,
    /// The load failed with this error; the document stayed as it was.
    Kept(Error),
}

impl Notice {
    /// Decides what to do about this notice: a modification that may have
    /// changed the file's content calls for a reload, any other event for
    /// nothing, and a failure of the notifier for a report.
    pub fn task(self) -> (t: Task)
        ensures
            match self {
                Notice::Event(kind) => if kind.touches_content() {
                    t is Reload
                } else {
                    t is Ignore
                },
                Notice::Failure(m) => t matches Task::Report(e) && e@ == Fault::Watch(m@),
            },
    {
        match self {
            Notice::Event(kind) => {
                if kind.is_content_change() {
                    Task::Reload
                } else {
                    Task::Ignore
                }
            },
            Notice::Failure(m) => Task::Report(Error::Watch(m)),
        }
    }
}

impl Document {
    /// The document served after a reload that found `text` in the file: the
    /// one that `text` gives, or this one where it gives none.
    pub open spec fn reloaded(self, text: Seq<char>) -> Document {
        match Setting::loaded(text) {
            Some(d) => d,
            None => self,
        }
    }

    /// The document served after an event of the kind `kind`, the file
    /// holding `text` at that moment.
    pub open spec fn after(self, kind: EventKind, text: Seq<char>) -> Document {
        if kind.touches_content() {
            self.reloaded(text)
        } else {
            self
        }
    }

    /// The document served after the events `events`, each with the text
    /// that the file held when it came.
    pub open spec fn replay(self, events: Seq<(EventKind, Seq<char>)>) -> Document
        decreases events.len(),
    {
        if events.len() == 0 {
            self
        } else {
            self.replay(events.drop_last()).after(events.last().0, events.last().1)
        }
    }
}

impl Setting {
    /// Ends a reload: serves `loaded` where the load gave a document, and
    /// keeps serving this one where it failed.
    pub fn install(&mut self, loaded: Result<Setting, Error>) -> (o: Outcome)
        ensures
            match loaded {
                Ok(new) => *final(self) == new && o is Replaced,
                Err(e) => *final(self) == *old(self) && o == Outcome::Kept(e),
            },
    {
        match loaded {
            Ok(new) => {
                *self = new;
                Outcome::Replaced
            },
            Err(e) => Outcome::Kept(e),
        }
    }

    /// Reloads from the content that the file has now.
    pub fn reload(&mut self, text: &str) -> (o: Outcome)
        ensures
            final(self)@ == old(self)@.reloaded(text@),
            o is Replaced <==> Setting::loaded(text@) is Some,
            o is Kept ==> *final(self) == *old(self),
    {
        let loaded = Setting::read(text);
        self.install(loaded)
    }
}


/// After a modification of the content of a file whose text gives a
/// document, that document is served, whatever was served before.
pub proof fn lemma_reload_replaces(current: Document, kind: EventKind, text: Seq<char>)
    requires
        kind.touches_content(),
        Setting::loaded(text) is Some,
    ensures
        current.after(kind, text) == Setting::loaded(text).unwrap(),
{
}

/// After an event on a file whose text gives no document, the same document
/// is served as before; so it is after any event that leaves the content
/// alone.
pub proof fn lemma_failure_keeps(current: Document, kind: EventKind, text: Seq<char>)
    requires
        Setting::loaded(text) is None || !kind.touches_content(),
    ensures
        current.after(kind, text) == current,
{
}

/// A second event on an unchanged file changes nothing.
pub proof fn lemma_repeated_event(current: Document, kind: EventKind, text: Seq<char>)
    ensures
        current.after(kind, text).after(kind, text) == current.after(kind, text),
{
}

/// Whatever events come, the document served is the first one or the whole
/// of what some modified file gave: never a part of one and a part of
/// another.
pub proof fn lemma_served_is_loaded(first: Document, events: Seq<(EventKind, Seq<char>)>)
    ensures
        first.replay(events) == first || exists|i: int|
            0 <= i < events.len() && (#[trigger] events[i]).0.touches_content()
                && Setting::loaded(events[i].1) == Some(first.replay(events)),
    decreases events.len(),
{
    if events.len() > 0 {
        let before = events.drop_last();
        let last = events.last();
        lemma_served_is_loaded(first, before);
        if last.0.touches_content() && Setting::loaded(last.1) is Some {
            assert(events[events.len() - 1] == last);
        } else if first.replay(before) != first {
            let i = choose|i: int|
                0 <= i < before.len() && (#[trigger] before[i]).0.touches_content()
                    && Setting::loaded(before[i].1) == Some(first.replay(before));
            assert(events[i] == before[i]);
        }
    }
}

} // verus!
