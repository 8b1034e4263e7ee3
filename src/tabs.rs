//! The ordered collection of open documents, one of which is active.

use vstd::prelude::*;
use crate::document::{blank_doc, edited_doc, loaded_doc, saved_doc, Doc, SaveTarget, Tab};

verus! {

/// What the collection is: its documents in tab order, and the position
/// of the active one.
pub ghost struct Session {
    pub docs: Seq<Doc>,
    pub active: nat,
}

/// A collection that holds one blank document, active.
pub open spec fn fresh_session() -> Session {
    Session { docs: seq![blank_doc()], active: 0 }
}

/// `s` with `d` added at the end and made active.
pub open spec fn append_spec(s: Session, d: Doc) -> Session {
    Session { docs: s.docs.push(d), active: s.docs.len() }
}

/// `s` after closing the document at `index`. Where none is left, a blank
/// one takes its place. Otherwise the active position moves down by one
/// where it was at or after `index` (and above 0), so that the selection
/// stays on a neighbour; before `index` it stays as it was.
pub open spec fn close_spec(s: Session, index: nat) -> Session {
    let rest = s.docs.remove(index as int);
    if rest.len() == 0 {
        fresh_session()
    } else if s.active >= index && s.active > 0 {
        Session { docs: rest, active: (s.active - 1) as nat }
    } else {
        Session { docs: rest, active: s.active }
    }
}

/// `s` with the active document replaced by `d`.
pub open spec fn update_active(s: Session, d: Doc) -> Session {
    Session { docs: s.docs.update(s.active as int, d), active: s.active }
}

/// Closing the only document leaves exactly one document, blank and
/// unmodified, and active.
pub proof fn lemma_close_last(s: Session)
    requires
        s.docs.len() == 1,
        s.active == 0,
    ensures
        close_spec(s, 0) == fresh_session(),
        close_spec(s, 0).docs.len() == 1,
        close_spec(s, 0).docs[0] == blank_doc(),
        !close_spec(s, 0).docs[0].modified,
        close_spec(s, 0).active == 0,
{
}

/// Closing a document before the active one moves the active position
/// down by one, so it stays on the same document.
pub proof fn lemma_close_before_active(s: Session, index: nat)
    requires
        s.active < s.docs.len(),
        index < s.active,
    ensures
        close_spec(s, index).active == s.active - 1,
        close_spec(s, index).docs[close_spec(s, index).active as int] == s.docs[s.active as int],
{
}

/// Closing a document after the active one leaves the active position,
/// and the active document, as they were.
pub proof fn lemma_close_after_active(s: Session, index: nat)
    requires
        s.active < index,
        index < s.docs.len(),
    ensures
        close_spec(s, index).active == s.active,
        close_spec(s, index).docs[s.active as int] == s.docs[s.active as int],
{
}

/// Closing a document of a collection that holds one or more keeps the
/// active position within the collection, which is never empty.
pub proof fn lemma_close_keeps_active_valid(s: Session, index: nat)
    requires
        s.active < s.docs.len(),
        index < s.docs.len(),
    ensures
        close_spec(s, index).docs.len() > 0,
        close_spec(s, index).active < close_spec(s, index).docs.len(),
{
}

/// The open documents of the editor.
pub struct NotepadApp {
    tabs: Vec<Tab>,
    current_tab: usize,
}

impl View for NotepadApp {
    type V = Session;

    closed spec fn view(&self) -> Session {
        Session { docs: self.tabs@.map_values(|t: Tab| t@), active: self.current_tab as nat }
    }
}

impl NotepadApp {
    /// Never empty, the active position names a document, and each
    /// document's title follows from its file.
    pub closed spec fn wf(&self) -> bool {
        &&& self.tabs.len() > 0
        &&& self.current_tab < self.tabs.len()
        &&& forall|i: int| 0 <= i < self.tabs.len() ==> (#[trigger] self.tabs[i]).wf()
    }

    /// An editor with one blank document, active.
    pub fn new() -> (r: NotepadApp)
        ensures
            r.wf(),
            r@ == fresh_session(),
    {
        let r = NotepadApp { tabs: vec![Tab::new()], current_tab: 0 };
        assert(r@.docs =~= fresh_session().docs);
        r
    }

    fn push_tab(&mut self, t: Tab)
        requires
            old(self).wf(),
            t.wf(),
        ensures
            final(self).wf(),
            final(self)@ == append_spec(old(self)@, t@),
    {
        self.tabs.push(t);
        self.current_tab = self.tabs.len() - 1;
        assert(self@.docs =~= old(self)@.docs.push(t@));
    }

    /// Adds a blank document at the end and makes it active.
    pub fn new_tab(&mut self)
        requires
            old(self).wf(),
        ensures
            final(self).wf(),
            final(self)@ == append_spec(old(self)@, blank_doc()),
    {
        self.push_tab(Tab::new());
    }

    /// Takes in the outcome of reading the file at `path`: on success
    /// (`read` holds its text) the document is added at the end and made
    /// active; on failure nothing changes. Returns whether it opened.
    pub fn open_file(&mut self, path: String, read: Option<String>) -> (r: bool)
        requires
            old(self).wf(),
        ensures
            final(self).wf(),
            r == read is Some,
            match read {
                Some(c) => final(self)@ == append_spec(old(self)@, loaded_doc(path@, c@)),
                None => final(self)@ == old(self)@,
            },
    {
        match read {
            Some(c) => {
                self.push_tab(Tab::loaded(path, c));
                true
            },
            None => false,
        }
    }

    /// Closes the document at `index`; the collection is never left empty.
    pub fn close_tab(&mut self, index: usize)
        requires
            old(self).wf(),
            index < old(self)@.docs.len(),
        ensures
            final(self).wf(),
            final(self)@ == close_spec(old(self)@, index as nat),
    {
        self.tabs.remove(index);
        assert(self@.docs =~= old(self)@.docs.remove(index as int));
        if self.tabs.len() == 0 {
            self.tabs.push(Tab::new());
            self.current_tab = 0;
            assert(self@.docs =~= fresh_session().docs);
        } else if self.current_tab >= index && self.current_tab > 0 {
            self.current_tab = self.current_tab - 1;
        }
    }

    /// Makes the document at `index` active.
    pub fn select_tab(&mut self, index: usize)
        requires
            old(self).wf(),
            index < old(self)@.docs.len(),
        ensures
            final(self).wf(),
            final(self)@ == (Session { active: index as nat, ..old(self)@ }),
    {
        self.current_tab = index;
    }

    /// Number of open documents.
    pub fn tab_count(&self) -> (r: usize)
        ensures
            r == self@.docs.len(),
    {
        self.tabs.len()
    }

    /// Position of the active document.
    pub fn active_index(&self) -> (r: usize)
        ensures
            r == self@.active,
    {
        self.current_tab
    }

    /// The document at `index`.
    pub fn tab(&self, index: usize) -> (r: &Tab)
        requires
            index < self@.docs.len(),
        ensures
            r@ == self@.docs[index as int],
    {
        &self.tabs[index]
    }

    /// The active document.
    pub fn active_tab(&self) -> (r: &Tab)
        requires
            self.wf(),
        ensures
            r@ == self@.docs[self@.active as int],
    {
        &self.tabs[self.current_tab]
    }

    /// Replaces the text of the active document, as the user's typing does.
    pub fn edit_active(&mut self, content: String)
        requires
            old(self).wf(),
        ensures
            final(self).wf(),
            final(self)@ == update_active(
                old(self)@,
                edited_doc(old(self)@.docs[old(self)@.active as int], content@),
            ),
    {
        let i = self.current_tab;
        self.tabs[i].edit(content);
        assert(self@.docs =~= update_active(old(self)@, edited_doc(old(self)@.docs[i as int], content@)).docs);
    }

    /// Where saving the active document goes.
    pub fn save_active(&self) -> (r: SaveTarget)
        requires
            self.wf(),
        ensures
            match r {
                SaveTarget::Write(p) => self@.docs[self@.active as int].path == Some(p@),
                SaveTarget::NoPath => self@.docs[self@.active as int].path is None,
            },
    {
        self.tabs[self.current_tab].save()
    }

    /// Takes in the outcome of writing the active document's text to
    /// `path`: on success it is backed by that file and unmodified; on
    /// failure nothing changes. Returns whether it was saved.
    pub fn finish_save_active(&mut self, path: String, written: bool) -> (r: bool)
        requires
            old(self).wf(),
        ensures
            final(self).wf(),
            r == written,
            written ==> final(self)@ == update_active(
                old(self)@,
                saved_doc(old(self)@.docs[old(self)@.active as int], path@),
            ),
            !written ==> final(self)@ == old(self)@,
    {
        let i = self.current_tab;
        let ghost p = path@;
        let r = self.tabs[i].finish_save(path, written);
        if written {
            assert(self@.docs =~= update_active(old(self)@, saved_doc(old(self)@.docs[i as int], p)).docs);
        } else {
            assert(self@.docs =~= old(self)@.docs);
        }
        r
    }
}

} // verus!
