//! A single text document: its content, the file that backs it, if any,
//! and whether it changed since it was last saved or loaded.

use vstd::prelude::*;
use vstd::string::StringExecFns;

verus! {

/// Title of a document that has no file.
pub open spec fn untitled() -> Seq<char> {
    seq!['U', 'n', 't', 'i', 't', 'l', 'e', 'd']
}

/// The final component of `path`, if it names one.
pub uninterp spec fn file_name_of(path: Seq<char>) -> Option<Seq<char>>;

/// Relies on `std::path::Path::file_name`: the final component of the
/// path, or nothing where the path ends in `..` or is a root or empty.
#[verifier::external_body]
fn file_name(path: &str) -> (r: Option<String>)
    ensures
        match r {
            Some(n) => file_name_of(path@) == Some(n@),
            None => file_name_of(path@) is None,
        },
{
    std::path::Path::new(path).file_name().map(|n| n.to_string_lossy().into_owned())
}

/// The text held by an optional string.
pub open spec fn opt_view(o: Option<String>) -> Option<Seq<char>> {
    match o {
        Some(s) => Some(s@),
        None => None,
    }
}

/// Title of a file at `path` whose final component is `name`: the name,
/// or the whole path where it names no final component.
pub open spec fn title_from_name(path: Seq<char>, name: Option<Seq<char>>) -> Seq<char> {
    match name {
        Some(n) => n,
        None => path,
    }
}

/// Title shown for a document backed by `path`, or by no file.
pub open spec fn title_spec(path: Option<Seq<char>>) -> Seq<char> {
    match path {
        Some(p) => title_from_name(p, file_name_of(p)),
        None => untitled(),
    }
}

/// Title of the file at `path`, given its final component `name`.
pub fn title_from(path: &str, name: Option<String>) -> (r: String)
    ensures
        r@ == title_from_name(path@, opt_view(name)),
{
    match name {
        Some(n) => n,
        None => path.to_owned(),
    }
}

/// Title shown for a document backed by the file at `path`.
pub fn title_of_path(path: &str) -> (r: String)
    ensures
        r@ == title_spec(Some(path@)),
{
    let name = file_name(path);
    title_from(path, name)
}

fn untitled_string() -> (r: String)
    ensures
        r@ == untitled(),
{
    let r = "Untitled".to_owned();
    proof {
        reveal_strlit("Untitled");
    }
    r
}

/// What a document is: its title, its text, the file that backs it and
/// whether the text changed since it was last saved or loaded.
pub ghost struct Doc {
    pub title: Seq<char>,
    pub content: Seq<char>,
    pub path: Option<Seq<char>>,
    pub modified: bool,
}

/// A fresh document: no file, no text, nothing to save.
pub open spec fn blank_doc() -> Doc {
    Doc { title: untitled(), content: Seq::empty(), path: None, modified: false }
}

/// A document holding the text of the file at `path`, as just read.
pub open spec fn loaded_doc(path: Seq<char>, content: Seq<char>) -> Doc {
    Doc { title: title_spec(Some(path)), content, path: Some(path), modified: false }
}

/// A document whose text was just written to `path`.
pub open spec fn saved_doc(d: Doc, path: Seq<char>) -> Doc {
    Doc { title: title_spec(Some(path)), content: d.content, path: Some(path), modified: false }
}

/// `d` with its text replaced by `content`, as typing does.
pub open spec fn edited_doc(d: Doc, content: Seq<char>) -> Doc {
    Doc { content, modified: true, ..d }
}

/// Text of the label of a document in the tab strip: the title, followed by
/// a marker where it has unsaved changes.
pub open spec fn label_spec(d: Doc) -> Seq<char> {
    if d.modified {
        d.title + seq![' ', '*']
    } else {
        d.title
    }
}

/// Where saving a document goes.
pub enum SaveTarget {
    /// Write the content to this file.
    Write(String),
    /// The document has no file yet: ask for one, as "save as" does.
    NoPath,
}

/// One open document.
pub struct Tab {
    title: String,
    content: String,
    file_path: Option<String>,
    modified: bool,
}

impl View for Tab {
    type V = Doc;

    closed spec fn view(&self) -> Doc {
        Doc {
            title: self.title@,
            content: self.content@,
            path: opt_view(self.file_path),
            modified: self.modified,
        }
    }
}

impl Tab {
    /// The title always follows from the file that backs the document.
    pub open spec fn wf(&self) -> bool {
        self@.title == title_spec(self@.path)
    }

    /// A fresh, blank document.
    pub fn new() -> (r: Tab)
        ensures
            r.wf(),
            r@ == blank_doc(),
    {
        Tab { title: untitled_string(), content: String::new(), file_path: None, modified: false }
    }

    /// A document holding `content`, just read from the file at `path`.
    pub fn loaded(path: String, content: String) -> (r: Tab)
        ensures
            r.wf(),
            r@ == loaded_doc(path@, content@),
    {
        let title = title_of_path(path.as_str());
        Tab { title, content, file_path: Some(path), modified: false }
    }

    /// Takes in the outcome of reading the file at `path`: on success
    /// (`read` holds the text) the document shows that file, unmodified;
    /// on failure it stays as it was. Returns whether it loaded.
    pub fn load(&mut self, path: String, read: Option<String>) -> (r: bool)
        requires
            old(self).wf(),
        ensures
            final(self).wf(),
            r == read is Some,
            match read {
                Some(c) => final(self)@ == loaded_doc(path@, c@),
                None => final(self)@ == old(self)@,
            },
    {
        match read {
            Some(c) => {
                *self = Tab::loaded(path, c);
                true
            },
            None => false,
        }
    }

    /// Where saving goes: to the document's own file, or, where it has
    /// none, nowhere yet (the caller then asks for a file, as "save as").
    pub fn save(&self) -> (r: SaveTarget)
        ensures
            match r {
                SaveTarget::Write(p) => self@.path == Some(p@),
                SaveTarget::NoPath => self@.path is None,
            },
    {
        match &self.file_path {
            Some(p) => SaveTarget::Write(p.clone()),
            None => SaveTarget::NoPath,
        }
    }

    /// Takes in the outcome of writing the content to `path`, the
    /// document's own file or one chosen for "save as": on success the
    /// document is backed by that file and unmodified; on failure it stays
    /// as it was. Returns whether it was saved.
    pub fn finish_save(&mut self, path: String, written: bool) -> (r: bool)
        requires
            old(self).wf(),
        ensures
            final(self).wf(),
            r == written,
            written ==> final(self)@ == saved_doc(old(self)@, path@),
            !written ==> final(self)@ == old(self)@,
    {
        if written {
            self.title = title_of_path(path.as_str());
            self.file_path = Some(path);
            self.modified = false;
        }
        written
    }

    /// Replaces the text, as the user's typing does; the document then has
    /// unsaved changes.
    pub fn edit(&mut self, content: String)
        requires
            old(self).wf(),
        ensures
            final(self).wf(),
            final(self)@ == edited_doc(old(self)@, content@),
    {
        self.content = content;
        self.modified = true;
    }

    /// The title: the file's name, or "Untitled" where there is no file.
    pub fn title(&self) -> (r: &str)
        ensures
            r@ == self@.title,
    {
        self.title.as_str()
    }

    /// The text.
    pub fn content(&self) -> (r: &str)
        ensures
            r@ == self@.content,
    {
        self.content.as_str()
    }

    /// The file that backs the document, if any.
    pub fn file_path(&self) -> (r: Option<&str>)
        ensures
            match r {
                Some(p) => self@.path == Some(p@),
                None => self@.path is None,
            },
    {
        match &self.file_path {
            Some(p) => Some(p.as_str()),
            None => None,
        }
    }

    /// Whether the text changed since it was last saved or loaded.
    pub fn is_modified(&self) -> (r: bool)
        ensures
            r == self@.modified,
    {
        self.modified
    }

    /// The label of the document in the tab strip: its title, and ` *`
    /// after it where it has unsaved changes.
    pub fn label(&self) -> (r: String)
        ensures
            r@ == label_spec(self@),
    {
        let t = self.title.clone();
        if self.modified {
            let r = t.concat(" *");
            proof {
                reveal_strlit(" *");
            }
            r
        } else {
            t
        }
    }
}

/// Saving a document that has a file, and then loading that file, gives
/// back the text that was saved: where `files` is what the file system
/// holds, writing the text to the document's file and reading it back
/// yields that text, and the document loaded from it is the one saved.
pub proof fn lemma_save_then_load(d: Doc, files: Map<Seq<char>, Seq<char>>)
    requires
        d.path is Some,
    ensures
        ({
            let p = d.path->0;
            let written = files.insert(p, d.content);
            &&& written.contains_key(p)
            &&& loaded_doc(p, written[p]).content == d.content
            &&& loaded_doc(p, written[p]) == saved_doc(d, p)
        }),
{
}

/// A document has no unsaved changes when it is created, after it is
/// loaded, and after it is saved to its own file or to a chosen one; it
/// has some after any edit.
pub proof fn lemma_modified_flag(d: Doc, path: Seq<char>, content: Seq<char>)
    ensures
        !blank_doc().modified,
        !loaded_doc(path, content).modified,
        !saved_doc(d, path).modified,
        edited_doc(d, content).modified,
{
}

} // verus!
