use vstd::prelude::*;

verus! {

/// The mathematical view of one document: its path relative to the
/// repository root, its resolved path (the root joined with the relative
/// path), its file name, and its decoded text content (`None` when the
/// file's bytes did not decode as text).
pub struct DocModel {
    pub rel_path: Seq<char>,
    pub abs_path: Seq<char>,
    pub name: Seq<char>,
    pub content: Option<Seq<char>>,
}

/// The view of a document's optional decoded content.
pub open spec fn content_view(c: Option<String>) -> Option<Seq<char>> {
    match c {
        Option::Some(s) => Option::Some(s@),
        Option::None => Option::None,
    }
}

/// One document found by a search: a file under the repository root.
pub struct Doc {
    /// Path relative to the repository root, components joined by `/`.
    pub rel_path: String,
    /// The repository root joined with `rel_path`: the path a handler opens.
    pub abs_path: String,
    /// The file name: the last component of the path.
    pub name: String,
    /// The decoded text content; `None` when the file is binary, that is,
    /// when its bytes did not decode as text.
    pub content: Option<String>,
}

impl Doc {
    /// The mathematical view of this document.
    pub open spec fn model(&self) -> DocModel {
        DocModel {
            rel_path: self.rel_path@,
            abs_path: self.abs_path@,
            name: self.name@,
            content: content_view(self.content),
        }
    }
}

impl Clone for Doc {
    /// The copy describes the same document.
    fn clone(&self) -> (r: Self)
        ensures
            r.model() == self.model(),
    {
        Doc {
            rel_path: self.rel_path.clone(),
            abs_path: self.abs_path.clone(),
            name: self.name.clone(),
            content: match &self.content {
                Option::Some(s) => Option::Some(s.clone()),
                Option::None => Option::None,
            },
        }
    }
}

/// A best-effort content-type hint, so an external collaborator can pick
/// a handler for the document.
#[derive(Clone, Copy, PartialEq, Eq, Structural, Debug)]
pub enum ContentKind {
    Markdown,
    PlainText,
    Binary,
}

/// What an external collaborator is asked to do with a document.
#[derive(Clone, Copy, PartialEq, Eq, Structural, Debug)]
pub enum HandlerAction {
    View,
    Edit,
    Run,
}

/// Everything the library supplies to an external handler: the action, the
/// resolved path of the document, and a content-type hint. Launching the
/// handler is outside the library.
pub struct HandlerRequest {
    pub action: HandlerAction,
    pub path: String,
    pub kind: ContentKind,
}

/// The name ends in the markdown extension `.md`.
pub open spec fn has_markdown_extension(name: Seq<char>) -> bool {
    name.len() >= 3 && name[name.len() - 3] == '.' && name[name.len() - 2] == 'm'
        && name[name.len() - 1] == 'd'
}

/// The content-type hint of a document: binary when its bytes did not
/// decode as text, markdown when its name ends in `.md`, plain text
/// otherwise.
pub open spec fn kind_of(d: DocModel) -> ContentKind {
    if d.content is None {
        ContentKind::Binary
    } else if has_markdown_extension(d.name) {
        ContentKind::Markdown
    } else {
        ContentKind::PlainText
    }
}

/// The largest index `j` with `0 < j <= i` such that `name[j]` is a dot,
/// or 0 when no such index exists.
pub open spec fn last_dot_at_or_before(name: Seq<char>, i: int) -> int
    decreases i,
{
    if i <= 0 {
        0
    } else if name[i] == '.' {
        i
    } else {
        last_dot_at_or_before(name, i - 1)
    }
}

/// The title of a document: its file name without the extension — the
/// part before the last dot. A name without a dot, or with only a
/// leading one, is its own title.
pub open spec fn title_of(name: Seq<char>) -> Seq<char> {
    if name.len() == 0 {
        name
    } else {
        let j = last_dot_at_or_before(name, name.len() - 1);
        if j > 0 {
            name.subrange(0, j)
        } else {
            name
        }
    }
}

impl Doc {
    /// The document's title: its file name without the extension.
    pub fn title(&self) -> (r: String)
        ensures
            r@ == title_of(self.name@),
    {
        let len = self.name.as_str().unicode_len();
        if len == 0 {
            return self.name.clone();
        }
        let mut i: usize = len - 1;
        while i > 0
            invariant
                i <= len - 1,
                1 <= len,
                len == self.name@.len(),
                last_dot_at_or_before(self.name@, len - 1) == last_dot_at_or_before(
                    self.name@,
                    i as int,
                ),
            decreases i,
        {
            if self.name.as_str().get_char(i) == '.' {
                let t = self.name.as_str().substring_char(0, i);
                proof {
                    assert(last_dot_at_or_before(self.name@, i as int) == i as int);
                }
                return t.to_owned();
            }
            proof {
                assert(last_dot_at_or_before(self.name@, i as int) == last_dot_at_or_before(
                    self.name@,
                    i - 1,
                ));
            }
            i = i - 1;
        }
        self.name.clone()
    }

    /// The content-type hint for this document.
    pub fn content_kind(&self) -> (r: ContentKind)
        ensures
            r == kind_of(self.model()),
    {
        if self.content.is_none() {
            return ContentKind::Binary;
        }
        let len = self.name.as_str().unicode_len();
        if len >= 3 {
            let dot = self.name.as_str().get_char(len - 3);
            let m = self.name.as_str().get_char(len - 2);
            let d = self.name.as_str().get_char(len - 1);
            if dot == '.' && m == 'm' && d == 'd' {
                ContentKind::Markdown
            } else {
                ContentKind::PlainText
            }
        } else {
            ContentKind::PlainText
        }
    }

    /// Hand the document to the OS-registered viewer: the library's part is
    /// the request alone; invoking the viewer is an external concern.
    pub fn view(&self) -> (r: HandlerRequest)
        ensures
            r.action == HandlerAction::View,
            r.path@ == self.model().abs_path,
            r.kind == kind_of(self.model()),
    {
        HandlerRequest {
            action: HandlerAction::View,
            path: self.abs_path.clone(),
            kind: self.content_kind(),
        }
    }

    /// Hand the document to the user's configured editor; as with `view`,
    /// the library supplies the request alone.
    pub fn edit(&self) -> (r: HandlerRequest)
        ensures
            r.action == HandlerAction::Edit,
            r.path@ == self.model().abs_path,
            r.kind == kind_of(self.model()),
    {
        HandlerRequest {
            action: HandlerAction::Edit,
            path: self.abs_path.clone(),
            kind: self.content_kind(),
        }
    }

    /// Hand the document to an execution context; as with `view`, the
    /// library supplies the request alone.
    pub fn run(&self) -> (r: HandlerRequest)
        ensures
            r.action == HandlerAction::Run,
            r.path@ == self.model().abs_path,
            r.kind == kind_of(self.model()),
    {
        HandlerRequest {
            action: HandlerAction::Run,
            path: self.abs_path.clone(),
            kind: self.content_kind(),
        }
    }
}

} // verus!
