use vstd::prelude::*;

use crate::doc::content_view;
use crate::doc::Doc;
use crate::doc::DocModel;

verus! {

/// One entry of a snapshot of the repository's directory tree, as the
/// walker at the edge of the system reported it: a file with its decoded
/// content, a folder with the entries listed inside it, or a folder whose
/// listing failed (for example with a permission error).
pub enum Entry {
    File { name: String, content: Option<String> },
    Folder { name: String, entries: Vec<Entry> },
    DeniedFolder { name: String },
}

/// A name marks a hidden entry when it starts with a dot.
pub open spec fn hidden_name(name: Seq<char>) -> bool {
    name.len() > 0 && name[0] == '.'
}

/// The path separator between components.
pub open spec fn sep() -> Seq<char> {
    "/"@
}

/// The name of an entry.
pub open spec fn entry_name(e: Entry) -> Seq<char> {
    match e {
        Entry::File { name, .. } => name@,
        Entry::Folder { name, .. } => name@,
        Entry::DeniedFolder { name } => name@,
    }
}

/// An entry takes part in a search when it is not hidden, or when the
/// query asks for hidden entries too.
pub open spec fn entry_visible(e: Entry, include_hidden: bool) -> bool {
    include_hidden || !hidden_name(entry_name(e))
}

/// The documents below one entry, in depth-first traversal order. `rel`
/// and `abs` are the relative and resolved paths of the folder the entry
/// sits in, each either empty or ending in the separator.
pub open spec fn docs_of_entry(
    e: Entry,
    rel: Seq<char>,
    abs: Seq<char>,
    include_hidden: bool,
) -> Seq<DocModel>
    decreases e,
{
    if !entry_visible(e, include_hidden) {
        Seq::empty()
    } else {
        match e {
            Entry::File { name, content } => seq![
                DocModel {
                    rel_path: rel + name@,
                    abs_path: abs + name@,
                    name: name@,
                    content: content_view(content),
                },
            ],
            Entry::Folder { name, entries } => docs_of_entries(
                entries@,
                rel + name@ + sep(),
                abs + name@ + sep(),
                include_hidden,
            ),
            Entry::DeniedFolder { .. } => Seq::empty(),
        }
    }
}

/// The documents below a run of sibling entries, left to right.
pub open spec fn docs_of_entries(
    es: Seq<Entry>,
    rel: Seq<char>,
    abs: Seq<char>,
    include_hidden: bool,
) -> Seq<DocModel>
    decreases es,
{
    if es.len() == 0 {
        Seq::empty()
    } else {
        docs_of_entries(es.subrange(0, es.len() - 1), rel, abs, include_hidden)
            + docs_of_entry(es[es.len() - 1], rel, abs, include_hidden)
    }
}

/// The relative paths of the folders below one entry whose listing
/// failed, in depth-first traversal order.
pub open spec fn denied_of_entry(e: Entry, rel: Seq<char>, include_hidden: bool) -> Seq<
    Seq<char>,
>
    decreases e,
{
    if !entry_visible(e, include_hidden) {
        Seq::empty()
    } else {
        match e {
            Entry::File { .. } => Seq::empty(),
            Entry::Folder { name, entries } => denied_of_entries(
                entries@,
                rel + name@ + sep(),
                include_hidden,
            ),
            Entry::DeniedFolder { name } => seq![rel + name@],
        }
    }
}

/// The relative paths of unreadable folders below a run of sibling
/// entries, left to right.
pub open spec fn denied_of_entries(es: Seq<Entry>, rel: Seq<char>, include_hidden: bool) -> Seq<
    Seq<char>,
>
    decreases es,
{
    if es.len() == 0 {
        Seq::empty()
    } else {
        denied_of_entries(es.subrange(0, es.len() - 1), rel, include_hidden)
            + denied_of_entry(es[es.len() - 1], rel, include_hidden)
    }
}

/// The views of a run of collected documents.
pub open spec fn doc_views(s: Seq<Doc>) -> Seq<DocModel> {
    s.map_values(|d: Doc| d.model())
}

/// The views of a run of collected paths.
pub open spec fn path_views(s: Seq<String>) -> Seq<Seq<char>> {
    s.map_values(|p: String| p@)
}

/// Whether a name marks a hidden entry.
fn is_hidden(name: &String) -> (r: bool)
    ensures
        r == hidden_name(name@),
{
    if name.as_str().unicode_len() == 0 {
        false
    } else {
        name.as_str().get_char(0) == '.'
    }
}

/// `a` followed by `b`.
fn concat_str(a: &String, b: &String) -> (r: String)
    ensures
        r@ == a@ + b@,
{
    let mut r = a.clone();
    r.append(b.as_str());
    r
}

/// `a` followed by `b` and the separator: the path prefix of the entries
/// inside a folder named `b` sitting under the prefix `a`.
fn concat_dir(a: &String, b: &String) -> (r: String)
    ensures
        r@ == a@ + b@ + sep(),
{
    let mut r = a.clone();
    r.append(b.as_str());
    r.append("/");
    r
}

/// A copy of a document's optional decoded content.
fn clone_content(c: &Option<String>) -> (r: Option<String>)
    ensures
        content_view(r) == content_view(*c),
{
    match c {
        Option::Some(s) => Option::Some(s.clone()),
        Option::None => Option::None,
    }
}

/// Walks one entry, appending every visible document below it to `docs`
/// and the relative path of every visible unreadable folder to `denied`.
fn collect_entry(
    e: &Entry,
    rel: &String,
    abs: &String,
    include_hidden: bool,
    docs: &mut Vec<Doc>,
    denied: &mut Vec<String>,
)
    ensures
        doc_views(final(docs)@) == doc_views(old(docs)@) + docs_of_entry(
            *e,
            rel@,
            abs@,
            include_hidden,
        ),
        path_views(final(denied)@) == path_views(old(denied)@) + denied_of_entry(
            *e,
            rel@,
            include_hidden,
        ),
    decreases *e,
{
    match e {
        Entry::File { name, content } => {
            if include_hidden || !is_hidden(name) {
                let d = Doc {
                    rel_path: concat_str(rel, name),
                    abs_path: concat_str(abs, name),
                    name: name.clone(),
                    content: clone_content(content),
                };
                proof {
                    assert(docs_of_entry(*e, rel@, abs@, include_hidden) =~= seq![d.model()]);
                }
                docs.push(d);
                proof {
                    assert(doc_views(docs@) =~= doc_views(old(docs)@) + seq![d.model()]);
                    assert(path_views(denied@) =~= path_views(old(denied)@) + denied_of_entry(
                        *e,
                        rel@,
                        include_hidden,
                    ));
                }
            } else {
                proof {
                    assert(doc_views(docs@) =~= doc_views(old(docs)@) + docs_of_entry(
                        *e,
                        rel@,
                        abs@,
                        include_hidden,
                    ));
                    assert(path_views(denied@) =~= path_views(old(denied)@) + denied_of_entry(
                        *e,
                        rel@,
                        include_hidden,
                    ));
                }
            }
        },
        Entry::Folder { name, entries } => {
            if include_hidden || !is_hidden(name) {
                let sub_rel = concat_dir(rel, name);
                let sub_abs = concat_dir(abs, name);
                collect_entries(entries, &sub_rel, &sub_abs, include_hidden, docs, denied);
            } else {
                proof {
                    assert(doc_views(docs@) =~= doc_views(old(docs)@) + docs_of_entry(
                        *e,
                        rel@,
                        abs@,
                        include_hidden,
                    ));
                    assert(path_views(denied@) =~= path_views(old(denied)@) + denied_of_entry(
                        *e,
                        rel@,
                        include_hidden,
                    ));
                }
            }
        },
        Entry::DeniedFolder { name } => {
            if include_hidden || !is_hidden(name) {
                let p = concat_str(rel, name);
                proof {
                    assert(denied_of_entry(*e, rel@, include_hidden) =~= seq![p@]);
                }
                denied.push(p);
                proof {
                    assert(path_views(denied@) =~= path_views(old(denied)@) + seq![p@]);
                    assert(doc_views(docs@) =~= doc_views(old(docs)@) + docs_of_entry(
                        *e,
                        rel@,
                        abs@,
                        include_hidden,
                    ));
                }
            } else {
                proof {
                    assert(doc_views(docs@) =~= doc_views(old(docs)@) + docs_of_entry(
                        *e,
                        rel@,
                        abs@,
                        include_hidden,
                    ));
                    assert(path_views(denied@) =~= path_views(old(denied)@) + denied_of_entry(
                        *e,
                        rel@,
                        include_hidden,
                    ));
                }
            }
        },
    }
}

/// Walks a run of sibling entries depth first, appending every visible
/// document to `docs` and the relative path of every visible unreadable
/// folder to `denied`.
pub(crate) fn collect_entries(
    es: &Vec<Entry>,
    rel: &String,
    abs: &String,
    include_hidden: bool,
    docs: &mut Vec<Doc>,
    denied: &mut Vec<String>,
)
    ensures
        doc_views(final(docs)@) == doc_views(old(docs)@) + docs_of_entries(
            es@,
            rel@,
            abs@,
            include_hidden,
        ),
        path_views(final(denied)@) == path_views(old(denied)@) + denied_of_entries(
            es@,
            rel@,
            include_hidden,
        ),
    decreases es@,
{
    let mut i: usize = 0;
    while i < es.len()
        invariant
            i <= es@.len(),
            doc_views(docs@) == doc_views(old(docs)@) + docs_of_entries(
                es@.subrange(0, i as int),
                rel@,
                abs@,
                include_hidden,
            ),
            path_views(denied@) == path_views(old(denied)@) + denied_of_entries(
                es@.subrange(0, i as int),
                rel@,
                include_hidden,
            ),
        decreases es@.len() - i,
    {
        collect_entry(&es[i], rel, abs, include_hidden, docs, denied);
        proof {
            let pre = es@.subrange(0, i as int);
            let cur = es@.subrange(0, i + 1);
            assert(cur.subrange(0, cur.len() - 1) =~= pre);
            assert(cur[cur.len() - 1] == es@[i as int]);
            assert(doc_views(docs@) =~= doc_views(old(docs)@) + docs_of_entries(
                cur,
                rel@,
                abs@,
                include_hidden,
            ));
            assert(path_views(denied@) =~= path_views(old(denied)@) + denied_of_entries(
                cur,
                rel@,
                include_hidden,
            ));
        }
        i = i + 1;
    }
    proof {
        assert(es@.subrange(0, es@.len() as int) =~= es@);
    }
}

} // verus!
