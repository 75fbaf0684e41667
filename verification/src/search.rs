use vstd::prelude::*;

use crate::doc::Doc;
use crate::doc::DocModel;
use crate::text::contains_pattern;
use crate::text::is_substring_of;
use crate::tree::doc_views;

verus! {

/// What a query matches the pattern against: the file name, the decoded
/// content, or either.
#[derive(Clone, Copy, PartialEq, Eq, Structural, Debug)]
pub enum SearchMode {
    Title,
    Content,
    TitleOrContent,
}

/// One search: a pattern, what to match it against, and whether hidden
/// entries take part in the traversal.
pub struct SearchQuery {
    pub pattern: String,
    pub mode: SearchMode,
    pub include_hidden: bool,
}

/// Whether a document matches a query. A title search asks for the
/// pattern in the file name; a content search asks for a decoded content
/// that holds the pattern, so a binary file never matches it; a combined
/// search asks for either.
pub open spec fn doc_matches(d: DocModel, pattern: Seq<char>, mode: SearchMode) -> bool {
    match mode {
        SearchMode::Title => is_substring_of(pattern, d.name),
        SearchMode::Content => match d.content {
            Option::Some(text) => is_substring_of(pattern, text),
            Option::None => false,
        },
        SearchMode::TitleOrContent => is_substring_of(pattern, d.name) || (match d.content {
            Option::Some(text) => is_substring_of(pattern, text),
            Option::None => false,
        }),
    }
}

/// The documents among `docs` that match, in order.
pub open spec fn matching_docs(docs: Seq<DocModel>, pattern: Seq<char>, mode: SearchMode) -> Seq<
    DocModel,
>
    decreases docs.len(),
{
    if docs.len() == 0 {
        Seq::empty()
    } else {
        let rest = matching_docs(docs.subrange(0, docs.len() - 1), pattern, mode);
        if doc_matches(docs[docs.len() - 1], pattern, mode) {
            rest.push(docs[docs.len() - 1])
        } else {
            rest
        }
    }
}

/// Some document in `docs` has this relative path.
pub open spec fn has_path(docs: Seq<DocModel>, path: Seq<char>) -> bool {
    exists|i: int| 0 <= i < docs.len() && docs[i].rel_path == path
}

/// `docs` with every later repetition of a relative path dropped: each
/// document appears once, at its first occurrence.
pub open spec fn dedup_by_path(docs: Seq<DocModel>) -> Seq<DocModel>
    decreases docs.len(),
{
    if docs.len() == 0 {
        Seq::empty()
    } else {
        let prev = dedup_by_path(docs.subrange(0, docs.len() - 1));
        if has_path(prev, docs[docs.len() - 1].rel_path) {
            prev
        } else {
            prev.push(docs[docs.len() - 1])
        }
    }
}

/// Whether a document matches the query's pattern under the given mode.
pub(crate) fn matches_query(d: &Doc, pattern: &String, mode: SearchMode) -> (r: bool)
    ensures
        r == doc_matches(d.model(), pattern@, mode),
{
    match mode {
        SearchMode::Title => contains_pattern(d.name.as_str(), pattern.as_str()),
        SearchMode::Content => match &d.content {
            Option::Some(text) => contains_pattern(text.as_str(), pattern.as_str()),
            Option::None => false,
        },
        SearchMode::TitleOrContent => {
            if contains_pattern(d.name.as_str(), pattern.as_str()) {
                true
            } else {
                match &d.content {
                    Option::Some(text) => contains_pattern(text.as_str(), pattern.as_str()),
                    Option::None => false,
                }
            }
        },
    }
}

/// The documents among `docs` that match the query, in order.
pub(crate) fn filter_matching(docs: &Vec<Doc>, pattern: &String, mode: SearchMode) -> (r: Vec<Doc>)
    ensures
        doc_views(r@) == matching_docs(doc_views(docs@), pattern@, mode),
{
    let mut r: Vec<Doc> = Vec::new();
    let mut i: usize = 0;
    while i < docs.len()
        invariant
            i <= docs@.len(),
            doc_views(r@) == matching_docs(
                doc_views(docs@).subrange(0, i as int),
                pattern@,
                mode,
            ),
        decreases docs@.len() - i,
    {
        let d = &docs[i];
        if matches_query(d, pattern, mode) {
            r.push(d.clone());
        }
        proof {
            let all = doc_views(docs@);
            let pre = all.subrange(0, i as int);
            let cur = all.subrange(0, i + 1);
            assert(cur.subrange(0, cur.len() - 1) =~= pre);
            assert(cur[cur.len() - 1] == docs@[i as int].model());
            assert(doc_views(r@) =~= matching_docs(cur, pattern@, mode));
        }
        i = i + 1;
    }
    proof {
        assert(doc_views(docs@).subrange(0, doc_views(docs@).len() as int) =~= doc_views(docs@));
    }
    r
}

/// Whether some document in `docs` has this relative path.
fn contains_path(docs: &Vec<Doc>, path: &String) -> (r: bool)
    ensures
        r == has_path(doc_views(docs@), path@),
{
    let mut i: usize = 0;
    while i < docs.len()
        invariant
            i <= docs@.len(),
            forall|k: int| 0 <= k < i ==> doc_views(docs@)[k].rel_path != path@,
        decreases docs@.len() - i,
    {
        if docs[i].rel_path == *path {
            proof {
                assert(doc_views(docs@)[i as int].rel_path == path@);
            }
            return true;
        }
        i = i + 1;
    }
    false
}

/// `docs` with every later repetition of a relative path dropped.
pub(crate) fn dedup_docs(docs: &Vec<Doc>) -> (r: Vec<Doc>)
    ensures
        doc_views(r@) == dedup_by_path(doc_views(docs@)),
{
    let mut r: Vec<Doc> = Vec::new();
    let mut i: usize = 0;
    while i < docs.len()
        invariant
            i <= docs@.len(),
            doc_views(r@) == dedup_by_path(doc_views(docs@).subrange(0, i as int)),
        decreases docs@.len() - i,
    {
        let d = &docs[i];
        if !contains_path(&r, &d.rel_path) {
            r.push(d.clone());
        }
        proof {
            let all = doc_views(docs@);
            let pre = all.subrange(0, i as int);
            let cur = all.subrange(0, i + 1);
            assert(cur.subrange(0, cur.len() - 1) =~= pre);
            assert(cur[cur.len() - 1] == docs@[i as int].model());
            assert(doc_views(r@) =~= dedup_by_path(cur));
        }
        i = i + 1;
    }
    proof {
        assert(doc_views(docs@).subrange(0, doc_views(docs@).len() as int) =~= doc_views(docs@));
    }
    r
}

} // verus!
