use vstd::prelude::*;

use crate::doc::DocModel;
use crate::repo::search_results;
use crate::repo::traversed_docs;
use crate::search::dedup_by_path;
use crate::search::doc_matches;
use crate::search::has_path;
use crate::search::matching_docs;
use crate::search::SearchMode;
use crate::text::lemma_substring_self;
use crate::tree::docs_of_entries;
use crate::tree::docs_of_entry;
use crate::tree::hidden_name;
use crate::tree::Entry;

verus! {

/// Every document kept by the matching pass matches the query, and comes
/// from the pool it was drawn from.
proof fn lemma_matching_sound(docs: Seq<DocModel>, pattern: Seq<char>, mode: SearchMode)
    ensures
        forall|j: int|
            0 <= j < matching_docs(docs, pattern, mode).len() ==> doc_matches(
                #[trigger] matching_docs(docs, pattern, mode)[j],
                pattern,
                mode,
            ),
        forall|j: int|
            0 <= j < matching_docs(docs, pattern, mode).len() ==> exists|i: int|
                0 <= i < docs.len() && docs[i] == #[trigger] matching_docs(docs, pattern, mode)[j],
    decreases docs.len(),
{
    if docs.len() > 0 {
        let pre = docs.subrange(0, docs.len() - 1);
        lemma_matching_sound(pre, pattern, mode);
        let m = matching_docs(docs, pattern, mode);
        let mp = matching_docs(pre, pattern, mode);
        assert forall|j: int| 0 <= j < m.len() implies doc_matches(#[trigger] m[j], pattern, mode)
            && exists|i: int| 0 <= i < docs.len() && docs[i] == m[j] by {
            if j < mp.len() {
                assert(doc_matches(mp[j], pattern, mode));
                let i0 = choose|i: int| 0 <= i < pre.len() && pre[i] == mp[j];
                assert(docs[i0] == m[j]);
            } else {
                assert(m[j] == docs[docs.len() - 1]);
            }
        }
    }
}

/// A document of the pool that matches the query is kept by the matching
/// pass.
proof fn lemma_matching_complete(docs: Seq<DocModel>, pattern: Seq<char>, mode: SearchMode, i: int)
    requires
        0 <= i < docs.len(),
        doc_matches(docs[i], pattern, mode),
    ensures
        exists|j: int|
            0 <= j < matching_docs(docs, pattern, mode).len() && #[trigger] matching_docs(
                docs,
                pattern,
                mode,
            )[j] == docs[i],
    decreases docs.len(),
{
    let pre = docs.subrange(0, docs.len() - 1);
    let m = matching_docs(docs, pattern, mode);
    if i == docs.len() - 1 {
        assert(m[m.len() - 1] == docs[i]);
    } else {
        lemma_matching_complete(pre, pattern, mode, i);
        let j0 = choose|j: int|
            0 <= j < matching_docs(pre, pattern, mode).len() && matching_docs(pre, pattern, mode)[j]
                == pre[i];
        assert(m[j0] == docs[i]);
    }
}

/// Every document kept by the deduplication pass comes from its input.
proof fn lemma_dedup_sound(docs: Seq<DocModel>)
    ensures
        forall|j: int|
            0 <= j < dedup_by_path(docs).len() ==> exists|i: int|
                0 <= i < docs.len() && docs[i] == #[trigger] dedup_by_path(docs)[j],
    decreases docs.len(),
{
    if docs.len() > 0 {
        let pre = docs.subrange(0, docs.len() - 1);
        lemma_dedup_sound(pre);
        let d = dedup_by_path(docs);
        let dp = dedup_by_path(pre);
        assert forall|j: int| 0 <= j < d.len() implies exists|i: int|
            0 <= i < docs.len() && docs[i] == #[trigger] d[j] by {
            if j < dp.len() {
                let i0 = choose|i: int| 0 <= i < pre.len() && pre[i] == dp[j];
                assert(docs[i0] == d[j]);
            } else {
                assert(d[j] == docs[docs.len() - 1]);
            }
        }
    }
}

/// Deduplication keeps exactly the relative paths of its input: it drops
/// repetitions, never a document's last trace.
proof fn lemma_dedup_keeps_paths(docs: Seq<DocModel>, path: Seq<char>)
    ensures
        has_path(dedup_by_path(docs), path) <==> has_path(docs, path),
    decreases docs.len(),
{
    if docs.len() == 0 {
    } else {
        let pre = docs.subrange(0, docs.len() - 1);
        lemma_dedup_keeps_paths(pre, path);
        let last = docs[docs.len() - 1];
        let d = dedup_by_path(docs);
        let dp = dedup_by_path(pre);
        if has_path(docs, path) {
            let i0 = choose|i: int| 0 <= i < docs.len() && docs[i].rel_path == path;
            if i0 < docs.len() - 1 {
                assert(pre[i0].rel_path == path);
                assert(has_path(dp, path));
                let j0 = choose|j: int| 0 <= j < dp.len() && dp[j].rel_path == path;
                assert(d[j0].rel_path == path);
            } else {
                if has_path(dp, last.rel_path) {
                    let j0 = choose|j: int| 0 <= j < dp.len() && dp[j].rel_path == last.rel_path;
                    assert(d[j0].rel_path == path);
                } else {
                    assert(d[d.len() - 1].rel_path == path);
                }
            }
        }
        if has_path(d, path) {
            let j0 = choose|j: int| 0 <= j < d.len() && d[j].rel_path == path;
            if j0 < dp.len() {
                assert(has_path(dp, path));
                let i0 = choose|i: int| 0 <= i < pre.len() && pre[i].rel_path == path;
                assert(docs[i0].rel_path == path);
            } else {
                assert(docs[docs.len() - 1].rel_path == path);
            }
        }
    }
}

/// The set invariant of a search result: every document it holds
/// matched the query when the set was made, and was reached by the
/// traversal — `search` returns exactly `search_results(...)`, so this
/// speaks of every set a search produces.
pub proof fn lemma_results_satisfy_query(
    entries: Seq<Entry>,
    root: Seq<char>,
    pattern: Seq<char>,
    mode: SearchMode,
    include_hidden: bool,
)
    ensures
        forall|j: int|
            0 <= j < search_results(entries, root, pattern, mode, include_hidden).len()
                ==> doc_matches(
                #[trigger] search_results(entries, root, pattern, mode, include_hidden)[j],
                pattern,
                mode,
            ),
        forall|j: int|
            0 <= j < search_results(entries, root, pattern, mode, include_hidden).len()
                ==> exists|i: int|
                0 <= i < traversed_docs(entries, root, include_hidden).len() && traversed_docs(
                    entries,
                    root,
                    include_hidden,
                )[i] == #[trigger] search_results(entries, root, pattern, mode, include_hidden)[j],
{
    let pool = traversed_docs(entries, root, include_hidden);
    let m = matching_docs(pool, pattern, mode);
    let r = search_results(entries, root, pattern, mode, include_hidden);
    lemma_matching_sound(pool, pattern, mode);
    lemma_dedup_sound(m);
    assert forall|j: int| 0 <= j < r.len() implies doc_matches(
        #[trigger] r[j],
        pattern,
        mode,
    ) && exists|i: int| 0 <= i < pool.len() && pool[i] == r[j] by {
        let jm = choose|i: int| 0 <= i < m.len() && m[i] == r[j];
        let ip = choose|i: int| 0 <= i < pool.len() && pool[i] == m[jm];
        assert(pool[ip] == r[j]);
    }
}

/// No match is lost: whenever the traversal reaches a document that
/// matches the query, the search results hold its relative path.
pub proof fn lemma_results_complete(
    entries: Seq<Entry>,
    root: Seq<char>,
    pattern: Seq<char>,
    mode: SearchMode,
    include_hidden: bool,
    i: int,
)
    requires
        0 <= i < traversed_docs(entries, root, include_hidden).len(),
        doc_matches(traversed_docs(entries, root, include_hidden)[i], pattern, mode),
    ensures
        has_path(
            search_results(entries, root, pattern, mode, include_hidden),
            traversed_docs(entries, root, include_hidden)[i].rel_path,
        ),
{
    let pool = traversed_docs(entries, root, include_hidden);
    lemma_matching_complete(pool, pattern, mode, i);
    let m = matching_docs(pool, pattern, mode);
    let j0 = choose|j: int| 0 <= j < m.len() && m[j] == pool[i];
    assert(has_path(m, pool[i].rel_path));
    lemma_dedup_keeps_paths(m, pool[i].rel_path);
}

/// The first testable property: a title search finds a file named
/// exactly like the pattern. Whenever the traversal reaches a document
/// whose name equals the pattern, the search results hold a document
/// with its relative path.
pub proof fn lemma_title_search_finds_named_file(
    entries: Seq<Entry>,
    root: Seq<char>,
    pattern: Seq<char>,
    include_hidden: bool,
    i: int,
)
    requires
        0 <= i < traversed_docs(entries, root, include_hidden).len(),
        traversed_docs(entries, root, include_hidden)[i].name == pattern,
    ensures
        has_path(
            search_results(entries, root, pattern, SearchMode::Title, include_hidden),
            traversed_docs(entries, root, include_hidden)[i].rel_path,
        ),
{
    let pool = traversed_docs(entries, root, include_hidden);
    lemma_substring_self(pattern);
    assert(doc_matches(pool[i], pattern, SearchMode::Title));
    lemma_results_complete(entries, root, pattern, SearchMode::Title, include_hidden, i);
}

/// The second testable property: a pattern that matches no traversed
/// document's name and no decoded content yields an empty result set
/// (and, through `search`'s contract, no error).
pub proof fn lemma_unmatched_pattern_finds_nothing(
    entries: Seq<Entry>,
    root: Seq<char>,
    pattern: Seq<char>,
    mode: SearchMode,
    include_hidden: bool,
)
    requires
        forall|i: int|
            0 <= i < traversed_docs(entries, root, include_hidden).len() ==> !doc_matches(
                #[trigger] traversed_docs(entries, root, include_hidden)[i],
                pattern,
                mode,
            ),
    ensures
        search_results(entries, root, pattern, mode, include_hidden) == Seq::<DocModel>::empty(),
{
    let pool = traversed_docs(entries, root, include_hidden);
    lemma_matching_none(pool, pattern, mode);
    assert(dedup_by_path(Seq::<DocModel>::empty()) =~= Seq::<DocModel>::empty());
}

/// A pool with no matching document leaves the matching pass empty.
proof fn lemma_matching_none(docs: Seq<DocModel>, pattern: Seq<char>, mode: SearchMode)
    requires
        forall|i: int| 0 <= i < docs.len() ==> !doc_matches(#[trigger] docs[i], pattern, mode),
    ensures
        matching_docs(docs, pattern, mode) == Seq::<DocModel>::empty(),
    decreases docs.len(),
{
    if docs.len() > 0 {
        let pre = docs.subrange(0, docs.len() - 1);
        lemma_matching_none(pre, pattern, mode);
    }
}

/// The third testable property, exclusion half: with the default
/// visibility no document of the results bears a hidden name, so a file
/// named `.secret` is absent. (With `include_hidden` the traversal keeps
/// hidden entries, and the first property applies to them unchanged.)
pub proof fn lemma_hidden_names_absent_by_default(
    entries: Seq<Entry>,
    root: Seq<char>,
    pattern: Seq<char>,
    mode: SearchMode,
)
    ensures
        forall|j: int|
            0 <= j < search_results(entries, root, pattern, mode, false).len() ==> !hidden_name(
                #[trigger] search_results(entries, root, pattern, mode, false)[j].name,
            ),
{
    let pool = traversed_docs(entries, root, false);
    let r = search_results(entries, root, pattern, mode, false);
    lemma_no_hidden_in_entries(entries, Seq::<char>::empty(), root + crate::tree::sep());
    lemma_results_satisfy_query(entries, root, pattern, mode, false);
    assert forall|j: int| 0 <= j < r.len() implies !hidden_name(r[j].name) by {
        let ip = choose|i: int| 0 <= i < pool.len() && pool[i] == r[j];
        assert(!hidden_name(pool[ip].name));
    }
}

/// Below one entry, the default traversal reaches no document with a
/// hidden name.
proof fn lemma_no_hidden_in_entry(e: Entry, rel: Seq<char>, abs: Seq<char>)
    ensures
        forall|j: int|
            0 <= j < docs_of_entry(e, rel, abs, false).len() ==> !hidden_name(
                #[trigger] docs_of_entry(e, rel, abs, false)[j].name,
            ),
    decreases e,
{
    match e {
        Entry::File { .. } => {},
        Entry::Folder { name, entries } => {
            if !hidden_name(name@) {
                lemma_no_hidden_in_entries(entries@, rel + name@ + crate::tree::sep(), abs + name@
                    + crate::tree::sep());
            }
        },
        Entry::DeniedFolder { .. } => {},
    }
}

/// Below a run of sibling entries, the default traversal reaches no
/// document with a hidden name.
proof fn lemma_no_hidden_in_entries(es: Seq<Entry>, rel: Seq<char>, abs: Seq<char>)
    ensures
        forall|j: int|
            0 <= j < docs_of_entries(es, rel, abs, false).len() ==> !hidden_name(
                #[trigger] docs_of_entries(es, rel, abs, false)[j].name,
            ),
    decreases es,
{
    if es.len() > 0 {
        lemma_no_hidden_in_entries(es.subrange(0, es.len() - 1), rel, abs);
        lemma_no_hidden_in_entry(es[es.len() - 1], rel, abs);
    }
}

/// The fourth testable property: a content search only returns documents
/// whose bytes decoded as text and whose decoded text holds the pattern;
/// a binary file never matches, whatever bytes it holds.
pub proof fn lemma_content_results_decoded(
    entries: Seq<Entry>,
    root: Seq<char>,
    pattern: Seq<char>,
    include_hidden: bool,
)
    ensures
        forall|j: int|
            0 <= j < search_results(entries, root, pattern, SearchMode::Content,
            include_hidden).len() ==> (#[trigger] search_results(
                entries,
                root,
                pattern,
                SearchMode::Content,
                include_hidden,
            )[j].content matches Option::Some(text) && crate::text::is_substring_of(pattern, text)),
{
    let r = search_results(entries, root, pattern, SearchMode::Content, include_hidden);
    lemma_results_satisfy_query(entries, root, pattern, SearchMode::Content, include_hidden);
    assert forall|j: int| 0 <= j < r.len() implies (#[trigger] r[j].content matches Option::Some(
        text,
    ) && crate::text::is_substring_of(pattern, text)) by {
        assert(doc_matches(r[j], pattern, SearchMode::Content));
    }
}

/// The fifth testable property: a search never returns two entries for
/// one document, even when both its title and its content match — the
/// relative paths in a result set are pairwise distinct.
pub proof fn lemma_results_free_of_duplicates(
    entries: Seq<Entry>,
    root: Seq<char>,
    pattern: Seq<char>,
    mode: SearchMode,
    include_hidden: bool,
)
    ensures
        forall|i: int, j: int|
            0 <= i < j < search_results(entries, root, pattern, mode, include_hidden).len()
                ==> #[trigger] search_results(entries, root, pattern, mode, include_hidden)[i].rel_path
                != #[trigger] search_results(entries, root, pattern, mode, include_hidden)[j].rel_path,
{
    let m = matching_docs(traversed_docs(entries, root, include_hidden), pattern, mode);
    lemma_dedup_distinct(m);
}

/// Deduplicated documents have pairwise distinct relative paths.
proof fn lemma_dedup_distinct(docs: Seq<DocModel>)
    ensures
        forall|i: int, j: int|
            0 <= i < j < dedup_by_path(docs).len() ==> #[trigger] dedup_by_path(docs)[i].rel_path
                != #[trigger] dedup_by_path(docs)[j].rel_path,
    decreases docs.len(),
{
    if docs.len() > 0 {
        let pre = docs.subrange(0, docs.len() - 1);
        lemma_dedup_distinct(pre);
        let d = dedup_by_path(docs);
        let dp = dedup_by_path(pre);
        let last = docs[docs.len() - 1];
        if !has_path(dp, last.rel_path) {
            assert forall|i: int, j: int| 0 <= i < j < d.len() implies d[i].rel_path
                != d[j].rel_path by {
                if j < dp.len() {
                    assert(dp[i].rel_path != dp[j].rel_path);
                } else {
                    assert(d[j] == last);
                    assert(!(dp[i].rel_path == last.rel_path));
                }
            }
        }
    }
}

/// The empty pattern matches every document: a title search for it
/// returns the whole traversed pool (deduplicated), consistent with
/// substring semantics, under which every string contains the empty one.
pub proof fn lemma_empty_pattern_matches_all(
    entries: Seq<Entry>,
    root: Seq<char>,
    include_hidden: bool,
)
    ensures
        search_results(entries, root, Seq::<char>::empty(), SearchMode::Title, include_hidden)
            == dedup_by_path(traversed_docs(entries, root, include_hidden)),
{
    let pool = traversed_docs(entries, root, include_hidden);
    lemma_empty_pattern_keeps_all(pool);
}

/// A title search for the empty pattern keeps every document of a pool.
proof fn lemma_empty_pattern_keeps_all(docs: Seq<DocModel>)
    ensures
        matching_docs(docs, Seq::<char>::empty(), SearchMode::Title) == docs,
    decreases docs.len(),
{
    if docs.len() > 0 {
        let pre = docs.subrange(0, docs.len() - 1);
        lemma_empty_pattern_keeps_all(pre);
        crate::text::lemma_empty_substring(docs[docs.len() - 1].name);
        assert(pre.push(docs[docs.len() - 1]) =~= docs);
    }
}

/// The sixth testable property: searching is repeatable. Two result
/// sequences of the same search over the same snapshot — and `search`
/// returns exactly `search_results(...)` — are one and the same, order
/// included.
pub proof fn lemma_search_repeatable(
    entries: Seq<Entry>,
    root: Seq<char>,
    pattern: Seq<char>,
    mode: SearchMode,
    include_hidden: bool,
    first: Seq<DocModel>,
    second: Seq<DocModel>,
)
    requires
        first == search_results(entries, root, pattern, mode, include_hidden),
        second == search_results(entries, root, pattern, mode, include_hidden),
    ensures
        first == second,
{
}

} // verus!
