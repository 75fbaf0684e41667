use vstd::prelude::*;

use crate::doc::Doc;
use crate::doc::DocModel;
use crate::error::ExplorerError;
use crate::search::filter_matching;
use crate::search::matching_docs;
use crate::search::SearchQuery;
use crate::tree::doc_views;
use crate::tree::path_views;

verus! {

/// The result of one search: an immutable snapshot of the documents that
/// matched, in traversal order, together with the relative paths of the
/// folders the traversal could not read (the partial-failure report).
pub struct DocSet {
    docs: Vec<Doc>,
    skipped: Vec<String>,
}

/// A copy of a run of paths.
fn clone_strings(v: &Vec<String>) -> (r: Vec<String>)
    ensures
        path_views(r@) == path_views(v@),
{
    let mut r: Vec<String> = Vec::new();
    let mut i: usize = 0;
    while i < v.len()
        invariant
            i <= v@.len(),
            r@.len() == i,
            forall|k: int| 0 <= k < i ==> r@[k]@ == v@[k]@,
        decreases v@.len() - i,
    {
        r.push(v[i].clone());
        i = i + 1;
    }
    proof {
        assert(path_views(r@) =~= path_views(v@));
    }
    r
}

impl DocSet {
    /// The views of the documents in the set.
    pub closed spec fn docs_model(&self) -> Seq<DocModel> {
        doc_views(self.docs@)
    }

    /// The views of the paths the traversal skipped.
    pub closed spec fn skipped_model(&self) -> Seq<Seq<char>> {
        path_views(self.skipped@)
    }

    /// One result set, as a search assembled it.
    pub(crate) fn assemble(docs: Vec<Doc>, skipped: Vec<String>) -> (r: DocSet)
        ensures
            r.docs_model() == doc_views(docs@),
            r.skipped_model() == path_views(skipped@),
    {
        DocSet { docs, skipped }
    }

    /// All matched documents, in traversal order. The set is a snapshot:
    /// reading it again gives the same documents, nothing is re-scanned.
    pub fn get_docs(&self) -> (r: &Vec<Doc>)
        ensures
            doc_views(r@) == self.docs_model(),
    {
        &self.docs
    }

    /// How many documents matched.
    pub fn len(&self) -> (r: usize)
        ensures
            r == self.docs_model().len(),
    {
        self.docs.len()
    }

    /// The document at `index`: `Ok` exactly when `index` lies within the
    /// set, `NotFound` otherwise.
    pub fn get_doc(&self, index: usize) -> (r: Result<&Doc, ExplorerError>)
        ensures
            index < self.docs_model().len() ==> (r matches Result::Ok(d) && d.model()
                == self.docs_model()[index as int]),
            index >= self.docs_model().len() ==> (r matches Result::Err(e) && e
                == ExplorerError::NotFound),
    {
        if index < self.docs.len() {
            Result::Ok(&self.docs[index])
        } else {
            Result::Err(ExplorerError::NotFound)
        }
    }

    /// A new, narrower set: the documents of this one that match the
    /// query's pattern under its mode. The query's hidden flag plays no
    /// part here: the snapshot is already fixed. This set is not changed,
    /// and the partial-failure report carries over.
    pub fn filter(&self, query: &SearchQuery) -> (r: DocSet)
        ensures
            r.docs_model() == matching_docs(self.docs_model(), query.pattern@, query.mode),
            r.skipped_model() == self.skipped_model(),
    {
        DocSet {
            docs: filter_matching(&self.docs, &query.pattern, query.mode),
            skipped: clone_strings(&self.skipped),
        }
    }

    /// The relative paths of the folders the search could not read.
    pub fn skipped_paths(&self) -> (r: &Vec<String>)
        ensures
            path_views(r@) == self.skipped_model(),
    {
        &self.skipped
    }
}

} // verus!
