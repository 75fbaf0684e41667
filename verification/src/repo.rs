use vstd::prelude::*;

use crate::doc::Doc;
use crate::doc::DocModel;
use crate::docset::DocSet;
use crate::error::ExplorerError;
use crate::search::dedup_by_path;
use crate::search::dedup_docs;
use crate::search::filter_matching;
use crate::search::matching_docs;
use crate::search::SearchMode;
use crate::search::SearchQuery;
use crate::tree::collect_entries;
use crate::tree::denied_of_entries;
use crate::tree::doc_views;
use crate::tree::docs_of_entries;
use crate::tree::sep;
use crate::tree::Entry;

verus! {

/// Every document a query's traversal reaches, in depth-first order:
/// the pool a search matches against. Relative paths start at the root;
/// resolved paths start with the root itself.
pub open spec fn traversed_docs(
    entries: Seq<Entry>,
    root: Seq<char>,
    include_hidden: bool,
) -> Seq<DocModel> {
    docs_of_entries(entries, Seq::<char>::empty(), root + sep(), include_hidden)
}

/// What a search returns: the traversed documents that match the query,
/// with repeated relative paths dropped.
pub open spec fn search_results(
    entries: Seq<Entry>,
    root: Seq<char>,
    pattern: Seq<char>,
    mode: SearchMode,
    include_hidden: bool,
) -> Seq<DocModel> {
    dedup_by_path(matching_docs(traversed_docs(entries, root, include_hidden), pattern, mode))
}

/// A repository of documents: the root directory path and the snapshot
/// of the tree below it, as the walker at the edge of the system
/// reported it.
pub struct DocsRepo {
    pub location: String,
    pub entries: Vec<Entry>,
}

/// What a probe of a root path found: the path is missing, it is not a
/// directory, or it is a directory holding these entries.
pub enum RootProbe {
    Missing,
    NotFolder,
    Listed { entries: Vec<Entry> },
}

impl RootProbe {
    /// A root can be bound when it exists and is a directory.
    pub open spec fn valid(&self) -> bool {
        *self is Listed
    }

    /// The non-throwing check: whether the probed root can be bound.
    pub fn is_valid(&self) -> (r: bool)
        ensures
            r == self.valid(),
    {
        match self {
            RootProbe::Listed { .. } => true,
            RootProbe::Missing => false,
            RootProbe::NotFolder => false,
        }
    }
}

impl DocsRepo {
    /// A repository at `location` holding the snapshot `entries`.
    pub fn new(location: String, entries: Vec<Entry>) -> (r: DocsRepo)
        ensures
            r.location@ == location@,
            r.entries@ == entries@,
    {
        DocsRepo { location, entries }
    }

    /// Binds a repository to a probed root. Fails with `InvalidRoot`
    /// exactly when the root is missing or not a directory, before any
    /// traversal begins; succeeds exactly when the probe listed a
    /// directory.
    pub fn bind(location: String, probe: RootProbe) -> (r: Result<DocsRepo, ExplorerError>)
        ensures
            probe.valid() ==> ({
                &&& r matches Result::Ok(repo)
                &&& repo.location@ == location@
                &&& probe matches RootProbe::Listed { entries }
                &&& repo.entries@ == entries@
            }),
            !probe.valid() ==> (r matches Result::Err(e) && e == ExplorerError::InvalidRoot),
    {
        match probe {
            RootProbe::Listed { entries } => Result::Ok(DocsRepo::new(location, entries)),
            RootProbe::Missing => Result::Err(ExplorerError::InvalidRoot),
            RootProbe::NotFolder => Result::Err(ExplorerError::InvalidRoot),
        }
    }

    /// The root path the repository is bound to.
    pub fn root(&self) -> (r: &String)
        ensures
            r@ == self.location@,
    {
        &self.location
    }

    /// One search over the repository: walks the snapshot depth first,
    /// leaving hidden entries out unless the query includes them, keeps
    /// the documents that match the query, drops repeated relative
    /// paths, and reports the relative paths of the folders the walker
    /// could not read alongside the result.
    pub fn search(&self, query: &SearchQuery) -> (r: DocSet)
        ensures
            r.docs_model() == search_results(
                self.entries@,
                self.location@,
                query.pattern@,
                query.mode,
                query.include_hidden,
            ),
            r.skipped_model() == denied_of_entries(
                self.entries@,
                Seq::<char>::empty(),
                query.include_hidden,
            ),
    {
        let mut docs: Vec<Doc> = Vec::new();
        let mut denied: Vec<String> = Vec::new();
        let rel = String::new();
        let mut abs = self.location.clone();
        abs.append("/");
        proof {
            assert(doc_views(docs@) =~= Seq::<DocModel>::empty());
            assert(crate::tree::path_views(denied@) =~= Seq::<Seq<char>>::empty());
        }
        collect_entries(&self.entries, &rel, &abs, query.include_hidden, &mut docs, &mut denied);
        let matched = filter_matching(&docs, &query.pattern, query.mode);
        let unique = dedup_docs(&matched);
        DocSet::assemble(unique, denied)
    }

    /// A title search with the default visibility: hidden entries are
    /// left out.
    pub fn search_titles(&self, pattern: String) -> (r: DocSet)
        ensures
            r.docs_model() == search_results(
                self.entries@,
                self.location@,
                pattern@,
                SearchMode::Title,
                false,
            ),
            r.skipped_model() == denied_of_entries(self.entries@, Seq::<char>::empty(), false),
    {
        let query = SearchQuery { pattern, mode: SearchMode::Title, include_hidden: false };
        self.search(&query)
    }

    /// A content search with the default visibility: hidden entries are
    /// left out.
    pub fn search_contents(&self, pattern: String) -> (r: DocSet)
        ensures
            r.docs_model() == search_results(
                self.entries@,
                self.location@,
                pattern@,
                SearchMode::Content,
                false,
            ),
            r.skipped_model() == denied_of_entries(self.entries@, Seq::<char>::empty(), false),
    {
        let query = SearchQuery { pattern, mode: SearchMode::Content, include_hidden: false };
        self.search(&query)
    }
}

} // verus!
