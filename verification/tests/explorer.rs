use fe::ContentKind;
use fe::Doc;
use fe::DocSet;
use fe::DocsRepo;
use fe::Entry;
use fe::ExplorerError;
use fe::HandlerAction;
use fe::RootProbe;
use fe::SearchMode;
use fe::SearchQuery;
use fe::contains_pattern;

fn s(x: &str) -> String {
    x.to_string()
}

fn file(name: &str, content: &str) -> Entry {
    Entry::File { name: s(name), content: Some(s(content)) }
}

fn binary(name: &str) -> Entry {
    Entry::File { name: s(name), content: None }
}

fn folder(name: &str, entries: Vec<Entry>) -> Entry {
    Entry::Folder { name: s(name), entries }
}

fn query(pattern: &str, mode: SearchMode, include_hidden: bool) -> SearchQuery {
    SearchQuery { pattern: s(pattern), mode, include_hidden }
}

fn rel_paths(set: &DocSet) -> Vec<String> {
    set.get_docs().iter().map(|d| d.rel_path.clone()).collect()
}

/// The tree `{folder1/ssh_config, folder1/subf1/ssh_notes.md, folder2/readme.md}`.
fn sample_tree() -> Vec<Entry> {
    vec![
        folder(
            "folder1",
            vec![
                file("ssh_config", "Host example\n"),
                folder("subf1", vec![file("ssh_notes.md", "# notes on ssh\n")]),
            ],
        ),
        folder("folder2", vec![file("readme.md", "plain words\n")]),
    ]
}

fn sample_repo() -> DocsRepo {
    DocsRepo::new(s("docs"), sample_tree())
}

#[test]
fn find_files_with_search_pattern_in_titles() {
    let repo = sample_repo();
    let results = repo.search_titles(s("ssh"));
    assert!(results.len() > 1);
    assert_eq!(
        rel_paths(&results),
        vec![s("folder1/ssh_config"), s("folder1/subf1/ssh_notes.md")]
    );
}

#[test]
fn find_files_with_search_pattern_in_contents() {
    let repo = sample_repo();
    let results = repo.search_contents(s("ssh"));
    assert_eq!(rel_paths(&results), vec![s("folder1/subf1/ssh_notes.md")]);
    let host = repo.search_contents(s("Host"));
    assert_eq!(rel_paths(&host), vec![s("folder1/ssh_config")]);
}

#[test]
fn find_hidden_files_with_search_pattern_in_titles() {
    let repo = DocsRepo::new(
        s("docs"),
        vec![file(".secret", "keep out\n"), file("open_secret", "come in\n")],
    );
    let by_default = repo.search_titles(s("secret"));
    assert_eq!(rel_paths(&by_default), vec![s("open_secret")]);
    let with_hidden = repo.search(&query("secret", SearchMode::Title, true));
    assert_eq!(rel_paths(&with_hidden), vec![s(".secret"), s("open_secret")]);
}

#[test]
fn find_hidden_files_with_search_pattern_in_contents() {
    let repo = DocsRepo::new(
        s("docs"),
        vec![file(".profile", "export PAGER=less\n"), file("notes.txt", "nothing here\n")],
    );
    let by_default = repo.search_contents(s("PAGER"));
    assert_eq!(by_default.len(), 0);
    let with_hidden = repo.search(&query("PAGER", SearchMode::Content, true));
    assert_eq!(rel_paths(&with_hidden), vec![s(".profile")]);
}

#[test]
fn no_results_in_empty_repo() {
    let repo = DocsRepo::new(s("docs"), Vec::new());
    let results = repo.search(&query("", SearchMode::TitleOrContent, true));
    assert_eq!(results.len(), 0);
    assert!(results.get_docs().is_empty());
    assert!(results.skipped_paths().is_empty());
}

#[test]
fn view_doc_in_terminal() {
    let repo = DocsRepo::new(s("docs"), vec![file("notes.txt", "alpha\n")]);
    let results = repo.search_titles(s("notes"));
    let doc = results.get_doc(0).unwrap();
    let request = doc.view();
    assert_eq!(request.action, HandlerAction::View);
    assert_eq!(request.kind, ContentKind::PlainText);
    assert_eq!(request.path, "docs/notes.txt");
}

#[test]
fn view_docs_in_terminal() {
    let repo = sample_repo();
    let results = repo.search_titles(s(""));
    assert_eq!(results.len(), 3);
    for doc in results.get_docs() {
        let request = doc.view();
        assert_eq!(request.action, HandlerAction::View);
        assert_eq!(request.path, doc.abs_path);
    }
}

#[test]
fn view_doc_in_browser() {
    let repo = sample_repo();
    let results = repo.search_titles(s("readme"));
    let doc = results.get_doc(0).unwrap();
    let request = doc.view();
    assert_eq!(request.action, HandlerAction::View);
    assert_eq!(request.kind, ContentKind::Markdown);
    assert_eq!(request.path, "docs/folder2/readme.md");
}

#[test]
fn edit_doc_with_editor() {
    let repo = DocsRepo::new(s("docs"), vec![file("draft.txt", "to be written\n")]);
    let results = repo.search_titles(s("draft"));
    let doc = results.get_doc(0).unwrap();
    let request = doc.edit();
    assert_eq!(request.action, HandlerAction::Edit);
    assert_eq!(request.kind, ContentKind::PlainText);
    assert_eq!(request.path, "docs/draft.txt");
}

#[test]
fn run_doc() {
    let repo = DocsRepo::new(s("docs"), vec![file("setup.sh", "echo ready\n")]);
    let results = repo.search_titles(s("setup"));
    let doc = results.get_doc(0).unwrap();
    let request = doc.run();
    assert_eq!(request.action, HandlerAction::Run);
    assert_eq!(request.kind, ContentKind::PlainText);
    assert_eq!(request.path, "docs/setup.sh");
}

#[test]
fn exact_title_is_always_found() {
    let repo = DocsRepo::new(s("docs"), vec![file("agenda", "x\n"), file("other", "y\n")]);
    let results = repo.search_titles(s("agenda"));
    assert_eq!(rel_paths(&results), vec![s("agenda")]);
}

#[test]
fn unmatched_pattern_returns_empty_set() {
    let repo = sample_repo();
    let results = repo.search(&query("zzz", SearchMode::TitleOrContent, true));
    assert_eq!(results.len(), 0);
    assert!(results.skipped_paths().is_empty());
}

#[test]
fn binary_file_never_matches_content_search() {
    let repo = DocsRepo::new(s("docs"), vec![binary("blob.dat"), file("plain.txt", "blob\n")]);
    let by_content = repo.search_contents(s("blob"));
    assert_eq!(rel_paths(&by_content), vec![s("plain.txt")]);
    let by_title = repo.search_titles(s("blob"));
    assert_eq!(rel_paths(&by_title), vec![s("blob.dat")]);
}

#[test]
fn combined_search_returns_single_entry() {
    let repo = DocsRepo::new(s("docs"), vec![file("alpha.txt", "alpha inside\n")]);
    let results = repo.search(&query("alpha", SearchMode::TitleOrContent, false));
    assert_eq!(results.len(), 1);
    assert_eq!(rel_paths(&results), vec![s("alpha.txt")]);
}

#[test]
fn repeated_search_gives_identical_results() {
    let repo = sample_repo();
    let first = repo.search(&query("ssh", SearchMode::TitleOrContent, false));
    let second = repo.search(&query("ssh", SearchMode::TitleOrContent, false));
    assert_eq!(first.len(), second.len());
    assert_eq!(rel_paths(&first), rel_paths(&second));
}

#[test]
fn bind_rejects_missing_root() {
    let missing = DocsRepo::bind(s("nowhere"), RootProbe::Missing);
    assert!(matches!(missing, Err(ExplorerError::InvalidRoot)));
    let not_folder = DocsRepo::bind(s("a_file"), RootProbe::NotFolder);
    assert!(matches!(not_folder, Err(ExplorerError::InvalidRoot)));
    assert!(!RootProbe::Missing.is_valid());
    assert!(!RootProbe::NotFolder.is_valid());
}

#[test]
fn bind_accepts_listed_folder() {
    let probe = RootProbe::Listed { entries: sample_tree() };
    assert!(probe.is_valid());
    let repo = DocsRepo::bind(s("docs"), probe).unwrap();
    assert_eq!(repo.root(), "docs");
    assert_eq!(repo.search_titles(s("ssh")).len(), 2);
}

#[test]
fn denied_folder_is_reported_beside_results() {
    let repo = DocsRepo::new(
        s("docs"),
        vec![
            folder("open", vec![file("guide.txt", "read me\n")]),
            Entry::DeniedFolder { name: s("locked") },
        ],
    );
    let results = repo.search_titles(s("guide"));
    assert_eq!(rel_paths(&results), vec![s("open/guide.txt")]);
    assert_eq!(results.skipped_paths(), &vec![s("locked")]);
}

#[test]
fn nested_denied_folder_keeps_its_path() {
    let repo = DocsRepo::new(
        s("docs"),
        vec![folder("outer", vec![Entry::DeniedFolder { name: s("inner") }])],
    );
    let results = repo.search_titles(s(""));
    assert_eq!(results.len(), 0);
    assert_eq!(results.skipped_paths(), &vec![s("outer/inner")]);
}

#[test]
fn skipped_paths_empty_when_all_readable() {
    let repo = sample_repo();
    let results = repo.search_titles(s("ssh"));
    assert!(results.skipped_paths().is_empty());
}

#[test]
fn get_doc_out_of_range_is_not_found() {
    let repo = DocsRepo::new(s("docs"), vec![file("only.txt", "one\n")]);
    let results = repo.search_titles(s(""));
    assert!(results.get_doc(0).is_ok());
    assert!(matches!(results.get_doc(1), Err(ExplorerError::NotFound)));
    assert!(matches!(results.get_doc(7), Err(ExplorerError::NotFound)));
}

#[test]
fn filter_narrows_without_changing_the_set() {
    let repo = sample_repo();
    let all = repo.search_titles(s(""));
    assert_eq!(all.len(), 3);
    let narrowed = all.filter(&query("ssh", SearchMode::Title, false));
    assert_eq!(
        rel_paths(&narrowed),
        vec![s("folder1/ssh_config"), s("folder1/subf1/ssh_notes.md")]
    );
    assert_eq!(all.len(), 3);
}

#[test]
fn empty_pattern_matches_every_document() {
    let repo = sample_repo();
    let results = repo.search_titles(s(""));
    assert_eq!(
        rel_paths(&results),
        vec![
            s("folder1/ssh_config"),
            s("folder1/subf1/ssh_notes.md"),
            s("folder2/readme.md"),
        ]
    );
}

#[test]
fn hidden_folder_contents_excluded_by_default() {
    let repo = DocsRepo::new(
        s("docs"),
        vec![folder(".git", vec![file("config", "bare = false\n")])],
    );
    assert_eq!(repo.search_titles(s("config")).len(), 0);
    let with_hidden = repo.search(&query("config", SearchMode::Title, true));
    assert_eq!(rel_paths(&with_hidden), vec![s(".git/config")]);
}

#[test]
fn titles_drop_the_extension() {
    let repo = DocsRepo::new(
        s("docs"),
        vec![file("ssh_notes.md", "a\n"), file("ssh_config", "b\n"), file(".secret", "c\n")],
    );
    let results = repo.search(&query("", SearchMode::Title, true));
    let titles: Vec<String> = results.get_docs().iter().map(|d| d.title()).collect();
    assert_eq!(titles, vec![s("ssh_notes"), s("ssh_config"), s(".secret")]);
}

#[test]
fn substring_matching_is_exact() {
    assert!(contains_pattern("hello world", "lo wo"));
    assert!(contains_pattern("hello world", ""));
    assert!(contains_pattern("", ""));
    assert!(!contains_pattern("", "a"));
    assert!(!contains_pattern("hello", "world"));
    assert!(!contains_pattern("abab", "abba"));
    assert!(contains_pattern("abab", "bab"));
}

#[test]
fn error_descriptions_are_stable() {
    assert_eq!(
        ExplorerError::InvalidRoot.describe(),
        "the root path does not exist or is not a directory"
    );
    assert_eq!(ExplorerError::NotFound.describe(), "no document at this index");
}

#[test]
fn documents_resolve_paths_under_the_root() {
    let repo = sample_repo();
    let results = repo.search_titles(s("ssh"));
    let doc: &Doc = results.get_doc(0).unwrap();
    assert_eq!(doc.name, "ssh_config");
    assert_eq!(doc.rel_path, "folder1/ssh_config");
    assert_eq!(doc.abs_path, "docs/folder1/ssh_config");
    assert_eq!(doc.content, Some(s("Host example\n")));
}
