use invoice_qa::select::select_files;

fn names(v: &[&str]) -> Vec<String> {
    v.iter().map(|s| s.to_string()).collect()
}

#[test]
fn stem_match_picks_the_named_file() {
    let listing = names(&["inv_001.txt", "inv_002.txt"]);
    let picked = select_files(&listing, "what is the total on inv_001");
    assert_eq!(picked, names(&["inv_001.txt"]));
}

#[test]
fn invoice_token_broadens_to_all_files() {
    let listing = names(&["inv_001.txt", "inv_002.txt"]);
    let picked = select_files(&listing, "summarize all invoices");
    assert_eq!(picked, names(&["inv_001.txt", "inv_002.txt"]));
}

#[test]
fn irrelevant_query_falls_back_to_bounded_prefix() {
    let listing = names(&["inv_001.txt", "inv_002.txt"]);
    let picked = select_files(&listing, "irrelevant question");
    assert_eq!(picked, names(&["inv_001.txt", "inv_002.txt"]));
}

#[test]
fn fallback_is_bounded_by_two_entries() {
    let listing = names(&["first.txt", "second.txt", "third.txt", "fourth.txt"]);
    let picked = select_files(&listing, "hello world");
    assert_eq!(picked, names(&["first.txt", "second.txt"]));
}

#[test]
fn empty_directory_selects_nothing() {
    let listing: Vec<String> = Vec::new();
    let picked = select_files(&listing, "what is the total on inv_001");
    assert!(picked.is_empty());
}

#[test]
fn stem_matching_is_case_insensitive() {
    let listing = names(&["Inv_001.txt", "other_one.txt", "other_two.txt"]);
    let picked = select_files(&listing, "TOTAL ON INV_001 PLEASE");
    assert_eq!(picked, names(&["Inv_001.txt"]));
}

#[test]
fn invoice_token_is_case_insensitive() {
    let listing = names(&["alpha.txt", "beta.txt", "gamma.txt"]);
    let picked = select_files(&listing, "Sum every INVOICE");
    assert_eq!(picked, names(&["alpha.txt", "beta.txt", "gamma.txt"]));
}

#[test]
fn non_txt_files_are_never_matched() {
    let listing = names(&["inv_001.md", "inv_001.txt"]);
    let picked = select_files(&listing, "open inv_001");
    assert_eq!(picked, names(&["inv_001.txt"]));
}

#[test]
fn fallback_keeps_only_txt_entries() {
    let listing = names(&["a.md", "b.md", "c.txt"]);
    let picked = select_files(&listing, "nothing relevant here");
    assert!(picked.is_empty());
}

#[test]
fn bare_extension_name_keeps_whole_name_as_stem() {
    let listing = names(&[".txt"]);
    let picked = select_files(&listing, "what about the .txt file");
    assert_eq!(picked, names(&[".txt"]));
}

#[test]
fn substring_of_query_not_of_stem_does_not_match() {
    let listing = names(&["quarterly_report.txt"]);
    let picked = select_files(&listing, "show me the report");
    // no stem match and no invoice token: the bounded fallback applies
    assert_eq!(picked, names(&["quarterly_report.txt"]));
}
