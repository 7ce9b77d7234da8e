//! The relevance selector: given the file names of a category directory and a
//! free-text query, picks the files whose content goes into the prompt.
//!
//! A `.txt` file is relevant when the lower-cased query contains its
//! lower-cased stem as a substring, or when the query mentions the token
//! `invoice` (any invoice-flavoured question pulls in every candidate file).
//! When nothing matches, a small bounded prefix of the listing serves as a
//! fallback so a request is never left with nothing to reason over.

use vstd::prelude::*;

use crate::text::{contains_seq, ends_with_seq, lower_of, lowercase, str_contains, str_ends_with,
    strip_suffix_of};

verus! {

broadcast use vstd::seq_lib::group_filter_ensures;

/// The name carries the `.txt` extension.
pub open spec fn is_txt_name(name: Seq<char>) -> bool {
    ends_with_seq(name, ".txt"@)
}

/// The file name without its `.txt` extension. A name that is nothing but
/// the extension (a bare leading dot) keeps the whole name, as
/// `Path::file_stem` treats a leading dot as part of the stem.
pub open spec fn txt_stem(name: Seq<char>) -> Seq<char>
    recommends
        is_txt_name(name),
{
    if name.len() == ".txt"@.len() {
        name
    } else {
        name.subrange(0, name.len() - ".txt"@.len())
    }
}

/// The selection rule for one file: a `.txt` file whose lower-cased stem
/// occurs in the lower-cased query, or any `.txt` file when the query
/// mentions `invoice`.
pub open spec fn file_matches(name: Seq<char>, query: Seq<char>) -> bool {
    is_txt_name(name) && (contains_seq(lower_of(query), lower_of(txt_stem(name)))
        || contains_seq(lower_of(query), "invoice"@))
}

pub open spec fn query_match_pred(query: Seq<char>) -> spec_fn(Seq<char>) -> bool {
    |n: Seq<char>| file_matches(n, query)
}

pub open spec fn txt_name_pred() -> spec_fn(Seq<char>) -> bool {
    |n: Seq<char>| is_txt_name(n)
}

/// The names that match the query, in listing order.
pub open spec fn matching_files(names: Seq<Seq<char>>, query: Seq<char>) -> Seq<Seq<char>> {
    names.filter(query_match_pred(query))
}

/// The first two directory entries, or the whole listing when it is shorter.
pub open spec fn first_two(names: Seq<Seq<char>>) -> Seq<Seq<char>> {
    if names.len() <= 2 {
        names
    } else {
        names.take(2)
    }
}

/// The bounded fallback: the `.txt` files among the first two entries.
pub open spec fn fallback_files(names: Seq<Seq<char>>) -> Seq<Seq<char>> {
    first_two(names).filter(txt_name_pred())
}

/// What selection returns: every match when there is one, the bounded
/// fallback otherwise.
pub open spec fn selected_files(names: Seq<Seq<char>>, query: Seq<char>) -> Seq<Seq<char>> {
    if matching_files(names, query).len() > 0 {
        matching_files(names, query)
    } else {
        fallback_files(names)
    }
}

proof fn lemma_filter_step<A>(s: Seq<A>, pred: spec_fn(A) -> bool, i: int)
    requires
        0 <= i < s.len(),
    ensures
        s.take(i + 1).filter(pred) == if pred(s[i]) {
            s.take(i).filter(pred).push(s[i])
        } else {
            s.take(i).filter(pred)
        },
{
    reveal(Seq::filter);
    assert(s.take(i + 1).drop_last() =~= s.take(i));
    assert(s.take(i + 1).last() == s[i]);
}

proof fn lemma_filter_all<A>(s: Seq<A>, pred: spec_fn(A) -> bool)
    requires
        forall|i: int| 0 <= i < s.len() ==> pred(#[trigger] s[i]),
    ensures
        s.filter(pred) == s,
    decreases s.len(),
{
    reveal(Seq::filter);
    if s.len() > 0 {
        lemma_filter_all(s.drop_last(), pred);
        assert(s.drop_last().push(s.last()) =~= s);
    }
}

/// The stem of one candidate file, as `Path::file_stem` derives it for a
/// name that ends in `.txt`.
fn stem_of_txt(name: &String) -> (r: String)
    requires
        is_txt_name(name@),
    ensures
        r@ == txt_stem(name@),
{
    let dot_txt: String = ".txt".to_owned();
    proof {
        reveal_strlit(".txt");
        if name@.len() == ".txt"@.len() {
            assert(name@.subrange(name@.len() - ".txt"@.len(), name@.len() as int) =~= name@);
        }
    }
    if *name == dot_txt {
        name.clone()
    } else {
        strip_suffix_of(name.as_str(), ".txt")
    }
}

/// Whether the selection rule admits `name` for `query`; `lower_query` is
/// the lower-cased query.
fn name_matches(name: &String, lower_query: &String, Ghost(query): Ghost<Seq<char>>) -> (r: bool)
    requires
        lower_query@ == lower_of(query),
    ensures
        r == file_matches(name@, query),
{
    if str_ends_with(name.as_str(), ".txt") {
        let stem = stem_of_txt(name);
        let lower_stem = lowercase(stem.as_str());
        str_contains(lower_query.as_str(), lower_stem.as_str()) || str_contains(
            lower_query.as_str(),
            "invoice",
        )
    } else {
        false
    }
}

/// Selection over a directory listing: every `.txt` file admitted by the
/// stem or invoice rule, in listing order; when none is, the `.txt` files
/// among the first two entries.
pub fn select_files(names: &Vec<String>, query: &str) -> (r: Vec<String>)
    ensures
        r.deep_view() == selected_files(names.deep_view(), query@),
{
    let lower_query = lowercase(query);
    let ghost names_dv: Seq<Seq<char>> = names.deep_view();
    let mut matches: Vec<String> = Vec::new();
    let mut i: usize = 0;
    while i < names.len()
        invariant
            i <= names.len(),
            names_dv == names.deep_view(),
            lower_query@ == lower_of(query@),
            matches.deep_view() == names_dv.take(i as int).filter(query_match_pred(query@)),
        decreases names.len() - i,
    {
        proof {
            assert(names_dv[i as int] == names@[i as int]@);
        }
        if name_matches(&names[i], &lower_query, Ghost(query@)) {
            let ghost before = matches.deep_view();
            matches.push(names[i].clone());
            proof {
                assert(matches.deep_view() =~= before.push(names_dv[i as int]));
            }
        }
        proof {
            lemma_filter_step(names_dv, query_match_pred(query@), i as int);
        }
        i += 1;
    }
    proof {
        assert(names_dv.take(names.len() as int) =~= names_dv);
    }
    if matches.len() == 0 {
        proof {
            assert(matches.deep_view().len() == matches@.len());
        }
        let limit: usize = if names.len() < 2 {
            names.len()
        } else {
            2
        };
        let mut j: usize = 0;
        while j < limit
            invariant
                j <= limit,
                limit == if names.len() < 2 { names@.len() as int } else { 2int },
                names_dv == names.deep_view(),
                matches.deep_view() == names_dv.take(j as int).filter(txt_name_pred()),
            decreases limit - j,
        {
            proof {
                assert(names_dv[j as int] == names@[j as int]@);
            }
            if str_ends_with(names[j].as_str(), ".txt") {
                let ghost before = matches.deep_view();
                matches.push(names[j].clone());
                proof {
                    assert(matches.deep_view() =~= before.push(names_dv[j as int]));
                }
            }
            proof {
                lemma_filter_step(names_dv, txt_name_pred(), j as int);
            }
            j += 1;
        }
        proof {
            assert(names_dv.take(limit as int) =~= first_two(names_dv));
        }
    }
    matches
}

proof fn lemma_filter_subset<A>(s: Seq<A>, pred: spec_fn(A) -> bool, j: int)
    requires
        0 <= j < s.filter(pred).len(),
    ensures
        s.contains(s.filter(pred)[j]),
    decreases s.len(),
{
    reveal(Seq::filter);
    if s.len() > 0 {
        let fs = s.filter(pred);
        if pred(s.last()) && j == fs.len() - 1 {
            assert(fs[j] == s.last());
            assert(s[s.len() - 1] == s.last());
        } else {
            lemma_filter_subset(s.drop_last(), pred, j);
            let i = choose|i: int| 0 <= i < s.drop_last().len() && s.drop_last()[i] == fs[j];
            assert(s[i] == fs[j]);
        }
    }
}

/// Selection never invents a file: every selected name is one of the
/// directory's own entries, and always a `.txt` file.
pub proof fn lemma_selection_sound(names: Seq<Seq<char>>, query: Seq<char>, j: int)
    requires
        0 <= j < selected_files(names, query).len(),
    ensures
        names.contains(selected_files(names, query)[j]),
        is_txt_name(selected_files(names, query)[j]),
{
    if matching_files(names, query).len() > 0 {
        lemma_filter_subset(names, query_match_pred(query), j);
        assert(query_match_pred(query)(selected_files(names, query)[j]));
    } else {
        lemma_filter_subset(first_two(names), txt_name_pred(), j);
        let x = selected_files(names, query)[j];
        assert(txt_name_pred()(x));
        let i = choose|i: int| 0 <= i < first_two(names).len() && first_two(names)[i] == x;
        assert(first_two(names)[i] == names[i]);
        assert(names.contains(x));
    }
}

/// Any `.txt` file whose lower-cased stem occurs in the lower-cased query is
/// part of the selection.
pub proof fn lemma_stem_match_selected(names: Seq<Seq<char>>, query: Seq<char>, i: int)
    requires
        0 <= i < names.len(),
        is_txt_name(names[i]),
        contains_seq(lower_of(query), lower_of(txt_stem(names[i]))),
    ensures
        selected_files(names, query).contains(names[i]),
{
    assert(query_match_pred(query)(names[i]));
    assert(matching_files(names, query).contains(names[i]));
    assert(matching_files(names, query).len() > 0);
}

/// When the query mentions the token `invoice`, every `.txt` file of the
/// listing is part of the selection, stem match or not.
pub proof fn lemma_invoice_token_selects_all(names: Seq<Seq<char>>, query: Seq<char>, i: int)
    requires
        0 <= i < names.len(),
        is_txt_name(names[i]),
        contains_seq(lower_of(query), "invoice"@),
    ensures
        selected_files(names, query).contains(names[i]),
{
    assert(query_match_pred(query)(names[i]));
    assert(matching_files(names, query).contains(names[i]));
    assert(matching_files(names, query).len() > 0);
}

/// Over a listing of `.txt` files, selection is empty exactly when the
/// listing is: when nothing matches, the bounded fallback still yields
/// something for a non-empty listing.
pub proof fn lemma_selection_empty_iff_dir_empty(names: Seq<Seq<char>>, query: Seq<char>)
    requires
        forall|i: int| 0 <= i < names.len() ==> is_txt_name(#[trigger] names[i]),
    ensures
        names.len() > 0 ==> selected_files(names, query).len() > 0,
        names.len() == 0 ==> selected_files(names, query).len() == 0,
{
    if names.len() == 0 {
        assert(matching_files(names, query).len() <= names.len());
        assert(first_two(names).len() == 0);
        assert(fallback_files(names).len() <= first_two(names).len());
    } else {
        if matching_files(names, query).len() == 0 {
            assert forall|i: int| 0 <= i < first_two(names).len() implies txt_name_pred()(
                #[trigger] first_two(names)[i],
            ) by {
                assert(first_two(names)[i] == names[i]);
            }
            lemma_filter_all(first_two(names), txt_name_pred());
            assert(fallback_files(names) == first_two(names));
            assert(first_two(names).len() > 0);
        }
    }
}

} // verus!
