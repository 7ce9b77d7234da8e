//! The prompt builder: renders a fixed instructional preamble, the selected
//! documents labelled with their file names, and the question into the one
//! instruction string handed to the generation backend.

use vstd::prelude::*;

use crate::text::contains_seq;

verus! {

/// One document handed to the builder: its file name and its full text.
pub struct Document {
    pub name: String,
    pub content: String,
}

/// How one document is rendered inside the prompt: labelled with its file
/// name, its content quoted in full.
pub open spec fn doc_block(name: Seq<char>, content: Seq<char>) -> Seq<char> {
    "\n--- Invoice from "@ + name + " ---\n"@ + content + "\n"@
}

/// The rendered documents, in order.
pub open spec fn docs_section(docs: Seq<Document>) -> Seq<char>
    decreases docs.len(),
{
    if docs.len() == 0 {
        Seq::empty()
    } else {
        docs_section(docs.drop_last()) + doc_block(docs.last().name@, docs.last().content@)
    }
}

/// The closing part of the prompt: the literal question and the reminder to
/// answer in JSON alone.
pub open spec fn question_block(query: Seq<char>) -> Seq<char> {
    "\nQuestion: "@ + query + "\n\nRespond with JSON only."@
}

/// The whole prompt: preamble, documents, question.
pub open spec fn rendered_prompt(preamble: Seq<char>, docs: Seq<Document>, query: Seq<char>)
    -> Seq<char> {
    preamble + docs_section(docs) + question_block(query)
}

/// The file names of the documents, in order.
pub open spec fn doc_names(docs: Seq<Document>) -> Seq<Seq<char>> {
    docs.map_values(|d: Document| d.name@)
}

/// The preamble for general question answering over invoices: role, output
/// rules, and the opening of the document listing.
pub open spec fn processor_preamble() -> Seq<char> {
    "You are a precise invoice processor. Answer using ONLY the provided data.\nBe concise. Cite sources (file names) when possible.\n\nFor extraction/summary questions return JSON like:\n{\n  \"answer\": \"brief summary or extracted value\",\n  \"sources\": [\"inv_001.txt\", ...],\n  \"details\": { ... optional fields ... }\n}\n\nDocuments:"@
}

/// The preamble for arithmetic over invoice amounts: the same builder under
/// a stricter calculation-oriented rule set.
pub open spec fn calculator_preamble() -> Seq<char> {
    "You are a precise invoice calculator. Use ONLY the numbers and text below. Do NOT invent values.\n\nRules:\n- Return ONLY valid JSON - no explanations outside the JSON.\n- For sums: add exactly the totals shown; do not round or estimate.\n- List every invoice you used.\n\nDocuments:"@
}

/// The general question-answering preamble, as a string.
pub fn processor_preamble_text() -> (r: &'static str)
    ensures
        r@ == processor_preamble(),
{
    "You are a precise invoice processor. Answer using ONLY the provided data.\nBe concise. Cite sources (file names) when possible.\n\nFor extraction/summary questions return JSON like:\n{\n  \"answer\": \"brief summary or extracted value\",\n  \"sources\": [\"inv_001.txt\", ...],\n  \"details\": { ... optional fields ... }\n}\n\nDocuments:"
}

/// The calculation-oriented preamble, as a string.
pub fn calculator_preamble_text() -> (r: &'static str)
    ensures
        r@ == calculator_preamble(),
{
    "You are a precise invoice calculator. Use ONLY the numbers and text below. Do NOT invent values.\n\nRules:\n- Return ONLY valid JSON - no explanations outside the JSON.\n- For sums: add exactly the totals shown; do not round or estimate.\n- List every invoice you used.\n\nDocuments:"
}

/// Renders the prompt for `docs` and `query` under the given preamble.
pub fn build_prompt(preamble: &str, docs: &Vec<Document>, query: &str) -> (r: String)
    ensures
        r@ == rendered_prompt(preamble@, docs@, query@),
{
    let mut p: String = preamble.to_owned();
    proof {
        assert(p@ =~= preamble@ + docs_section(docs@.take(0)));
    }
    let mut i: usize = 0;
    while i < docs.len()
        invariant
            i <= docs.len(),
            p@ == preamble@ + docs_section(docs@.take(i as int)),
        decreases docs.len() - i,
    {
        p.append("\n--- Invoice from ");
        p.append(docs[i].name.as_str());
        p.append(" ---\n");
        p.append(docs[i].content.as_str());
        p.append("\n");
        proof {
            assert(docs@.take(i + 1).drop_last() =~= docs@.take(i as int));
            assert(docs@.take(i + 1).last() == docs@[i as int]);
            assert(p@ =~= preamble@ + docs_section(docs@.take(i + 1)));
        }
        i += 1;
    }
    proof {
        assert(docs@.take(docs@.len() as int) =~= docs@);
    }
    p.append("\nQuestion: ");
    p.append(query);
    p.append("\n\nRespond with JSON only.");
    proof {
        assert(p@ =~= rendered_prompt(preamble@, docs@, query@));
    }
    p
}

/// Renders the prompt and, beside it, the list of file names whose content
/// it quotes: the two are built from the same documents, so the reported
/// sources are exactly the files in the prompt.
pub fn prompt_with_sources(preamble: &str, docs: &Vec<Document>, query: &str) -> (r: (
    String,
    Vec<String>,
))
    ensures
        r.0@ == rendered_prompt(preamble@, docs@, query@),
        r.1.deep_view() == doc_names(docs@),
{
    let prompt = build_prompt(preamble, docs, query);
    let mut used: Vec<String> = Vec::new();
    let mut i: usize = 0;
    while i < docs.len()
        invariant
            i <= docs.len(),
            used.deep_view() == doc_names(docs@.take(i as int)),
        decreases docs.len() - i,
    {
        let ghost before = used.deep_view();
        used.push(docs[i].name.clone());
        proof {
            assert(used.deep_view() =~= before.push(docs@[i as int].name@));
            assert(before.push(docs@[i as int].name@) =~= doc_names(docs@.take(i + 1)));
        }
        i += 1;
    }
    proof {
        assert(docs@.take(docs@.len() as int) =~= docs@);
    }
    (prompt, used)
}

proof fn lemma_contains_extends_right(a: Seq<char>, b: Seq<char>, x: Seq<char>)
    requires
        contains_seq(a, x),
    ensures
        contains_seq(a + b, x),
{
    let i = choose|i: int|
        0 <= i && i + x.len() <= a.len() && #[trigger] a.subrange(i, i + x.len()) == x;
    assert((a + b).subrange(i, i + x.len()) =~= a.subrange(i, i + x.len()));
}

proof fn lemma_contains_extends_left(a: Seq<char>, b: Seq<char>, x: Seq<char>)
    requires
        contains_seq(b, x),
    ensures
        contains_seq(a + b, x),
{
    let i = choose|i: int|
        0 <= i && i + x.len() <= b.len() && #[trigger] b.subrange(i, i + x.len()) == x;
    assert((a + b).subrange(a.len() + i, a.len() + i + x.len()) =~= b.subrange(i, i + x.len()));
}

proof fn lemma_block_contains_content(name: Seq<char>, content: Seq<char>)
    ensures
        contains_seq(doc_block(name, content), content),
{
    let pre = "\n--- Invoice from "@ + name + " ---\n"@;
    assert((pre + content).subrange(pre.len() as int, pre.len() + content.len() as int)
        =~= content);
    assert(contains_seq(pre + content, content));
    lemma_contains_extends_right(pre + content, "\n"@, content);
    assert(pre + content + "\n"@ =~= doc_block(name, content));
}

proof fn lemma_section_contains_content(docs: Seq<Document>, i: int)
    requires
        0 <= i < docs.len(),
    ensures
        contains_seq(docs_section(docs), docs[i].content@),
    decreases docs.len(),
{
    if i == docs.len() - 1 {
        lemma_block_contains_content(docs.last().name@, docs.last().content@);
        lemma_contains_extends_left(
            docs_section(docs.drop_last()),
            doc_block(docs.last().name@, docs.last().content@),
            docs.last().content@,
        );
    } else {
        lemma_section_contains_content(docs.drop_last(), i);
        lemma_contains_extends_right(
            docs_section(docs.drop_last()),
            doc_block(docs.last().name@, docs.last().content@),
            docs[i].content@,
        );
    }
}

/// Each document handed to the builder has its content quoted somewhere in
/// the rendered prompt; together with the contract of `prompt_with_sources`
/// this ties the reported `used_files` to the prompt text itself.
pub proof fn lemma_prompt_quotes_each_source(
    preamble: Seq<char>,
    docs: Seq<Document>,
    query: Seq<char>,
    i: int,
)
    requires
        0 <= i < docs.len(),
    ensures
        contains_seq(rendered_prompt(preamble, docs, query), docs[i].content@),
        doc_names(docs)[i] == docs[i].name@,
{
    lemma_section_contains_content(docs, i);
    lemma_contains_extends_left(preamble, docs_section(docs), docs[i].content@);
    lemma_contains_extends_right(preamble + docs_section(docs), question_block(query),
        docs[i].content@);
}

} // verus!
