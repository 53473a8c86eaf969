//! Pulling the generated text out of a response body.
//!
//! The response carries an `output` list. Each element with `type` equal to
//! `"message"` and `role` equal to `"assistant"` holds a `content` list, and
//! every content entry with `type` equal to `"output_text"` and a string
//! `text` member contributes that text, in source order. Everything else is
//! skipped; a body without a well-formed `output` list yields an empty
//! result, never an error.

use vstd::prelude::*;

use crate::json::{get_field, get_str_field, spec_field, spec_str_field, str_eq, JsonValue};

verus! {

/// The text a single content entry contributes, if any: its `text` member,
/// when the entry is tagged `output_text` and `text` is a string.
pub open spec fn spec_entry_text(entry: JsonValue) -> Option<Seq<char>> {
    if spec_str_field(entry, "type"@) == Some("output_text"@) {
        spec_str_field(entry, "text"@)
    } else {
        None
    }
}

/// An optional text as a sequence of zero or one texts.
pub open spec fn opt_text_seq(o: Option<Seq<char>>) -> Seq<Seq<char>> {
    match o {
        Some(t) => seq![t],
        None => Seq::empty(),
    }
}

/// The texts of a `content` list, in order.
pub open spec fn spec_entry_texts(entries: Seq<JsonValue>) -> Seq<Seq<char>>
    decreases entries.len(),
{
    if entries.len() == 0 {
        Seq::empty()
    } else {
        spec_entry_texts(entries.drop_last()) + opt_text_seq(spec_entry_text(entries.last()))
    }
}

/// Whether an output chunk is one the result takes text from: a `message`
/// authored by the assistant.
pub open spec fn spec_chunk_selected(chunk: JsonValue) -> bool {
    spec_str_field(chunk, "type"@) == Some("message"@) && spec_str_field(chunk, "role"@) == Some(
        "assistant"@,
    )
}

/// The `content` list of a chunk, when it has one.
pub open spec fn spec_chunk_entries(chunk: JsonValue) -> Option<Seq<JsonValue>> {
    match spec_field(chunk, "content"@) {
        Some(JsonValue::Array(entries)) => Some(entries@),
        _ => None,
    }
}

/// The texts a single output chunk contributes: those of its `content` list
/// when the chunk is selected and `content` is a list, nothing otherwise.
pub open spec fn spec_chunk_texts(chunk: JsonValue) -> Seq<Seq<char>> {
    if spec_chunk_selected(chunk) {
        match spec_chunk_entries(chunk) {
            Some(entries) => spec_entry_texts(entries),
            None => Seq::empty(),
        }
    } else {
        Seq::empty()
    }
}

/// The texts of a whole `output` list, chunk by chunk, in order.
pub open spec fn spec_chunks_texts(chunks: Seq<JsonValue>) -> Seq<Seq<char>>
    decreases chunks.len(),
{
    if chunks.len() == 0 {
        Seq::empty()
    } else {
        spec_chunks_texts(chunks.drop_last()) + spec_chunk_texts(chunks.last())
    }
}

/// The `output` list of a response body, when it has one.
pub open spec fn spec_output_chunks(body: JsonValue) -> Option<Seq<JsonValue>> {
    match spec_field(body, "output"@) {
        Some(JsonValue::Array(chunks)) => Some(chunks@),
        _ => None,
    }
}

/// What extraction returns on a response body: the texts of its `output`
/// list, or nothing when the body has no `output` list.
pub open spec fn spec_extract(body: JsonValue) -> Seq<Seq<char>> {
    match spec_output_chunks(body) {
        Some(chunks) => spec_chunks_texts(chunks),
        None => Seq::empty(),
    }
}

/// Appends the texts of one output chunk to `texts`.
fn push_chunk_texts(texts: &mut Vec<String>, chunk: &JsonValue)
    ensures
        final(texts).deep_view() == old(texts).deep_view() + spec_chunk_texts(*chunk),
{
    let ghost dv0 = texts.deep_view();
    let selected = match get_str_field(chunk, "type") {
        Some(t) => str_eq(t.as_str(), "message"),
        None => false,
    };
    if !selected {
        assert(texts.deep_view() =~= dv0 + spec_chunk_texts(*chunk));
        return ;
    }
    let from_assistant = match get_str_field(chunk, "role") {
        Some(r) => str_eq(r.as_str(), "assistant"),
        None => false,
    };
    if !from_assistant {
        assert(texts.deep_view() =~= dv0 + spec_chunk_texts(*chunk));
        return ;
    }
    match get_field(chunk, "content") {
        Some(JsonValue::Array(entries)) => {
            let mut i: usize = 0;
            proof {
                assert(entries@.take(0) =~= Seq::<JsonValue>::empty());
            }
            while i < entries.len()
                invariant
                    i <= entries.len(),
                    texts.deep_view() == dv0 + spec_entry_texts(entries@.take(i as int)),
                decreases entries.len() - i,
            {
                proof {
                    assert(entries@.take(i + 1).drop_last() =~= entries@.take(i as int));
                    assert(entries@.take(i + 1).last() == entries@[i as int]);
                }
                let entry = &entries[i];
                let is_text = match get_str_field(entry, "type") {
                    Some(t) => str_eq(t.as_str(), "output_text"),
                    None => false,
                };
                if is_text {
                    if let Some(t) = get_str_field(entry, "text") {
                        let ghost before = texts.deep_view();
                        texts.push(t.clone());
                        assert(texts.deep_view() =~= before + seq![t@]);
                    }
                }
                i = i + 1;
            }
            proof {
                assert(entries@.take(entries@.len() as int) =~= entries@);
            }
        },
        _ => {
            assert(texts.deep_view() =~= dv0 + spec_chunk_texts(*chunk));
        },
    }
}

/// Extraction is a pure function of the document: any two results computed
/// from the same body are the same list.
pub proof fn lemma_extract_deterministic(body: JsonValue, r1: Seq<Seq<char>>, r2: Seq<Seq<char>>)
    requires
        r1 == spec_extract(body),
        r2 == spec_extract(body),
    ensures
        r1 == r2,
{
}

/// A body whose `output` member is absent, null, or not a list extracts the
/// empty list; it is not an error.
pub proof fn lemma_without_output_list_nothing_is_extracted(body: JsonValue)
    requires
        spec_output_chunks(body) is None,
    ensures
        spec_extract(body) == Seq::<Seq<char>>::empty(),
{
}

/// A chunk whose `type` is not the string `message` — a `reasoning` chunk,
/// say, whatever its `summary` holds — contributes no text.
pub proof fn lemma_non_message_chunk_contributes_nothing(chunk: JsonValue)
    requires
        spec_str_field(chunk, "type"@) != Some("message"@),
    ensures
        spec_chunk_texts(chunk) == Seq::<Seq<char>>::empty(),
{
}

/// A chunk whose `role` is not the string `assistant` contributes no text,
/// even when its `type` is `message`.
pub proof fn lemma_non_assistant_chunk_contributes_nothing(chunk: JsonValue)
    requires
        spec_str_field(chunk, "role"@) != Some("assistant"@),
    ensures
        spec_chunk_texts(chunk) == Seq::<Seq<char>>::empty(),
{
}

/// Removing a chunk that is no assistant message from the `output` list
/// leaves the extracted texts unchanged.
pub proof fn lemma_unselected_chunk_is_skipped(chunks: Seq<JsonValue>, i: int)
    requires
        0 <= i < chunks.len(),
        !spec_chunk_selected(chunks[i]),
    ensures
        spec_chunks_texts(chunks) == spec_chunks_texts(chunks.remove(i)),
    decreases chunks.len(),
{
    if i == chunks.len() - 1 {
        assert(chunks.remove(i) =~= chunks.drop_last());
        assert(spec_chunks_texts(chunks) =~= spec_chunks_texts(chunks.drop_last()));
    } else {
        let pre = chunks.drop_last();
        lemma_unselected_chunk_is_skipped(pre, i);
        assert(chunks.remove(i).drop_last() =~= pre.remove(i));
        assert(chunks.remove(i).last() == chunks.last());
    }
}

/// A `content` list with an `output_text` entry that carries a string
/// `text` yields at least one text.
pub proof fn lemma_entry_with_text_extracts_some(entries: Seq<JsonValue>, j: int)
    requires
        0 <= j < entries.len(),
        spec_entry_text(entries[j]) is Some,
    ensures
        spec_entry_texts(entries).len() > 0,
    decreases entries.len(),
{
    if j < entries.len() - 1 {
        lemma_entry_with_text_extracts_some(entries.drop_last(), j);
    }
}

/// An `output` list with a chunk that contributes text extracts a non-empty
/// list.
pub proof fn lemma_chunk_with_text_extracts_some(chunks: Seq<JsonValue>, i: int)
    requires
        0 <= i < chunks.len(),
        spec_chunk_texts(chunks[i]).len() > 0,
    ensures
        spec_chunks_texts(chunks).len() > 0,
    decreases chunks.len(),
{
    if i < chunks.len() - 1 {
        lemma_chunk_with_text_extracts_some(chunks.drop_last(), i);
    }
}

/// A response that holds a well-formed assistant message — chunk `i` of its
/// `output` list is a selected assistant `message`, and entry `j` of that
/// chunk's `content` list is an `output_text` with a string `text` —
/// extracts a non-empty list. Which texts the list holds, and in what
/// order, is what `spec_extract` itself states.
pub proof fn lemma_well_formed_message_yields_text(body: JsonValue, i: int, j: int)
    requires
        spec_output_chunks(body) is Some,
        0 <= i < spec_output_chunks(body)->Some_0.len(),
        spec_chunk_selected(spec_output_chunks(body)->Some_0[i]),
        spec_chunk_entries(spec_output_chunks(body)->Some_0[i]) is Some,
        0 <= j < spec_chunk_entries(spec_output_chunks(body)->Some_0[i])->Some_0.len(),
        spec_entry_text(spec_chunk_entries(spec_output_chunks(body)->Some_0[i])->Some_0[j])
            is Some,
    ensures
        spec_extract(body).len() > 0,
{
    let chunks = spec_output_chunks(body)->Some_0;
    let entries = spec_chunk_entries(chunks[i])->Some_0;
    lemma_entry_with_text_extracts_some(entries, j);
    lemma_chunk_with_text_extracts_some(chunks, i);
}

/// Collects, in source order, the text of every `output_text` content entry
/// of every assistant `message` chunk of `body`'s `output` list.
pub fn extract_responses(body: &JsonValue) -> (r: Vec<String>)
    ensures
        r.deep_view() == spec_extract(*body),
{
    let mut texts: Vec<String> = Vec::new();
    match get_field(body, "output") {
        Some(JsonValue::Array(chunks)) => {
            let mut i: usize = 0;
            proof {
                assert(chunks@.take(0) =~= Seq::<JsonValue>::empty());
                assert(texts.deep_view() =~= Seq::<Seq<char>>::empty());
            }
            while i < chunks.len()
                invariant
                    i <= chunks.len(),
                    texts.deep_view() == spec_chunks_texts(chunks@.take(i as int)),
                decreases chunks.len() - i,
            {
                proof {
                    assert(chunks@.take(i + 1).drop_last() =~= chunks@.take(i as int));
                    assert(chunks@.take(i + 1).last() == chunks@[i as int]);
                }
                push_chunk_texts(&mut texts, &chunks[i]);
                i = i + 1;
            }
            proof {
                assert(chunks@.take(chunks@.len() as int) =~= chunks@);
            }
            texts
        },
        _ => {
            assert(texts.deep_view() =~= Seq::<Seq<char>>::empty());
            texts
        },
    }
}

} // verus!
