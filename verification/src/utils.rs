//! Rendering of prompts, size limits and facts about tools.
use vstd::prelude::*;

use crate::model::{ChatMessage, ContentBlock, EmbeddedResource};
use crate::text;
use crate::text::{decimal_string, str_eq, trim};
use vstd::utf8::{encode_utf8, is_char_boundary};

verus! {

/// The number of bytes of a text in UTF-8.
pub open spec fn byte_len(chars: Seq<char>) -> nat {
    encode_utf8(chars).len()
}

/// The number of bytes of a text in UTF-8.
pub fn len_bytes(input: &str) -> (n: usize)
    ensures
        n == byte_len(input@),
{
    input.as_bytes().len()
}

/// What stands in for a prompt that has attachments and no text.
pub open spec fn attachments_note() -> Seq<char> {
    "(attachments included)"@
}

/// The user's own text in a prompt: its first block, where that is text.
pub open spec fn user_text(blocks: Seq<ContentBlock>) -> Seq<char> {
    if blocks.len() > 0 && blocks[0] is Text {
        blocks[0]->Text_0@
    } else {
        Seq::empty()
    }
}

/// The user's own text in a prompt: its first block, where that is text.
pub fn format_prompt_user_text_only(blocks: &Vec<ContentBlock>) -> (out: String)
    ensures
        out@ == user_text(blocks@),
{
    if blocks.len() > 0 {
        match &blocks[0] {
            ContentBlock::Text(text) => {
                return text.clone();
            },
            _ => {},
        }
    }
    String::new()
}

/// A prompt has attachments: blocks behind the first one, or a first block that is not text.
pub open spec fn has_attachments(blocks: Seq<ContentBlock>) -> bool {
    blocks.len() > 1 || (blocks.len() > 0 && !(blocks[0] is Text))
}

/// A prompt as users see it: the trimmed user text, or a placeholder when there is none
/// and the prompt has attachments.
pub open spec fn display_text(blocks: Seq<ContentBlock>) -> Seq<char> {
    let trimmed = text::trimmed(user_text(blocks));
    if trimmed.len() > 0 {
        trimmed
    } else if has_attachments(blocks) {
        attachments_note()
    } else {
        Seq::empty()
    }
}

fn is_text(block: &ContentBlock) -> (yes: bool)
    ensures
        yes == (*block is Text),
{
    match block {
        ContentBlock::Text(_) => true,
        _ => false,
    }
}

/// A prompt as users see it.
pub fn render_prompt_for_display(blocks: &Vec<ContentBlock>) -> (out: String)
    ensures
        out@ == display_text(blocks@),
{
    let user = format_prompt_user_text_only(blocks);
    let user_text = trim(user.as_str());
    if !user_text.as_str().is_empty() {
        return user_text;
    }
    let attached = blocks.len() > 1 || (blocks.len() > 0 && !is_text(&blocks[0]));
    if attached {
        "(attachments included)".to_string()
    } else {
        String::new()
    }
}

/// One block as a model sees it.
pub open spec fn block_text(block: ContentBlock) -> Seq<char> {
    match block {
        ContentBlock::Text(text) => text@,
        ContentBlock::ResourceLink(link) => "[Resource: "@ + link.name@ + "] "@ + link.uri@ + "\n"@
            + match link.description {
            Some(description) => description@,
            None => Seq::empty(),
        },
        ContentBlock::Resource(EmbeddedResource::Text { uri, text }) => "[Embedded Resource: "@
            + uri@ + "]\n"@ + text@,
        ContentBlock::Resource(EmbeddedResource::Blob { uri, blob }) => "[Embedded Resource: "@
            + uri@ + "] (blob, "@ + text::decimal(byte_len(blob@)) + " bytes)"@,
        ContentBlock::Resource(EmbeddedResource::Unsupported) =>
            "[Embedded Resource: unsupported]"@,
        ContentBlock::Image(media) => "[Image] mime="@ + media.mime_type@ + ", bytes="@
            + text::decimal(byte_len(media.data@)),
        ContentBlock::Audio(media) => "[Audio] mime="@ + media.mime_type@ + ", bytes="@
            + text::decimal(byte_len(media.data@)),
        ContentBlock::Unsupported => "[Unsupported content block]"@,
    }
}

fn push_bytes(out: &mut String, data: &str)
    ensures
        final(out)@ == old(out)@ + text::decimal(byte_len(data@)),
{
    let n: usize = len_bytes(data);
    let digits = decimal_string(n as u64);
    out.append(digits.as_str());
}

/// One block as a model sees it.
fn render_block(block: &ContentBlock) -> (out: String)
    ensures
        out@ == block_text(*block),
{
    match block {
        ContentBlock::Text(text) => text.clone(),
        ContentBlock::ResourceLink(link) => {
            let mut out = "[Resource: ".to_string();
            out.append(link.name.as_str());
            out.append("] ");
            out.append(link.uri.as_str());
            out.append("\n");
            match &link.description {
                Some(description) => out.append(description.as_str()),
                None => {},
            }
            out
        },
        ContentBlock::Resource(EmbeddedResource::Text { uri, text }) => {
            let mut out = "[Embedded Resource: ".to_string();
            out.append(uri.as_str());
            out.append("]\n");
            out.append(text.as_str());
            out
        },
        ContentBlock::Resource(EmbeddedResource::Blob { uri, blob }) => {
            let mut out = "[Embedded Resource: ".to_string();
            out.append(uri.as_str());
            out.append("] (blob, ");
            push_bytes(&mut out, blob.as_str());
            out.append(" bytes)");
            out
        },
        ContentBlock::Resource(EmbeddedResource::Unsupported) => {
            "[Embedded Resource: unsupported]".to_string()
        },
        ContentBlock::Image(media) => {
            let mut out = "[Image] mime=".to_string();
            out.append(media.mime_type.as_str());
            out.append(", bytes=");
            push_bytes(&mut out, media.data.as_str());
            out
        },
        ContentBlock::Audio(media) => {
            let mut out = "[Audio] mime=".to_string();
            out.append(media.mime_type.as_str());
            out.append(", bytes=");
            push_bytes(&mut out, media.data.as_str());
            out
        },
        ContentBlock::Unsupported => "[Unsupported content block]".to_string(),
    }
}

/// A prompt as a model sees it: the blocks in order, set apart by an empty line wherever
/// something stands before.
pub open spec fn llm_text(blocks: Seq<ContentBlock>) -> Seq<char>
    decreases blocks.len(),
{
    if blocks.len() == 0 {
        Seq::empty()
    } else {
        let before = llm_text(blocks.drop_last());
        let lead = if before.len() > 0 {
            before + "\n\n"@
        } else {
            before
        };
        lead + block_text(blocks.last())
    }
}

/// A prompt as a model sees it, cut to `max_prompt_bytes` where a limit is given.
pub fn render_prompt_for_llm(blocks: &Vec<ContentBlock>, max_prompt_bytes: Option<usize>) -> (out:
    String)
    ensures
        match max_prompt_bytes {
            None => out@ == llm_text(blocks@),
            Some(max) => encode_utf8(out@) == truncated(
                encode_utf8(llm_text(blocks@)),
                max as nat,
            ),
        },
{
    let mut content = String::new();
    let mut i: usize = 0;
    assert(blocks@.subrange(0, 0) =~= Seq::empty());
    while i < blocks.len()
        invariant
            i <= blocks@.len(),
            content@ == llm_text(blocks@.subrange(0, i as int)),
        decreases blocks@.len() - i,
    {
        proof {
            let longer = blocks@.subrange(0, i + 1);
            assert(longer.drop_last() =~= blocks@.subrange(0, i as int));
            assert(longer.last() == blocks@[i as int]);
        }
        if !content.as_str().is_empty() {
            content.append("\n\n");
        }
        let rendered = render_block(&blocks[i]);
        content.append(rendered.as_str());
        i = i + 1;
    }
    assert(blocks@.subrange(0, i as int) =~= blocks@);
    match max_prompt_bytes {
        Some(max_bytes) => truncate_to_bytes(content.as_str(), max_bytes),
        None => content,
    }
}

/// What is put at the end of a text that was cut.
pub open spec fn truncation_note() -> Seq<u8> {
    encode_utf8("\n[truncated]"@)
}

/// The last character boundary of `bytes` at or before `limit`.
pub open spec fn boundary_at_most(bytes: Seq<u8>, limit: int) -> int
    decreases limit,
{
    if limit <= 0 || is_char_boundary(bytes, limit) {
        limit
    } else {
        boundary_at_most(bytes, limit - 1)
    }
}

/// `bytes` cut to at most `max` bytes. A text that does not fit loses whole characters
/// at its end until the note fits too; where not even the note fits, as much of the note
/// as fits is all there is.
pub open spec fn truncated(bytes: Seq<u8>, max: nat) -> Seq<u8> {
    let note = truncation_note();
    if bytes.len() <= max {
        bytes
    } else if max <= note.len() {
        note.subrange(0, max as int)
    } else {
        bytes.subrange(0, boundary_at_most(bytes, max - note.len())) + note
    }
}

proof fn lemma_encode_concat(a: Seq<char>, b: Seq<char>)
    ensures
        encode_utf8(a + b) == encode_utf8(a) + encode_utf8(b),
    decreases a.len(),
{
    if a.len() == 0 {
        assert(a + b =~= b);
        assert(encode_utf8(a) + encode_utf8(b) =~= encode_utf8(b));
    } else {
        lemma_encode_concat(a.drop_first(), b);
        assert((a + b).drop_first() =~= a.drop_first() + b);
        assert((a + b)[0] == a[0]);
        let head = vstd::utf8::encode_scalar(a[0] as u32);
        assert(head + (encode_utf8(a.drop_first()) + encode_utf8(b)) =~= (head + encode_utf8(
            a.drop_first(),
        )) + encode_utf8(b));
    }
}

proof fn lemma_note()
    ensures
        "\n[truncated]"@.len() == 12,
        vstd::utf8::is_ascii_chars("\n[truncated]"@),
        truncation_note().len() == 12,
{
    reveal_strlit("\n[truncated]");
    assert(vstd::utf8::is_ascii_chars("\n[truncated]"@));
    vstd::utf8::is_ascii_chars_encode_utf8("\n[truncated]"@);
}

proof fn lemma_ascii_prefix(chars: Seq<char>, n: int)
    requires
        vstd::utf8::is_ascii_chars(chars),
        0 <= n <= chars.len(),
    ensures
        encode_utf8(chars.subrange(0, n)) == encode_utf8(chars).subrange(0, n),
{
    let part = chars.subrange(0, n);
    assert(vstd::utf8::is_ascii_chars(part));
    vstd::utf8::is_ascii_chars_encode_utf8(chars);
    vstd::utf8::is_ascii_chars_encode_utf8(part);
    assert(encode_utf8(part) =~= encode_utf8(chars).subrange(0, n));
}

proof fn lemma_boundary(bytes: Seq<u8>, limit: int)
    requires
        vstd::utf8::valid_utf8(bytes),
        0 <= limit <= bytes.len(),
    ensures
        0 <= boundary_at_most(bytes, limit) <= limit,
        is_char_boundary(bytes, boundary_at_most(bytes, limit)),
    decreases limit,
{
    vstd::utf8::is_char_boundary_start_end_of_seq(bytes);
    if limit > 0 && !is_char_boundary(bytes, limit) {
        lemma_boundary(bytes, limit - 1);
    }
}

/// Cuts a text to at most `max_bytes` bytes, at a character boundary, with a note.
pub fn truncate_to_bytes(input: &str, max_bytes: usize) -> (out: String)
    ensures
        encode_utf8(out@) == truncated(encode_utf8(input@), max_bytes as nat),
{
    proof {
        lemma_note();
    }
    let ghost bytes = encode_utf8(input@);
    if len_bytes(input) <= max_bytes {
        return input.to_owned();
    }
    let note = "\n[truncated]";
    let note_len: usize = len_bytes(note);
    if max_bytes <= note_len {
        proof {
            lemma_ascii_prefix(note@, max_bytes as int);
        }
        return note.substring_ascii(0, max_bytes).to_owned();
    }
    let mut end: usize = max_bytes - note_len;
    proof {
        vstd::utf8::encode_utf8_valid_utf8(input@);
    }
    while !input.is_char_boundary(end) && end > 0
        invariant
            end <= bytes.len(),
            bytes == encode_utf8(input@),
            boundary_at_most(bytes, end as int) == boundary_at_most(
                bytes,
                max_bytes - truncation_note().len(),
            ),
        decreases end,
    {
        end = end - 1;
    }
    proof {
        lemma_boundary(bytes, max_bytes - note_len);
        lemma_boundary(bytes, end as int);
    }
    let kept = input.split_at(end).0;
    let mut out = kept.to_owned();
    out.append(note);
    proof {
        lemma_encode_concat(kept@, note@);
    }
    out
}

/// A text that was cut is never longer than its limit.
pub proof fn law_truncation_respects_the_limit(text: Seq<char>, max: nat)
    ensures
        truncated(encode_utf8(text), max).len() <= max,
{
    lemma_note();
    let bytes = encode_utf8(text);
    vstd::utf8::encode_utf8_valid_utf8(text);
    if bytes.len() > max && max > 12 {
        lemma_boundary(bytes, max - 12);
    }
}

/// A text that fits is not changed, and cutting twice is the same as cutting once.
pub proof fn law_truncation_is_idempotent(text: Seq<char>, max: nat)
    ensures
        byte_len(text) <= max ==> truncated(encode_utf8(text), max) == encode_utf8(text),
        truncated(truncated(encode_utf8(text), max), max) == truncated(encode_utf8(text), max),
{
    law_truncation_respects_the_limit(text, max);
}

/// The bytes of all messages together.
pub open spec fn total_bytes(messages: Seq<ChatMessage>) -> nat
    decreases messages.len(),
{
    if messages.len() == 0 {
        0
    } else {
        total_bytes(messages.drop_last()) + byte_len(messages.last().content@)
    }
}

proof fn lemma_total_bytes_prefix(messages: Seq<ChatMessage>, n: int)
    requires
        0 <= n <= messages.len(),
    ensures
        total_bytes(messages.subrange(0, n)) <= total_bytes(messages),
    decreases messages.len() - n,
{
    if n < messages.len() {
        lemma_total_bytes_prefix(messages, n + 1);
        let longer = messages.subrange(0, n + 1);
        assert(longer.drop_last() =~= messages.subrange(0, n));
    } else {
        assert(messages.subrange(0, n) =~= messages);
    }
}

/// A rough token count: a quarter of the bytes, and at least one.
pub fn approximate_token_count(messages: &Vec<ChatMessage>) -> (tokens: usize)
    requires
        total_bytes(messages@) <= usize::MAX,
    ensures
        tokens == if total_bytes(messages@) / 4 > 1 {
            total_bytes(messages@) / 4
        } else {
            1
        },
{
    let mut chars: usize = 0;
    let mut i: usize = 0;
    assert(messages@.subrange(0, 0) =~= Seq::empty());
    while i < messages.len()
        invariant
            i <= messages@.len(),
            chars == total_bytes(messages@.subrange(0, i as int)),
            total_bytes(messages@) <= usize::MAX,
        decreases messages@.len() - i,
    {
        proof {
            let longer = messages@.subrange(0, i + 1);
            assert(longer.drop_last() =~= messages@.subrange(0, i as int));
            assert(longer.last() == messages@[i as int]);
            lemma_total_bytes_prefix(messages@, i + 1);
        }
        chars = chars + len_bytes(messages[i].content.as_str());
        i = i + 1;
    }
    assert(messages@.subrange(0, i as int) =~= messages@);
    let quarter: usize = chars / 4;
    if quarter > 1 {
        quarter
    } else {
        1
    }
}

/// What a tool does, for display.
#[derive(Debug, Clone, Copy, PartialEq, Eq, Structural)]
pub enum ToolKind {
    Search,
    Edit,
    Delete,
    Execute,
    Fetch,
    Other,
}

/// The kind of the tool `name`.
pub open spec fn tool_kind(name: Seq<char>) -> ToolKind {
    if name == "search_text"@ || name == "mdq"@ {
        ToolKind::Search
    } else if name == "write_file"@ || name == "apply_patch"@ {
        ToolKind::Edit
    } else if name == "delete_file"@ {
        ToolKind::Delete
    } else if name == "shell"@ {
        ToolKind::Execute
    } else if name == "web_fetch"@ || name == "browse"@ {
        ToolKind::Fetch
    } else {
        ToolKind::Other
    }
}

/// The kind of the tool `name`.
pub fn tool_kind_for_tool(name: &str) -> (kind: ToolKind)
    ensures
        kind == tool_kind(name@),
{
    if str_eq(name, "search_text") || str_eq(name, "mdq") {
        ToolKind::Search
    } else if str_eq(name, "write_file") || str_eq(name, "apply_patch") {
        ToolKind::Edit
    } else if str_eq(name, "delete_file") {
        ToolKind::Delete
    } else if str_eq(name, "shell") {
        ToolKind::Execute
    } else if str_eq(name, "web_fetch") || str_eq(name, "browse") {
        ToolKind::Fetch
    } else {
        ToolKind::Other
    }
}

/// Whether `serde_json` reads `text` as JSON.
pub uninterp spec fn json_is_valid(text: Seq<char>) -> bool;

/// Calls `serde_json::from_str` for any JSON value: whether the text is JSON. It is a function
/// of the text.
#[verifier::external_body]
pub(crate) fn is_json(text: &str) -> (yes: bool)
    ensures
        yes == json_is_valid(text@),
{
    serde_json::from_str::<serde_json::Value>(text).is_ok()
}

/// What the JSON text `text` holds under `key`: the string that is the member `key` of
/// the object that `serde_json` reads from `text`, if there is one.
pub uninterp spec fn json_string_member(text: Seq<char>, key: Seq<char>) -> Option<Seq<char>>;

/// Calls `serde_json::from_str`, `Value::get` and `Value::as_str`: the string under `key`
/// in a JSON object. Text that is no JSON, a value that is no object, a missing member
/// and a member that is no string all give nothing.
#[verifier::external_body]
pub(crate) fn read_json_string(text: &str, key: &str) -> (value: Option<String>)
    ensures
        match value {
            Some(s) => json_string_member(text@, key@) == Some(s@) && json_is_valid(text@),
            None => json_string_member(text@, key@) is None,
        },
{
    let value: serde_json::Value = serde_json::from_str(text).ok()?;
    value.get(key).and_then(|member| member.as_str()).map(|s| s.to_string())
}

/// The locations that a tool call's `path` and `root` arguments name, in this order.
pub fn locations_from(path: Option<String>, root: Option<String>) -> (locations: Vec<String>)
    ensures
        locations@ == (match path {
            Some(p) => seq![p],
            None => seq![],
        }) + (match root {
            Some(r) => seq![r],
            None => seq![],
        }),
{
    let mut locations: Vec<String> = Vec::new();
    if let Some(path) = path {
        locations.push(path);
    }
    if let Some(root) = root {
        locations.push(root);
    }
    locations
}

/// The text of an optional string as a sequence of at most one text.
pub open spec fn one_or_none(value: Option<Seq<char>>) -> Seq<Seq<char>> {
    match value {
        Some(text) => seq![text],
        None => seq![],
    }
}

/// The file locations that the arguments of a tool call, given as JSON text, name.
pub fn extract_locations(args: &str) -> (locations: Vec<String>)
    ensures
        locations@.map_values(|s: String| s@) == one_or_none(json_string_member(args@, "path"@))
            + one_or_none(json_string_member(args@, "root"@)),
{
    let path = read_json_string(args, "path");
    let root = read_json_string(args, "root");
    let locations = locations_from(path, root);
    assert(locations@.map_values(|s: String| s@) =~= one_or_none(
        json_string_member(args@, "path"@),
    ) + one_or_none(json_string_member(args@, "root"@)));
    locations
}

/// The text of a prompt is that of its first block, where that is text.
pub proof fn law_prompts_are_read_from_their_first_block(blocks: Seq<ContentBlock>)
    ensures
        blocks.len() > 0 ==> (blocks[0] matches ContentBlock::Text(words) ==> user_text(blocks)
            == words@),
        blocks.len() > 0 && !(blocks[0] is Text) ==> user_text(blocks).len() == 0,
        blocks.len() == 0 ==> user_text(blocks).len() == 0,
{
}

/// A prompt is shown by its text without the white space around it; where it has none, by a
/// note that something is attached, and by nothing where nothing is.
pub proof fn law_prompts_are_shown_by_their_text(blocks: Seq<ContentBlock>)
    ensures
        text::trimmed(user_text(blocks)).len() > 0 ==> display_text(blocks) == text::trimmed(
            user_text(blocks),
        ),
        text::trimmed(user_text(blocks)).len() == 0 && blocks.len() >= 2 ==> display_text(blocks)
            == "(attachments included)"@,
        text::trimmed(user_text(blocks)).len() == 0 && blocks.len() == 1 && !(blocks[0] is Text)
            ==> display_text(blocks) == "(attachments included)"@,
        text::trimmed(user_text(blocks)).len() == 0 && blocks.len() == 1 && blocks[0] is Text
            ==> display_text(blocks).len() == 0,
        blocks.len() == 0 ==> display_text(blocks).len() == 0,
{
}

/// How a block is put into words for the model: text as it is, anything else by what it is.
pub proof fn law_blocks_are_put_into_words(block: ContentBlock)
    ensures
        block matches ContentBlock::Text(words) ==> block_text(block) == words@,
        block matches ContentBlock::ResourceLink(link) ==> {
            &&& link.description matches Some(description) ==> block_text(block) == "[Resource: "@
                + link.name@ + "] "@ + link.uri@ + "\n"@ + description@
            &&& link.description is None ==> block_text(block) == "[Resource: "@ + link.name@
                + "] "@ + link.uri@ + "\n"@
        },
        block matches ContentBlock::Resource(EmbeddedResource::Text { uri, text }) ==> block_text(
            block,
        ) == "[Embedded Resource: "@ + uri@ + "]\n"@ + text@,
        block matches ContentBlock::Resource(EmbeddedResource::Blob { uri, blob }) ==> block_text(
            block,
        ) == "[Embedded Resource: "@ + uri@ + "] (blob, "@ + text::decimal(
            encode_utf8(blob@).len(),
        ) + " bytes)"@,
        block matches ContentBlock::Resource(EmbeddedResource::Unsupported) ==> block_text(block)
            == "[Embedded Resource: unsupported]"@,
        block matches ContentBlock::Image(media) ==> block_text(block) == "[Image] mime="@
            + media.mime_type@ + ", bytes="@ + text::decimal(encode_utf8(media.data@).len()),
        block matches ContentBlock::Audio(media) ==> block_text(block) == "[Audio] mime="@
            + media.mime_type@ + ", bytes="@ + text::decimal(encode_utf8(media.data@).len()),
        block is Unsupported ==> block_text(block) == "[Unsupported content block]"@,
{
    if let ContentBlock::ResourceLink(link) = block {
        if link.description is None {
            let head = "[Resource: "@ + link.name@ + "] "@ + link.uri@ + "\n"@;
            assert(head + Seq::<char>::empty() =~= head);
        }
    }
}

/// The blocks of a prompt are told one after the other, with an empty line between them.
pub proof fn law_blocks_are_told_in_order(blocks: Seq<ContentBlock>, block: ContentBlock)
    ensures
        llm_text(Seq::empty()).len() == 0,
        llm_text(blocks).len() > 0 ==> llm_text(blocks.push(block)) == llm_text(blocks) + "\n\n"@
            + block_text(block),
        llm_text(blocks).len() == 0 ==> llm_text(blocks.push(block)) == block_text(block),
{
    assert(blocks.push(block).drop_last() =~= blocks);
    if llm_text(blocks).len() == 0 {
        assert(llm_text(blocks) + block_text(block) =~= block_text(block));
    }
}

/// A text that is cut keeps its start, as much of it as fits before the note in whole
/// characters, and ends with the note; where the note itself does not fit it is cut too.
pub proof fn law_cut_texts_keep_their_start(bytes: Seq<u8>, max: nat)
    ensures
        bytes.len() <= max ==> truncated(bytes, max) == bytes,
        ({
            let note = encode_utf8("\n[truncated]"@);
            let room = max - note.len();
            let cut = truncated(bytes, max);
            &&& bytes.len() > max && room <= 0 ==> cut == note.subrange(0, max as int)
            &&& bytes.len() > max && room > 0 ==> {
                let kept = cut.len() - note.len();
                &&& 0 <= kept <= room
                &&& cut.subrange(0, kept) == bytes.subrange(0, kept)
                &&& cut.subrange(kept, cut.len() as int) == note
                &&& kept == 0 || is_char_boundary(bytes, kept)
                &&& forall|at: int| kept < at <= room ==> !is_char_boundary(bytes, at)
            }
        }),
{
    let note = truncation_note();
    if bytes.len() > max && max > note.len() {
        let room = max - note.len();
        lemma_boundary_is_the_last(bytes, room);
        let kept = boundary_at_most(bytes, room);
        let cut = truncated(bytes, max);
        assert(cut.subrange(0, kept) =~= bytes.subrange(0, kept));
        assert(cut.subrange(kept, cut.len() as int) =~= note);
    }
}

proof fn lemma_boundary_is_the_last(bytes: Seq<u8>, limit: int)
    requires
        0 <= limit,
    ensures
        0 <= boundary_at_most(bytes, limit) <= limit,
        boundary_at_most(bytes, limit) == 0 || is_char_boundary(
            bytes,
            boundary_at_most(bytes, limit),
        ),
        forall|at: int|
            boundary_at_most(bytes, limit) < at <= limit ==> !is_char_boundary(bytes, at),
    decreases limit,
{
    if limit > 0 && !is_char_boundary(bytes, limit) {
        lemma_boundary_is_the_last(bytes, limit - 1);
    }
}

/// The size of a conversation is that of its messages together: each adds the bytes of its
/// content.
pub proof fn law_every_message_adds_its_bytes(messages: Seq<ChatMessage>, message: ChatMessage)
    ensures
        total_bytes(Seq::empty()) == 0,
        total_bytes(messages.push(message)) == total_bytes(messages) + encode_utf8(
            message.content@,
        ).len(),
{
    assert(messages.push(message).drop_last() =~= messages);
}

/// A tool is of the kind that its name tells.
pub proof fn law_tools_are_of_the_kind_of_their_name(name: Seq<char>)
    ensures
        name == "search_text"@ || name == "mdq"@ <==> tool_kind(name) == ToolKind::Search,
        name == "write_file"@ || name == "apply_patch"@ <==> tool_kind(name) == ToolKind::Edit,
        name == "delete_file"@ <==> tool_kind(name) == ToolKind::Delete,
        name == "shell"@ <==> tool_kind(name) == ToolKind::Execute,
        name == "web_fetch"@ || name == "browse"@ <==> tool_kind(name) == ToolKind::Fetch,
{
    reveal_strlit("search_text");
    reveal_strlit("mdq");
    reveal_strlit("write_file");
    reveal_strlit("apply_patch");
    reveal_strlit("delete_file");
    reveal_strlit("shell");
    reveal_strlit("web_fetch");
    reveal_strlit("browse");
    assert("write_file"@[0] == 'w');
    assert("web_fetch"@[1] == 'e');
    assert("write_file"@[1] == 'r');
    assert("search_text"@[1] == 'e');
    assert("shell"@[1] == 'h');
    assert("mdq"@[0] == 'm');
    assert("apply_patch"@[0] == 'a');
    assert("delete_file"@[0] == 'd');
    assert("browse"@[0] == 'b');
    assert("search_text"@[0] == 's');
    assert("shell"@[0] == 's');
    assert("web_fetch"@[0] == 'w');
}

/// A value that is there is a list of itself, and one that is not is an empty list.
pub proof fn law_values_are_listed(value: Option<Seq<char>>)
    ensures
        value matches Some(text) ==> one_or_none(value).len() == 1 && one_or_none(value)[0] == text,
        value is None ==> one_or_none(value).len() == 0,
{
}

} // verus!
