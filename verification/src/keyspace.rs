//! What is shown of the keys of a Redis database: the preview of a value in the
//! key list, the full text of a value, and the totals of a scan. The values come
//! from the server; these functions decide which command reads them and how they
//! are shown.
use vstd::prelude::*;
use crate::formatting::{try_format_as_json, value_display};
use crate::models::{KeyInfo, RedisData};
use crate::text::{
    byte_len, chars_of, contains_char, decimal, is_boundary, join_lines,
    join_with_newlines, lines_of, lines_of_str, push_chars, push_decimal, push_str, shorten,
    shortened, string_from, text_lines,
};

verus! {

/// Whether two strings hold the same characters.
pub fn same_text(a: &str, b: &str) -> (r: bool)
    ensures
        r == (a@ == b@),
{
    let x = chars_of(a);
    let y = chars_of(b);
    if x.len() != y.len() {
        return false;
    }
    let mut i: usize = 0;
    while i < x.len()
        invariant
            x.len() == y.len(),
            x@ == a@,
            y@ == b@,
            i <= x.len(),
            forall|j: int| 0 <= j < i ==> x@[j] == y@[j],
        decreases x.len() - i,
    {
        if x[i] != y[i] {
            assert(x@[i as int] != y@[i as int]);
            return false;
        }
        i = i + 1;
    }
    assert(x@ =~= y@);
    true
}

/// The command that reads the whole value of a key of a Redis type.
#[derive(Debug, Clone, Copy, PartialEq, Eq, Structural)]
pub enum ValueQuery {
    /// GET, for "string".
    Get,
    /// LRANGE 0 -1, for "list".
    ListRange,
    /// HGETALL, for "hash".
    HashAll,
    /// SMEMBERS, for "set".
    SetMembers,
    /// ZRANGE 0 -1 WITHSCORES, for "zset".
    SortedRange,
    /// No command: the type is not shown.
    Unsupported,
}

/// The command that reads a value of type `key_type`.
pub open spec fn value_query_of(key_type: Seq<char>) -> ValueQuery {
    if key_type == "string"@ {
        ValueQuery::Get
    } else if key_type == "list"@ {
        ValueQuery::ListRange
    } else if key_type == "hash"@ {
        ValueQuery::HashAll
    } else if key_type == "set"@ {
        ValueQuery::SetMembers
    } else if key_type == "zset"@ {
        ValueQuery::SortedRange
    } else {
        ValueQuery::Unsupported
    }
}

/// The command that reads the whole value of a key of type `key_type`.
pub fn value_query(key_type: &str) -> (r: ValueQuery)
    ensures
        r == value_query_of(key_type@),
{
    if same_text(key_type, "string") {
        ValueQuery::Get
    } else if same_text(key_type, "list") {
        ValueQuery::ListRange
    } else if same_text(key_type, "hash") {
        ValueQuery::HashAll
    } else if same_text(key_type, "set") {
        ValueQuery::SetMembers
    } else if same_text(key_type, "zset") {
        ValueQuery::SortedRange
    } else {
        ValueQuery::Unsupported
    }
}

/// A value as read from the server; a read that failed reads as empty. The scores
/// of a sorted set come as the text `{}` prints for them.
pub enum StoredValue {
    Text(String),
    List(Vec<String>),
    Hash(Vec<(String, String)>),
    Members(Vec<String>),
    SortedSet(Vec<(String, String)>),
    Unsupported,
}

/// "[i]", the tag of the element at position `i`.
pub open spec fn index_tag(i: nat) -> Seq<char> {
    seq!['['] + decimal(i) + seq![']']
}

/// The tag of position `i` is `[`, a run of digits that reads back as `i`, and
/// `]`: so elements at different positions get different tags.
pub proof fn lemma_index_tag_names_position(i: nat, j: nat)
    ensures
        index_tag(i).len() >= 3,
        index_tag(i)[0] == '[',
        index_tag(i).last() == ']',
        forall|k: int|
            1 <= k < index_tag(i).len() - 1 ==> crate::text::is_digit(#[trigger] index_tag(i)[k]),
        crate::text::digits_value(index_tag(i).subrange(1, index_tag(i).len() - 1)) == i,
        i != j ==> index_tag(i) != index_tag(j),
{
    crate::text::lemma_decimal_reads_back(i);
    crate::text::lemma_decimal_reads_back(j);
    let t = index_tag(i);
    assert(t.subrange(1, t.len() - 1) =~= decimal(i));
    assert forall|k: int| 1 <= k < t.len() - 1 implies crate::text::is_digit(#[trigger] t[k]) by {
        assert(t[k] == decimal(i)[k - 1]);
    }
    if i != j && index_tag(i) == index_tag(j) {
        let u = index_tag(j);
        assert(u.subrange(1, u.len() - 1) =~= decimal(j));
    }
}

/// The lines of `f`, each indented by four spaces, joined again.
pub open spec fn indented(f: Seq<char>) -> Seq<char> {
    join_lines(lines_of(f).map_values(|l: Seq<char>| "    "@ + l))
}

/// A list element: its tag and its text on one line, or its tag and then its text
/// indented on the following lines when the text spans several lines.
pub open spec fn list_item(i: nat, f: Seq<char>) -> Seq<char> {
    if f.contains('\n') {
        index_tag(i) + seq!['\n'] + indented(f)
    } else {
        index_tag(i) + seq![' '] + f
    }
}

/// A set member: its tag and its text, on one line or on the following lines.
pub open spec fn set_item(i: nat, f: Seq<char>) -> Seq<char> {
    if f.contains('\n') {
        index_tag(i) + seq!['\n'] + f
    } else {
        index_tag(i) + seq![' '] + f
    }
}

/// A hash field: its name, a colon and its text, on one line or on the following
/// lines.
pub open spec fn hash_item(k: Seq<char>, f: Seq<char>) -> Seq<char> {
    if f.contains('\n') {
        k + ":\n"@ + f
    } else {
        k + ": "@ + f
    }
}

/// A sorted set member: its text and its score, followed on the next lines by the
/// text again when it spans several lines.
pub open spec fn zset_item(f: Seq<char>, score: Seq<char>) -> Seq<char> {
    if f.contains('\n') {
        f + " (score: "@ + score + ")\n"@ + f
    } else {
        f + " (score: "@ + score + seq![')']
    }
}

/// The full text shown for a value: each element as its item form, one after the
/// other on separate lines, JSON-looking texts pretty-printed; a note for an empty
/// value or an unsupported type.
pub open spec fn value_text(v: StoredValue) -> Seq<char> {
    match v {
        StoredValue::Text(s) => if s@.len() == 0 {
            "(empty string)"@
        } else {
            value_display(s@)
        },
        StoredValue::List(items) => if items@.len() == 0 {
            "(empty list)"@
        } else {
            join_lines(
                Seq::new(items@.len(), |i: int| list_item(i as nat, value_display(items@[i]@))),
            )
        },
        StoredValue::Hash(fields) => if fields@.len() == 0 {
            "(empty hash)"@
        } else {
            join_lines(
                Seq::new(
                    fields@.len(),
                    |i: int| hash_item(fields@[i].0@, value_display(fields@[i].1@)),
                ),
            )
        },
        StoredValue::Members(members) => if members@.len() == 0 {
            "(empty set)"@
        } else {
            join_lines(
                Seq::new(members@.len(), |i: int| set_item(i as nat, value_display(members@[i]@))),
            )
        },
        StoredValue::SortedSet(members) => if members@.len() == 0 {
            "(empty sorted set)"@
        } else {
            join_lines(
                Seq::new(
                    members@.len(),
                    |i: int| zset_item(value_display(members@[i].0@), members@[i].1@),
                ),
            )
        },
        StoredValue::Unsupported => "(unsupported type)"@,
    }
}

fn push_index_tag(out: &mut Vec<char>, i: usize)
    ensures
        final(out)@ == old(out)@ + index_tag(i as nat),
{
    out.push('[');
    push_decimal(out, i as u128);
    out.push(']');
    assert(final(out)@ =~= old(out)@ + index_tag(i as nat));
}

fn indent_text(f: &str) -> (r: Vec<char>)
    ensures
        r@ == indented(f@),
{
    let lines = lines_of_str(f);
    let ghost want = lines_of(f@).map_values(|l: Seq<char>| "    "@ + l);
    let mut pieces: Vec<Vec<char>> = Vec::new();
    let mut i: usize = 0;
    while i < lines.len()
        invariant
            i <= lines@.len(),
            text_lines(lines@) == lines_of(f@),
            want == lines_of(f@).map_values(|l: Seq<char>| "    "@ + l),
            pieces@.len() == i,
            forall|k: int| 0 <= k < i ==> #[trigger] pieces@[k]@ == want[k],
        decreases lines.len() - i,
    {
        let mut p = chars_of("    ");
        push_str(&mut p, lines[i].as_str());
        assert(lines@[i as int]@ == text_lines(lines@)[i as int]);
        pieces.push(p);
        i = i + 1;
    }
    assert(pieces@.map_values(|p: Vec<char>| p@) =~= want);
    join_with_newlines(&pieces)
}

fn list_text(items: &Vec<String>) -> (r: Vec<char>)
    ensures
        r@ == join_lines(
            Seq::new(items@.len(), |i: int| list_item(i as nat, value_display(items@[i]@))),
        ),
{
    let ghost want = Seq::new(
        items@.len(),
        |i: int| list_item(i as nat, value_display(items@[i]@)),
    );
    let mut pieces: Vec<Vec<char>> = Vec::new();
    let mut i: usize = 0;
    while i < items.len()
        invariant
            i <= items@.len(),
            want == Seq::new(items@.len(), |i: int| list_item(i as nat, value_display(items@[i]@))),
            pieces@.len() == i,
            forall|k: int| 0 <= k < i ==> #[trigger] pieces@[k]@ == want[k],
        decreases items.len() - i,
    {
        let formatted = try_format_as_json(items[i].as_str());
        let fc = chars_of(formatted.as_str());
        let mut p: Vec<char> = Vec::new();
        push_index_tag(&mut p, i);
        if contains_char(&fc, '\n') {
            p.push('\n');
            let ind = indent_text(formatted.as_str());
            push_chars(&mut p, &ind);
        } else {
            p.push(' ');
            push_chars(&mut p, &fc);
        }
        pieces.push(p);
        i = i + 1;
    }
    assert(pieces@.map_values(|p: Vec<char>| p@) =~= want);
    join_with_newlines(&pieces)
}

fn set_text(items: &Vec<String>) -> (r: Vec<char>)
    ensures
        r@ == join_lines(
            Seq::new(items@.len(), |i: int| set_item(i as nat, value_display(items@[i]@))),
        ),
{
    let ghost want = Seq::new(items@.len(), |i: int| set_item(i as nat, value_display(items@[i]@)));
    let mut pieces: Vec<Vec<char>> = Vec::new();
    let mut i: usize = 0;
    while i < items.len()
        invariant
            i <= items@.len(),
            want == Seq::new(items@.len(), |i: int| set_item(i as nat, value_display(items@[i]@))),
            pieces@.len() == i,
            forall|k: int| 0 <= k < i ==> #[trigger] pieces@[k]@ == want[k],
        decreases items.len() - i,
    {
        let formatted = try_format_as_json(items[i].as_str());
        let fc = chars_of(formatted.as_str());
        let mut p: Vec<char> = Vec::new();
        push_index_tag(&mut p, i);
        if contains_char(&fc, '\n') {
            p.push('\n');
        } else {
            p.push(' ');
        }
        push_chars(&mut p, &fc);
        pieces.push(p);
        i = i + 1;
    }
    assert(pieces@.map_values(|p: Vec<char>| p@) =~= want);
    join_with_newlines(&pieces)
}

fn hash_text(fields: &Vec<(String, String)>) -> (r: Vec<char>)
    ensures
        r@ == join_lines(
            Seq::new(
                fields@.len(),
                |i: int| hash_item(fields@[i].0@, value_display(fields@[i].1@)),
            ),
        ),
{
    let ghost want = Seq::new(
        fields@.len(),
        |i: int| hash_item(fields@[i].0@, value_display(fields@[i].1@)),
    );
    let mut pieces: Vec<Vec<char>> = Vec::new();
    let mut i: usize = 0;
    while i < fields.len()
        invariant
            i <= fields@.len(),
            want == Seq::new(
                fields@.len(),
                |i: int| hash_item(fields@[i].0@, value_display(fields@[i].1@)),
            ),
            pieces@.len() == i,
            forall|k: int| 0 <= k < i ==> #[trigger] pieces@[k]@ == want[k],
        decreases fields.len() - i,
    {
        let formatted = try_format_as_json(fields[i].1.as_str());
        let fc = chars_of(formatted.as_str());
        let mut p = chars_of(fields[i].0.as_str());
        if contains_char(&fc, '\n') {
            push_str(&mut p, ":\n");
        } else {
            push_str(&mut p, ": ");
        }
        push_chars(&mut p, &fc);
        pieces.push(p);
        i = i + 1;
    }
    assert(pieces@.map_values(|p: Vec<char>| p@) =~= want);
    join_with_newlines(&pieces)
}

fn zset_text(members: &Vec<(String, String)>) -> (r: Vec<char>)
    ensures
        r@ == join_lines(
            Seq::new(
                members@.len(),
                |i: int| zset_item(value_display(members@[i].0@), members@[i].1@),
            ),
        ),
{
    let ghost want = Seq::new(
        members@.len(),
        |i: int| zset_item(value_display(members@[i].0@), members@[i].1@),
    );
    let mut pieces: Vec<Vec<char>> = Vec::new();
    let mut i: usize = 0;
    while i < members.len()
        invariant
            i <= members@.len(),
            want == Seq::new(
                members@.len(),
                |i: int| zset_item(value_display(members@[i].0@), members@[i].1@),
            ),
            pieces@.len() == i,
            forall|k: int| 0 <= k < i ==> #[trigger] pieces@[k]@ == want[k],
        decreases members.len() - i,
    {
        let formatted = try_format_as_json(members[i].0.as_str());
        let fc = chars_of(formatted.as_str());
        let mut p: Vec<char> = Vec::new();
        push_chars(&mut p, &fc);
        push_str(&mut p, " (score: ");
        push_str(&mut p, members[i].1.as_str());
        if contains_char(&fc, '\n') {
            push_str(&mut p, ")\n");
            push_chars(&mut p, &fc);
        } else {
            p.push(')');
        }
        pieces.push(p);
        i = i + 1;
    }
    assert(pieces@.map_values(|p: Vec<char>| p@) =~= want);
    join_with_newlines(&pieces)
}

/// The full text shown for a value read from the server.
pub fn describe_value(value: &StoredValue) -> (r: String)
    ensures
        r@ == value_text(*value),
{
    match value {
        StoredValue::Text(s) => {
            if s.as_str().is_empty() {
                String::from_str("(empty string)")
            } else {
                try_format_as_json(s.as_str())
            }
        },
        StoredValue::List(items) => {
            if items.len() == 0 {
                String::from_str("(empty list)")
            } else {
                string_from(&list_text(items))
            }
        },
        StoredValue::Hash(fields) => {
            if fields.len() == 0 {
                String::from_str("(empty hash)")
            } else {
                string_from(&hash_text(fields))
            }
        },
        StoredValue::Members(members) => {
            if members.len() == 0 {
                String::from_str("(empty set)")
            } else {
                string_from(&set_text(members))
            }
        },
        StoredValue::SortedSet(members) => {
            if members.len() == 0 {
                String::from_str("(empty sorted set)")
            } else {
                string_from(&zset_text(members))
            }
        },
        StoredValue::Unsupported => String::from_str("(unsupported type)"),
    }
}

/// The text shown in place of a value while no server is connected.
pub open spec fn not_connected_text() -> Seq<char> {
    "Not connected to Redis. Use Tab to go to Settings and connect."@
}

/// The full text of a key's value: the note that no server is connected, or the
/// value read, as `describe_value` shows it.
pub fn get_full_value(connected: bool, value: &StoredValue) -> (r: String)
    ensures
        r@ == (if connected { value_text(*value) } else { not_connected_text() }),
{
    if !connected {
        return String::from_str("Not connected to Redis. Use Tab to go to Settings and connect.");
    }
    describe_value(value)
}


/// The command whose answer previews a value of a Redis type in the key list.
#[derive(Debug, Clone, Copy, PartialEq, Eq, Structural)]
pub enum PreviewQuery {
    /// GET, for "string": the value itself.
    Get,
    /// LLEN, for "list".
    ListLength,
    /// HLEN, for "hash".
    HashLength,
    /// SCARD, for "set".
    SetCardinality,
    /// No command: the value is previewed as binary data.
    NoQuery,
}

/// The command that previews a value of type `key_type`.
pub open spec fn preview_query_of(key_type: Seq<char>) -> PreviewQuery {
    if key_type == "string"@ {
        PreviewQuery::Get
    } else if key_type == "list"@ {
        PreviewQuery::ListLength
    } else if key_type == "hash"@ {
        PreviewQuery::HashLength
    } else if key_type == "set"@ {
        PreviewQuery::SetCardinality
    } else {
        PreviewQuery::NoQuery
    }
}

/// The command that previews a value of type `key_type`.
pub fn preview_query(key_type: &str) -> (r: PreviewQuery)
    ensures
        r == preview_query_of(key_type@),
{
    if same_text(key_type, "string") {
        PreviewQuery::Get
    } else if same_text(key_type, "list") {
        PreviewQuery::ListLength
    } else if same_text(key_type, "hash") {
        PreviewQuery::HashLength
    } else if same_text(key_type, "set") {
        PreviewQuery::SetCardinality
    } else {
        PreviewQuery::NoQuery
    }
}

/// The preview shown for the answer to `query`: a string value (`text`) cut to 47
/// bytes and "..." when longer than 50 bytes; the `count` of list items, hash
/// fields or set members; "[binary data]" for other types.
pub open spec fn preview_text(query: PreviewQuery, text: Seq<char>, count: nat) -> Seq<char> {
    match query {
        PreviewQuery::Get => shortened(text, 50, 47),
        PreviewQuery::ListLength => seq!['['] + decimal(count) + " items]"@,
        PreviewQuery::HashLength => seq!['{'] + decimal(count) + " fields}"@,
        PreviewQuery::SetCardinality => seq!['['] + decimal(count) + " items]"@,
        PreviewQuery::NoQuery => "[binary data]"@,
    }
}

/// The preview of a value from the answer to `query`: `text` is the string value
/// read by GET, `count` the number read by LLEN, HLEN or SCARD.
pub fn value_preview(query: PreviewQuery, text: &str, count: usize) -> (r: String)
    requires
        query == PreviewQuery::Get && byte_len(text@) > 50 ==> is_boundary(text@, 47),
    ensures
        r@ == preview_text(query, text@, count as nat),
{
    let mut out: Vec<char> = Vec::new();
    match query {
        PreviewQuery::Get => {
            return shorten(text, 50, 47);
        },
        PreviewQuery::ListLength => {
            out.push('[');
            push_decimal(&mut out, count as u128);
            push_str(&mut out, " items]");
        },
        PreviewQuery::HashLength => {
            out.push('{');
            push_decimal(&mut out, count as u128);
            push_str(&mut out, " fields}");
        },
        PreviewQuery::SetCardinality => {
            out.push('[');
            push_decimal(&mut out, count as u128);
            push_str(&mut out, " items]");
        },
        PreviewQuery::NoQuery => {
            return String::from_str("[binary data]");
        },
    }
    string_from(&out)
}

/// The entry of the key list for a key read in a scan: its name, type, TTL and
/// memory as the server gave them, and the preview of its value for its type,
/// from the string `text` or the `count` read by the preview command of that type.
pub fn key_info_from(
    name: String,
    key_type: String,
    ttl: i64,
    memory: u64,
    text: &str,
    count: usize,
) -> (k: KeyInfo)
    requires
        preview_query_of(key_type@) == PreviewQuery::Get && byte_len(text@) > 50 ==> is_boundary(
            text@,
            47,
        ),
    ensures
        k.name == name,
        k.key_type == key_type,
        k.ttl == ttl,
        k.memory_bytes == memory,
        k.value_preview@ == preview_text(preview_query_of(key_type@), text@, count as nat),
{
    let query = preview_query(key_type.as_str());
    let value_preview = value_preview(query, text, count);
    KeyInfo { name, key_type, ttl, memory_bytes: memory, value_preview }
}

/// At most this many keys are inspected in one scan.
pub const MAX_SCANNED_KEYS: usize = 1000;

/// The keys a scan inspects: the first 1000 of those listed.
pub fn keys_to_inspect(keys: &Vec<String>) -> (r: Vec<String>)
    ensures
        text_lines(r@) == text_lines(keys@).take(
            if keys@.len() < 1000 { keys@.len() as int } else { 1000 },
        ),
{
    let n = if keys.len() < MAX_SCANNED_KEYS {
        keys.len()
    } else {
        MAX_SCANNED_KEYS
    };
    let mut r: Vec<String> = Vec::new();
    let mut i: usize = 0;
    while i < n
        invariant
            i <= n <= keys@.len(),
            r@.len() == i,
            forall|k: int| 0 <= k < i ==> #[trigger] r@[k]@ == keys@[k]@,
        decreases n - i,
    {
        r.push(keys[i].clone());
        i = i + 1;
    }
    assert(text_lines(r@) =~= text_lines(keys@).take(n as int));
    r
}

/// The memory of the keys, added up.
pub open spec fn memory_sum(keys: Seq<KeyInfo>) -> nat
    decreases keys.len(),
{
    if keys.len() == 0 {
        0
    } else {
        memory_sum(keys.drop_last()) + keys.last().memory_bytes as nat
    }
}

/// The total memory of a scan adds up the memory of every key, whatever its type:
/// none for no keys, and each further key adds exactly its own memory; so the total
/// of two runs of keys is the sum of their totals.
pub proof fn lemma_memory_sum_adds(keys: Seq<KeyInfo>, more: Seq<KeyInfo>, k: KeyInfo)
    ensures
        memory_sum(Seq::<KeyInfo>::empty()) == 0,
        memory_sum(keys.push(k)) == memory_sum(keys) + k.memory_bytes,
        memory_sum(keys + more) == memory_sum(keys) + memory_sum(more),
    decreases more.len(),
{
    assert(keys.push(k).drop_last() =~= keys);
    if more.len() == 0 {
        assert(keys + more =~= keys);
    } else {
        lemma_memory_sum_adds(keys, more.drop_last(), k);
        assert((keys + more).drop_last() =~= keys + more.drop_last());
        assert((keys + more).last() == more.last());
    }
}

/// The snapshot of a completed scan: the keys read, their total memory, connected
/// and without error.
pub fn scanned_data(keys: Vec<KeyInfo>) -> (r: RedisData)
    requires
        memory_sum(keys@) <= u64::MAX,
    ensures
        r.keys@ == keys@,
        r.total_memory == memory_sum(keys@),
        r.connected,
        r.error is None,
{
    let mut total: u64 = 0;
    let mut i: usize = 0;
    while i < keys.len()
        invariant
            i <= keys@.len(),
            memory_sum(keys@) <= u64::MAX,
            total == memory_sum(keys@.take(i as int)),
        decreases keys.len() - i,
    {
        assert(keys@.take(i + 1).drop_last() =~= keys@.take(i as int));
        proof {
            lemma_memory_sum_prefix(keys@, i + 1);
        }
        total = total + keys[i].memory_bytes;
        i = i + 1;
    }
    assert(keys@.take(keys@.len() as int) =~= keys@);
    RedisData { keys, total_memory: total, connected: true, error: None }
}

proof fn lemma_memory_sum_prefix(keys: Seq<KeyInfo>, i: int)
    requires
        0 <= i <= keys.len(),
    ensures
        memory_sum(keys.take(i)) <= memory_sum(keys),
    decreases keys.len() - i,
{
    if i < keys.len() {
        lemma_memory_sum_prefix(keys, i + 1);
        assert(keys.take(i + 1).drop_last() =~= keys.take(i));
    } else {
        assert(keys.take(i) =~= keys);
    }
}

/// The snapshot returned without a connection: no keys, no memory, not
/// connected, with the error "Not connected to Redis".
pub fn disconnected_data() -> (r: RedisData)
    ensures
        r.keys@.len() == 0,
        r.total_memory == 0,
        !r.connected,
        r.error matches Some(e) && e@ == "Not connected to Redis"@,
{
    RedisData {
        keys: Vec::new(),
        total_memory: 0,
        connected: false,
        error: Some(String::from_str("Not connected to Redis")),
    }
}


/// The verdict on the reply to the PING of a connection test: only "PONG" passes;
/// any other reply fails with "Unexpected PING response: " and the reply.
pub open spec fn ping_verdict(reply: Seq<char>) -> Result<(), Seq<char>> {
    if reply == "PONG"@ {
        Ok(())
    } else {
        Err("Unexpected PING response: "@ + reply)
    }
}

/// Checks the reply to the PING of a connection test.
pub fn check_ping_reply(reply: &str) -> (r: Result<(), String>)
    ensures
        match r {
            Ok(()) => ping_verdict(reply@) is Ok,
            Err(m) => ping_verdict(reply@) == Err::<(), Seq<char>>(m@),
        },
{
    if same_text(reply, "PONG") {
        Ok(())
    } else {
        let mut m = chars_of("Unexpected PING response: ");
        push_str(&mut m, reply);
        Err(string_from(&m))
    }
}

} // verus!
