//! The configuration file, which remembers the Redis URL: one line
//! `REDIS_URL=<url>` among others.
use vstd::prelude::*;
use crate::text::{
    begins_with, chars_of, is_white_space, lines_from, lines_of, occurs_at, push_str,
    split_lines, string_from, strip_cr, trim, trim_chars, trim_start,
};

verus! {

/// The key of the configuration line.
pub open spec fn url_key() -> Seq<char> {
    "REDIS_URL="@
}

/// The URL used when the configuration names none.
pub open spec fn default_url() -> Seq<char> {
    "redis://localhost:6379"@
}

/// `s` without all leading repetitions of a non-empty `p`, as
/// `str::trim_start_matches` removes them.
pub open spec fn strip_repeated(s: Seq<char>, p: Seq<char>) -> Seq<char>
    decreases s.len(),
{
    if p.len() > 0 && begins_with(s, p) {
        strip_repeated(s.skip(p.len() as int), p)
    } else {
        s
    }
}

/// The URL a configuration line holds: the rest of a line starting with the key,
/// with repeated keys and surrounding white space removed.
pub open spec fn line_url(line: Seq<char>) -> Seq<char> {
    trim(strip_repeated(line, url_key()))
}

/// The first URL among `lines`: the first line that starts with the key and holds a
/// non-empty URL.
pub open spec fn first_url(lines: Seq<Seq<char>>) -> Option<Seq<char>>
    decreases lines.len(),
{
    if lines.len() == 0 {
        None
    } else if begins_with(lines[0], url_key()) && line_url(lines[0]).len() > 0 {
        Some(line_url(lines[0]))
    } else {
        first_url(lines.drop_first())
    }
}

/// The URL that a configuration file with text `content` names.
pub open spec fn config_url(content: Seq<char>) -> Option<Seq<char>> {
    first_url(lines_of(content))
}

/// The text of the configuration file written for `url`.
pub open spec fn config_text(url: Seq<char>) -> Seq<char> {
    url_key() + url + seq!['\n']
}

fn strip_key_repeats(s: &Vec<char>, p: &Vec<char>) -> (r: Vec<char>)
    requires
        p@.len() > 0,
    ensures
        r@ == strip_repeated(s@, p@),
{
    let mut i: usize = 0;
    assert(s@.skip(0) =~= s@);
    while occurs_at(s, i, p)
        invariant
            i <= s.len(),
            p@.len() > 0,
            strip_repeated(s@, p@) == strip_repeated(s@.skip(i as int), p@),
        decreases s.len() - i,
    {
        assert(s@.skip(i as int).skip(p@.len() as int) =~= s@.skip(i + p.len()));
        i = i + p.len();
    }
    let mut r: Vec<char> = Vec::new();
    let mut j: usize = i;
    while j < s.len()
        invariant
            i <= j <= s.len(),
            r@ == s@.subrange(i as int, j as int),
        decreases s.len() - j,
    {
        r.push(s[j]);
        j = j + 1;
        assert(s@.subrange(i as int, j as int) =~= s@.subrange(i as int, j - 1).push(s@[j - 1]));
    }
    assert(r@ =~= s@.skip(i as int));
    r
}

/// The URL named by a configuration file with text `content`: the value of the
/// first line starting with `REDIS_URL=` whose value, trimmed, is not empty.
pub fn parse_config(content: &str) -> (r: Option<String>)
    ensures
        match r {
            Some(u) => config_url(content@) == Some(u@),
            None => config_url(content@) is None,
        },
{
    let cs = chars_of(content);
    let lines = split_lines(&cs);
    let key = chars_of("REDIS_URL=");
    proof {
        reveal_strlit("REDIS_URL=");
    }
    let ghost all = lines_of(content@);
    let mut i: usize = 0;
    assert(all.skip(0) =~= all);
    while i < lines.len()
        invariant
            i <= lines@.len(),
            lines@.len() == all.len(),
            forall|k: int| 0 <= k < all.len() ==> #[trigger] lines@[k]@ == all[k],
            key@ == url_key(),
            all == lines_of(content@),
            url_key().len() > 0,
            first_url(all) == first_url(all.skip(i as int)),
        decreases lines.len() - i,
    {
        let line = &lines[i];
        assert(all.skip(i as int)[0] == all[i as int]);
        assert(all.skip(i as int).drop_first() =~= all.skip(i + 1));
        assert(line@.skip(0) =~= line@);
        if occurs_at(line, 0, &key) {
            let stripped = strip_key_repeats(line, &key);
            let t = trim_chars(&stripped);
            if t.len() > 0 {
                assert(t@ == line_url(all[i as int]));
                assert(first_url(all.skip(i as int)) == Some(line_url(all[i as int])));
                return Some(string_from(&t));
            }
        }
        i = i + 1;
    }
    assert(all.skip(i as int) =~= Seq::<Seq<char>>::empty());
    None
}

/// The text written to the configuration file to remember `url`.
pub fn config_contents(url: &str) -> (r: String)
    ensures
        r@ == config_text(url@),
{
    let mut out = chars_of("REDIS_URL=");
    push_str(&mut out, url);
    out.push('\n');
    string_from(&out)
}

/// The URL to start with: the one the configuration names, if it was read and
/// names one, else `redis://localhost:6379`.
pub fn initial_redis_url(config: Option<String>) -> (r: String)
    ensures
        r@ == (match config {
            Some(c) => match config_url(c@) {
                Some(u) => u,
                None => default_url(),
            },
            None => default_url(),
        }),
{
    match config {
        Some(c) => match parse_config(c.as_str()) {
            Some(u) => u,
            None => String::from_str("redis://localhost:6379"),
        },
        None => String::from_str("redis://localhost:6379"),
    }
}

proof fn lemma_lines_of_one_line(s: Seq<char>, cur: Seq<char>)
    requires
        !s.contains('\n'),
    ensures
        lines_from(s + seq!['\n'], cur) == seq![strip_cr(cur + s)],
    decreases s.len(),
{
    if s.len() == 0 {
        assert(s + seq!['\n'] =~= seq!['\n']);
        assert(cur + s =~= cur);
        assert(seq!['\n'].drop_first() =~= Seq::<char>::empty());
        assert(lines_from(Seq::<char>::empty(), seq![]) =~= Seq::<Seq<char>>::empty());
        assert(lines_from(seq!['\n'], cur) =~= seq![strip_cr(cur)] + lines_from(
            Seq::<char>::empty(),
            seq![],
        ));
    } else {
        assert((s + seq!['\n']).drop_first() =~= s.drop_first() + seq!['\n']);
        assert((s + seq!['\n'])[0] == s[0]);
        assert(!s.drop_first().contains('\n')) by {
            if s.drop_first().contains('\n') {
                let j = choose|j: int| 0 <= j < s.drop_first().len() && s.drop_first()[j] == '\n';
                assert(s[j + 1] == '\n');
            }
        }
        assert(s[0] != '\n') by {
            if s[0] == '\n' {
                assert(s.contains('\n'));
            }
        }
        lemma_lines_of_one_line(s.drop_first(), cur.push(s[0]));
        assert(cur.push(s[0]) + s.drop_first() =~= cur + s);
    }
}

proof fn lemma_strip_repeated_once(p: Seq<char>, u: Seq<char>)
    requires
        p.len() > 0,
        !begins_with(u, p),
    ensures
        strip_repeated(p + u, p) == u,
{
    reveal_with_fuel(strip_repeated, 2);
    assert((p + u).take(p.len() as int) =~= p);
    assert((p + u).skip(p.len() as int) =~= u);
}

proof fn lemma_trim_start_push(s: Seq<char>, c: char)
    ensures
        trim_start(s.push(c)) == (if trim_start(s).len() == 0 {
            trim_start(seq![c])
        } else {
            trim_start(s).push(c)
        }),
    decreases s.len(),
{
    if s.len() == 0 {
        assert(s.push(c) =~= seq![c]);
    } else {
        assert(s.push(c)[0] == s[0]);
        assert(s.push(c).drop_first() =~= s.drop_first().push(c));
        lemma_trim_start_push(s.drop_first(), c);
    }
}

proof fn lemma_trim_ignores_trailing_cr(s: Seq<char>)
    ensures
        trim(s.push('\r')) == trim(s),
{
    assert(is_white_space('\r'));
    lemma_trim_start_push(s, '\r');
    let t = trim_start(s);
    if t.len() == 0 {
        assert(seq!['\r'].drop_first() =~= Seq::<char>::empty());
        reveal_with_fuel(trim_start, 2);
        assert(trim_start(seq!['\r']) =~= Seq::<char>::empty());
    } else {
        assert(t.push('\r').drop_last() =~= t);
    }
}

/// What the configuration file remembers comes back: reading the text written for
/// a URL that holds no line break and does not itself start with `REDIS_URL=` gives
/// that URL trimmed, or nothing when it is blank.
pub proof fn lemma_config_roundtrip(url: Seq<char>)
    requires
        !url.contains('\n'),
        !begins_with(url, url_key()),
    ensures
        config_url(config_text(url)) == (if trim(url).len() > 0 {
            Some(trim(url))
        } else {
            None
        }),
{
    reveal_strlit("REDIS_URL=");
    let key = url_key();
    assert(!(key + url).contains('\n')) by {
        if (key + url).contains('\n') {
            let j = choose|j: int| 0 <= j < (key + url).len() && (key + url)[j] == '\n';
            if j >= key.len() {
                assert(url[j - key.len()] == '\n');
            }
        }
    }
    assert(config_text(url) =~= (key + url) + seq!['\n']);
    lemma_lines_of_one_line(key + url, seq![]);
    assert(Seq::<char>::empty() + (key + url) =~= key + url);
    let line = strip_cr(key + url);
    let u = strip_cr(url);
    if url.len() > 0 {
        assert(line =~= key + u);
        if url.last() == '\r' {
            assert(url =~= u.push('\r'));
            lemma_trim_ignores_trailing_cr(u);
            assert(!begins_with(u, key)) by {
                if begins_with(u, key) {
                    assert(url.take(key.len() as int) =~= u.take(key.len() as int));
                }
            }
        }
    } else {
        assert(line =~= key + u);
    }
    assert(!begins_with(u, key)) by {
        if begins_with(u, key) && url.len() > 0 && url.last() == '\r' {
            assert(url.take(key.len() as int) =~= u.take(key.len() as int));
        }
    }
    lemma_strip_repeated_once(key, u);
    assert(line.take(key.len() as int) =~= key);
    assert(begins_with(line, key));
    assert(strip_repeated(line, key) == u);
    assert(trim(u) == trim(url));
    assert(lines_of(config_text(url)) == seq![line]);
    assert(seq![line].drop_first() =~= Seq::<Seq<char>>::empty());
    assert(first_url(Seq::<Seq<char>>::empty()) is None);
}

} // verus!
