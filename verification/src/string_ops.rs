//! Further string operations: trimming one given character, ASCII character classes,
//! splitting into words and lines, and joining.
use vstd::prelude::*;
use vstd::utf8::{encode_scalar, encode_utf8};
use crate::text::{
    chars_of, is_whitespace, is_ws, lemma_leading_ws_char, owned, push_char, trim_start_spec,
};

verus! {

/// Number of leading characters of `s` equal to `c`.
pub open spec fn leading_run(s: Seq<char>, c: char) -> nat
    decreases s.len(),
{
    if s.len() > 0 && s[0] == c {
        1 + leading_run(s.drop_first(), c)
    } else {
        0
    }
}

/// Number of trailing characters of `s` equal to `c`.
pub open spec fn trailing_run(s: Seq<char>, c: char) -> nat
    decreases s.len(),
{
    if s.len() > 0 && s.last() == c {
        1 + trailing_run(s.drop_last(), c)
    } else {
        0
    }
}

/// The leading run of `c` ends at the first other character.
pub proof fn lemma_leading_run_at(s: Seq<char>, c: char, i: int)
    requires
        0 <= i <= s.len(),
        forall|k: int| 0 <= k < i ==> #[trigger] s[k] == c,
        i == s.len() || s[i] != c,
    ensures
        leading_run(s, c) == i,
    decreases i,
{
    if i > 0 {
        assert(s[0] == c);
        assert forall|k: int| 0 <= k < i - 1 implies #[trigger] s.drop_first()[k] == c by {
            assert(s.drop_first()[k] == s[k + 1]);
        }
        if i - 1 < s.drop_first().len() {
            assert(s.drop_first()[i - 1] == s[i]);
        }
        lemma_leading_run_at(s.drop_first(), c, i - 1);
    }
}

/// The trailing run of `c` starts after the last other character.
pub proof fn lemma_trailing_run_at(s: Seq<char>, c: char, j: int)
    requires
        0 <= j <= s.len(),
        forall|k: int| j <= k < s.len() ==> #[trigger] s[k] == c,
        j == 0 || s[j - 1] != c,
    ensures
        trailing_run(s, c) == s.len() - j,
    decreases s.len() - j,
{
    if j < s.len() {
        assert(s.last() == c);
        assert forall|k: int| j <= k < s.drop_last().len() implies #[trigger] s.drop_last()[k] == c by {
            assert(s.drop_last()[k] == s[k]);
        }
        if j > 0 {
            assert(s.drop_last()[j - 1] == s[j - 1]);
        }
        lemma_trailing_run_at(s.drop_last(), c, j);
    }
}

/// `str::trim_start_matches` with a character pattern.
pub fn trim_start_matches_char(s: &str, c: char) -> (r: &str)
    ensures
        r@ == s@.skip(leading_run(s@, c) as int),
{
    let chars = chars_of(s);
    let n = chars.len();
    let mut i: usize = 0;
    while i < n && chars[i] == c
        invariant
            n == s@.len(),
            chars@ == s@,
            i <= n,
            forall|k: int| 0 <= k < i ==> #[trigger] s@[k] == c,
        decreases n - i,
    {
        i += 1;
    }
    proof {
        lemma_leading_run_at(s@, c, i as int);
        assert(s@.subrange(i as int, n as int) =~= s@.skip(i as int));
    }
    s.substring_char(i, n)
}

/// `str::trim_end_matches` with a character pattern.
pub fn trim_end_matches_char(s: &str, c: char) -> (r: &str)
    ensures
        r@ == s@.take(s@.len() - trailing_run(s@, c)),
{
    let chars = chars_of(s);
    let n = chars.len();
    let mut j: usize = n;
    while j > 0 && chars[j - 1] == c
        invariant
            n == s@.len(),
            chars@ == s@,
            j <= n,
            forall|k: int| j <= k < n ==> #[trigger] s@[k] == c,
        decreases j,
    {
        j -= 1;
    }
    proof {
        lemma_trailing_run_at(s@, c, j as int);
        assert(s@.subrange(0, j as int) =~= s@.take(j as int));
    }
    s.substring_char(0, j)
}

/// `str::trim_start`: the slice without leading whitespace.
pub fn trim_start(s: &str) -> (r: &str)
    ensures
        r@ == trim_start_spec(s@),
{
    let chars = chars_of(s);
    let n = chars.len();
    let mut start: usize = 0;
    while start < n && is_whitespace(chars[start])
        invariant
            n == chars@.len(),
            chars@ == s@,
            start <= n,
            forall|k: int| 0 <= k < start ==> is_ws(#[trigger] s@[k]),
        decreases n - start,
    {
        start += 1;
    }
    proof {
        lemma_leading_ws_char(s@, start as int);
        assert(s@.subrange(start as int, n as int) =~= s@.skip(start as int));
    }
    s.substring_char(start, n)
}

pub open spec fn is_ascii_digit_char(c: char) -> bool {
    '0' <= c && c <= '9'
}

pub open spec fn is_ascii_alpha_char(c: char) -> bool {
    ('a' <= c && c <= 'z') || ('A' <= c && c <= 'Z')
}

/// `char::is_ascii_alphanumeric`.
pub open spec fn is_ascii_alnum_char(c: char) -> bool {
    is_ascii_digit_char(c) || is_ascii_alpha_char(c)
}

/// `char::is_ascii_hexdigit`.
pub open spec fn is_ascii_hex_char(c: char) -> bool {
    is_ascii_digit_char(c) || ('a' <= c && c <= 'f') || ('A' <= c && c <= 'F')
}

/// `char::is_ascii_whitespace`: space, tab, line feed, form feed and carriage return.
pub open spec fn is_ascii_ws_char(c: char) -> bool {
    c == ' ' || c == '\t' || c == '\n' || c == '\x0C' || c == '\r'
}

/// `char::to_ascii_lowercase`.
pub open spec fn ascii_lower(c: char) -> char {
    if 'A' <= c && c <= 'Z' {
        ((c as u32) + 32) as char
    } else {
        c
    }
}

pub fn is_ascii_digit(c: char) -> (r: bool)
    ensures
        r == is_ascii_digit_char(c),
{
    '0' <= c && c <= '9'
}

pub fn is_ascii_alphanumeric(c: char) -> (r: bool)
    ensures
        r == is_ascii_alnum_char(c),
{
    ('0' <= c && c <= '9') || ('a' <= c && c <= 'z') || ('A' <= c && c <= 'Z')
}

pub fn is_ascii_hexdigit(c: char) -> (r: bool)
    ensures
        r == is_ascii_hex_char(c),
{
    ('0' <= c && c <= '9') || ('a' <= c && c <= 'f') || ('A' <= c && c <= 'F')
}

pub fn is_ascii_whitespace(c: char) -> (r: bool)
    ensures
        r == is_ascii_ws_char(c),
{
    c == ' ' || c == '\t' || c == '\n' || c == '\x0C' || c == '\r'
}

pub fn to_ascii_lowercase(c: char) -> (r: char)
    ensures
        r == ascii_lower(c),
{
    if 'A' <= c && c <= 'Z' {
        let v = (c as u32) + 32;
        assert(v <= 0x7f);
        char_from_ascii(v)
    } else {
        c
    }
}

/// `char::to_ascii_uppercase`.
pub open spec fn ascii_upper(c: char) -> char {
    if 'a' <= c && c <= 'z' {
        ((c as u32) - 32) as char
    } else {
        c
    }
}

pub fn to_ascii_uppercase(c: char) -> (r: char)
    ensures
        r == ascii_upper(c),
{
    if 'a' <= c && c <= 'z' {
        let v = (c as u32) - 32;
        assert(v <= 0x7f);
        char_from_ascii(v)
    } else {
        c
    }
}

/// The character with an ASCII code.
fn char_from_ascii(v: u32) -> (r: char)
    requires
        v <= 0x7f,
    ensures
        r == v as char,
{
    let b = v as u8;
    b as char
}

/// Every character of `s` mapped by `ascii_lower`.
pub open spec fn ascii_lowercase_spec(s: Seq<char>) -> Seq<char> {
    s.map_values(|c: char| ascii_lower(c))
}

/// `str::to_ascii_lowercase`.
pub fn ascii_lowercase(s: &str) -> (r: String)
    ensures
        r@ == ascii_lowercase_spec(s@),
{
    let chars = chars_of(s);
    let mut out = String::new();
    let mut i: usize = 0;
    while i < chars.len()
        invariant
            chars@ == s@,
            i <= chars@.len(),
            out@ == s@.take(i as int).map_values(|c: char| ascii_lower(c)),
        decreases chars.len() - i,
    {
        push_char(&mut out, to_ascii_lowercase(chars[i]));
        assert(s@.take(i + 1).map_values(|c: char| ascii_lower(c)) =~= s@.take(i as int).map_values(
            |c: char| ascii_lower(c),
        ).push(ascii_lower(s@[i as int])));
        i += 1;
    }
    assert(s@.take(chars@.len() as int) =~= s@);
    out
}

/// Views of a list of strings.
pub open spec fn views(v: Seq<String>) -> Seq<Seq<char>> {
    v.map_values(|w: String| w@)
}

/// The words of `s` that are still to come, `current` being the part of a word read so
/// far: maximal runs of non-whitespace characters.
pub open spec fn words_from(s: Seq<char>, current: Seq<char>) -> Seq<Seq<char>>
    decreases s.len(),
{
    if s.len() == 0 {
        if current.len() > 0 {
            seq![current]
        } else {
            Seq::empty()
        }
    } else if is_ws(s[0]) {
        (if current.len() > 0 {
            seq![current]
        } else {
            Seq::<Seq<char>>::empty()
        }) + words_from(s.drop_first(), Seq::empty())
    } else {
        words_from(s.drop_first(), current.push(s[0]))
    }
}

/// `str::split_whitespace`: the maximal runs of non-whitespace characters, in order.
pub open spec fn words(s: Seq<char>) -> Seq<Seq<char>> {
    words_from(s, Seq::empty())
}

/// `str::split_whitespace`, collected.
pub fn split_whitespace(s: &str) -> (r: Vec<String>)
    ensures
        views(r@) == words(s@),
{
    let chars = chars_of(s);
    let mut out: Vec<String> = Vec::new();
    let mut current = String::new();
    let mut i: usize = 0;
    assert(s@.skip(0) =~= s@);
    assert(views(out@) + words_from(s@, current@) =~= words(s@));
    while i < chars.len()
        invariant
            chars@ == s@,
            i <= chars@.len(),
            views(out@) + words_from(s@.skip(i as int), current@) == words(s@),
        decreases chars.len() - i,
    {
        let ghost rest = s@.skip(i as int);
        assert(rest.drop_first() =~= s@.skip(i + 1));
        let c = chars[i];
        if is_whitespace(c) {
            if current.unicode_len() > 0 {
                let ghost before = views(out@);
                let ghost tail = words_from(s@.skip(i + 1), Seq::empty());
                let ghost first = current@;
                out.push(current);
                assert(views(out@) =~= before.push(first));
                assert(before.push(first) + tail =~= before + (seq![first] + tail));
                current = String::new();
            } else {
                assert(current@ =~= Seq::<char>::empty());
                assert(Seq::<Seq<char>>::empty() + words_from(s@.skip(i + 1), Seq::empty()) =~= words_from(
                    s@.skip(i + 1),
                    Seq::empty(),
                ));
            }
        } else {
            push_char(&mut current, c);
        }
        i += 1;
    }
    assert(s@.skip(chars@.len() as int) =~= Seq::<char>::empty());
    if current.unicode_len() > 0 {
        let ghost before = views(out@);
        let ghost cur = current@;
        out.push(current);
        assert(views(out@) =~= before + seq![cur]);
    } else {
        assert(views(out@) =~= views(out@) + Seq::<Seq<char>>::empty());
    }
    out
}

/// `parts` joined with `separator` between neighbours (`slice::join`).
pub open spec fn join_spec(parts: Seq<Seq<char>>, separator: Seq<char>) -> Seq<char>
    decreases parts.len(),
{
    if parts.len() == 0 {
        Seq::empty()
    } else if parts.len() == 1 {
        parts[0]
    } else {
        join_spec(parts.drop_last(), separator) + separator + parts.last()
    }
}

/// `parts.join(separator)`.
pub fn join(parts: &Vec<String>, separator: &str) -> (r: String)
    ensures
        r@ == join_spec(views(parts@), separator@),
{
    let mut out = String::new();
    let mut i: usize = 0;
    while i < parts.len()
        invariant
            i <= parts@.len(),
            out@ == join_spec(views(parts@.take(i as int)), separator@),
        decreases parts.len() - i,
    {
        let ghost prev = views(parts@.take(i as int));
        let ghost next = views(parts@.take(i + 1));
        assert(next.drop_last() =~= prev);
        if i == 0 {
            out = parts[i].clone();
        } else {
            out = out.concat(separator).concat(parts[i].as_str());
        }
        i += 1;
    }
    assert(parts@.take(parts@.len() as int) =~= parts@);
    out
}

/// A line of `str::lines` without its carriage return: one `\r` before the line feed is
/// dropped.
pub open spec fn strip_cr(line: Seq<char>) -> Seq<char> {
    if line.len() > 0 && line.last() == '\r' {
        line.drop_last()
    } else {
        line
    }
}

/// The lines still to come when `current` has been read since the last line feed.
pub open spec fn lines_from(s: Seq<char>, current: Seq<char>) -> Seq<Seq<char>>
    decreases s.len(),
{
    if s.len() == 0 {
        if current.len() > 0 {
            seq![current]
        } else {
            Seq::empty()
        }
    } else if s[0] == '\n' {
        seq![strip_cr(current)] + lines_from(s.drop_first(), Seq::empty())
    } else {
        lines_from(s.drop_first(), current.push(s[0]))
    }
}

/// `str::lines`: the text split at line feeds, a final line feed ending the last line,
/// each line without the carriage return of a `\r\n` ending.
pub open spec fn lines(s: Seq<char>) -> Seq<Seq<char>> {
    lines_from(s, Seq::empty())
}

/// `str::lines`, collected.
pub fn split_lines(s: &str) -> (r: Vec<String>)
    ensures
        views(r@) == lines(s@),
{
    let chars = chars_of(s);
    let mut out: Vec<String> = Vec::new();
    let mut current = String::new();
    let mut i: usize = 0;
    assert(s@.skip(0) =~= s@);
    assert(views(out@) + lines_from(s@, current@) =~= lines(s@));
    while i < chars.len()
        invariant
            chars@ == s@,
            i <= chars@.len(),
            views(out@) + lines_from(s@.skip(i as int), current@) == lines(s@),
        decreases chars.len() - i,
    {
        let ghost rest = s@.skip(i as int);
        assert(rest.drop_first() =~= s@.skip(i + 1));
        let c = chars[i];
        if c == '\n' {
            let line = strip_carriage_return(&current);
            let ghost before = views(out@);
            let ghost tail = lines_from(s@.skip(i + 1), Seq::empty());
            let ghost first = strip_cr(current@);
            out.push(line);
            assert(views(out@) =~= before.push(first));
            assert(before.push(first) + tail =~= before + (seq![first] + tail));
            current = String::new();
        } else {
            push_char(&mut current, c);
        }
        i += 1;
    }
    assert(s@.skip(chars@.len() as int) =~= Seq::<char>::empty());
    if current.unicode_len() > 0 {
        let ghost before = views(out@);
        let ghost cur = current@;
        out.push(current);
        assert(views(out@) =~= before + seq![cur]);
    } else {
        assert(views(out@) =~= views(out@) + Seq::<Seq<char>>::empty());
    }
    out
}

/// A line without the carriage return that ends it, if any.
fn strip_carriage_return(line: &String) -> (r: String)
    ensures
        r@ == strip_cr(line@),
{
    let n = line.unicode_len();
    if n > 0 && line.as_str().get_char(n - 1) == '\r' {
        let s = line.as_str().substring_char(0, n - 1);
        assert(s@ =~= line@.drop_last());
        owned(s)
    } else {
        line.clone()
    }
}

/// The encoding of a concatenation is the concatenation of the encodings.
pub proof fn lemma_encode_utf8_concat(a: Seq<char>, b: Seq<char>)
    ensures
        encode_utf8(a + b) == encode_utf8(a) + encode_utf8(b),
    decreases a.len(),
{
    if a.len() > 0 {
        lemma_encode_utf8_concat(a.drop_first(), b);
        assert((a + b).drop_first() =~= a.drop_first() + b);
        assert((a + b)[0] == a[0]);
        assert(encode_scalar(a[0] as u32) + (encode_utf8(a.drop_first()) + encode_utf8(b)) =~= (encode_scalar(
            a[0] as u32,
        ) + encode_utf8(a.drop_first())) + encode_utf8(b));
    } else {
        assert(a + b =~= b);
        assert(encode_utf8(a) + encode_utf8(b) =~= encode_utf8(b));
    }
}

/// The encoding of one character.
pub proof fn lemma_encode_utf8_single(c: char)
    ensures
        encode_utf8(seq![c]) == encode_scalar(c as u32),
{
    let one = seq![c];
    assert(one.drop_first() =~= Seq::<char>::empty());
    assert(encode_utf8(one.drop_first()) =~= Seq::<u8>::empty());
    assert(one[0] == c);
    assert(encode_scalar(c as u32) + Seq::<u8>::empty() =~= encode_scalar(c as u32));
}

/// Number of bytes that `c` takes in UTF-8.
pub fn utf8_width(c: char) -> (r: usize)
    ensures
        r == encode_scalar(c as u32).len(),
        1 <= r <= 4,
{
    let v = c as u32;
    if v < 0x80 {
        1
    } else if v < 0x800 {
        2
    } else if v < 0x10000 {
        3
    } else {
        4
    }
}

/// Length in bytes of the UTF-8 encoding of `s`, counted up to a little more than
/// `limit`: the exact length when it is at most `limit`, else some number above `limit`
/// that is no larger than the length.
pub fn utf8_len_up_to(s: &str, limit: usize) -> (r: usize)
    requires
        limit <= usize::MAX - 4,
    ensures
        r <= limit ==> r == encode_utf8(s@).len(),
        r > limit ==> encode_utf8(s@).len() > limit,
{
    let chars = chars_of(s);
    let mut i: usize = 0;
    let mut count: usize = 0;
    while i < chars.len() && count <= limit
        invariant
            chars@ == s@,
            i <= chars@.len(),
            limit <= usize::MAX - 4,
            count <= limit + 4,
            count == encode_utf8(s@.take(i as int)).len(),
        decreases chars.len() - i,
    {
        proof {
            lemma_encode_utf8_concat(s@.take(i as int), seq![s@[i as int]]);
            assert(s@.take(i + 1) =~= s@.take(i as int) + seq![s@[i as int]]);
            lemma_encode_utf8_single(s@[i as int]);
        }
        count = count + utf8_width(chars[i]);
        i += 1;
    }
    proof {
        lemma_encode_utf8_concat(s@.take(i as int), s@.skip(i as int));
        assert(s@.take(i as int) + s@.skip(i as int) =~= s@);
        if count <= limit {
            assert(s@.take(i as int) =~= s@);
        }
    }
    count
}

} // verus!
