//! Pure text and validation rules: HTML normalisation for display
//! (`strip_html`), HTML escaping for outgoing messages (`html_escape`), and
//! the validated `SendMessageCommand`.

use vstd::prelude::*;
use crate::error::{DomainError, DomainResult};
use crate::models::ChatId;
use crate::text::{all_ws, chars_of, is_blank, owned, push_seq, string_from_chars};

verus! {

/// Maximum allowed length, in characters, for an outgoing message.
pub const MAX_MESSAGE_CHARS: usize = 28000;

/// `pat` occurs in `s` at position 0.
pub open spec fn starts_with(s: Seq<char>, pat: Seq<char>) -> bool {
    pat.len() <= s.len() && forall|k: int| 0 <= k < pat.len() ==> s[k] == pat[k]
}

/// `str::replace(s, pat, rep)` for a non-empty `pat`: every leftmost,
/// non-overlapping occurrence of `pat`, scanning left to right, is replaced by
/// `rep`.
pub open spec fn replace_all(s: Seq<char>, pat: Seq<char>, rep: Seq<char>) -> Seq<char>
    decreases s.len(),
{
    if pat.len() == 0 || s.len() == 0 {
        s
    } else if starts_with(s, pat) {
        rep + replace_all(s.skip(pat.len() as int), pat, rep)
    } else {
        seq![s[0]] + replace_all(s.drop_first(), pat, rep)
    }
}

/// What the tag-removal pass of `strip_html` keeps of `s`, starting inside
/// a tag or not: `<` opens a tag, `>` closes one, and every other character
/// is kept exactly when it stands outside a tag.
pub open spec fn remove_tags(s: Seq<char>, in_tag: bool) -> Seq<char>
    decreases s.len(),
{
    if s.len() == 0 {
        s
    } else if s[0] == '<' {
        remove_tags(s.drop_first(), true)
    } else if s[0] == '>' {
        remove_tags(s.drop_first(), false)
    } else if !in_tag {
        seq![s[0]] + remove_tags(s.drop_first(), in_tag)
    } else {
        remove_tags(s.drop_first(), in_tag)
    }
}

pub open spec fn amp_entity() -> Seq<char> { seq!['&', 'a', 'm', 'p', ';'] }
pub open spec fn lt_entity() -> Seq<char> { seq!['&', 'l', 't', ';'] }
pub open spec fn gt_entity() -> Seq<char> { seq!['&', 'g', 't', ';'] }
pub open spec fn quot_entity() -> Seq<char> { seq!['&', 'q', 'u', 'o', 't', ';'] }
pub open spec fn apos_entity() -> Seq<char> { seq!['&', '#', '3', '9', ';'] }
pub open spec fn nbsp_entity() -> Seq<char> { seq!['&', 'n', 'b', 's', 'p', ';'] }

/// The entity decoding of `strip_html`, applied in its order:
/// `&amp;`, `&lt;`, `&gt;`, `&quot;`, `&#39;`, `&nbsp;`.
pub open spec fn decode_entities(s: Seq<char>) -> Seq<char> {
    let s1 = replace_all(s, amp_entity(), seq!['&']);
    let s2 = replace_all(s1, lt_entity(), seq!['<']);
    let s3 = replace_all(s2, gt_entity(), seq!['>']);
    let s4 = replace_all(s3, quot_entity(), seq!['"']);
    let s5 = replace_all(s4, apos_entity(), seq!['\'']);
    replace_all(s5, nbsp_entity(), seq![' '])
}

/// `strip_html(html)` as a function of the characters of `html`.
pub open spec fn strip_html_spec(s: Seq<char>) -> Seq<char> {
    decode_entities(remove_tags(s, false))
}

/// The escape of one character by `html_escape`.
pub open spec fn escape_char(c: char) -> Seq<char> {
    if c == '&' {
        amp_entity()
    } else if c == '<' {
        lt_entity()
    } else if c == '>' {
        gt_entity()
    } else if c == '"' {
        quot_entity()
    } else if c == '\'' {
        apos_entity()
    } else {
        seq![c]
    }
}

/// `html_escape(s)`: every character replaced by its escape. (Chaining the
/// replacements of `&`, `<`, `>`, `"` and `'` in this order yields the same
/// string, since no escape introduces a character replaced after it.)
pub open spec fn html_escape_spec(s: Seq<char>) -> Seq<char>
    decreases s.len(),
{
    if s.len() == 0 {
        s
    } else {
        escape_char(s[0]) + html_escape_spec(s.drop_first())
    }
}

/// Whether `pat` occurs in `s` at position `i`.
pub fn matches_at(s: &Vec<char>, i: usize, pat: &Vec<char>) -> (r: bool)
    requires
        i <= s@.len(),
    ensures
        r == starts_with(s@.skip(i as int), pat@),
{
    let n = s.len();
    if pat.len() > n - i {
        return false;
    }
    let mut k: usize = 0;
    while k < pat.len()
        invariant
            n == s@.len(),
            i <= s@.len(),
            i + pat@.len() <= s@.len(),
            k <= pat@.len(),
            forall|j: int| 0 <= j < k ==> s@.skip(i as int)[j] == pat@[j],
        decreases pat@.len() - k,
    {
        if s[i + k] != pat[k] {
            assert(s@.skip(i as int)[k as int] != pat@[k as int]);
            return false;
        }
        k = k + 1;
    }
    true
}

/// The position of the first occurrence of `pat` in `s` at or after `i`.
pub open spec fn find_from(s: Seq<char>, pat: Seq<char>, i: int) -> Option<int>
    decreases s.len() - i,
{
    if i < 0 || i > s.len() {
        None
    } else if starts_with(s.skip(i), pat) {
        Some(i)
    } else if i == s.len() {
        None
    } else {
        find_from(s, pat, i + 1)
    }
}

/// A position found by [`find_from`] is at or after the start, within `s`,
/// and `pat` occurs there.
pub proof fn lemma_find_from_found(s: Seq<char>, pat: Seq<char>, i: int)
    ensures
        match find_from(s, pat, i) {
            Some(p) => i <= p <= s.len() && starts_with(s.skip(p), pat),
            None => true,
        },
    decreases s.len() - i,
{
    if 0 <= i < s.len() && !starts_with(s.skip(i), pat) {
        lemma_find_from_found(s, pat, i + 1);
    }
}

/// `str::find`, counted in characters: the first position where `pat` occurs.
pub open spec fn find_spec(s: Seq<char>, pat: Seq<char>) -> Option<int> {
    find_from(s, pat, 0)
}

/// `str::contains`: `pat` occurs somewhere in `s`.
pub open spec fn contains_spec(s: Seq<char>, pat: Seq<char>) -> bool {
    find_spec(s, pat) is Some
}

/// The first position of `pat` in `s`, in characters.
pub fn find(s: &Vec<char>, pat: &Vec<char>) -> (r: Option<usize>)
    ensures
        match find_spec(s@, pat@) {
            Some(i) => r == Some(i as usize),
            None => r is None,
        },
{
    let mut i: usize = 0;
    while i <= s.len()
        invariant
            i <= s@.len() + 1,
            find_spec(s@, pat@) == find_from(s@, pat@, i as int),
        decreases s@.len() + 1 - i,
    {
        if matches_at(s, i, pat) {
            return Some(i);
        }
        if i == s.len() {
            return None;
        }
        i = i + 1;
    }
    None
}

/// `str::contains`: whether `pat` occurs in `s`.
pub fn contains(s: &str, pat: &str) -> (r: bool)
    ensures
        r == contains_spec(s@, pat@),
{
    let x = chars_of(s);
    let p = chars_of(pat);
    find(&x, &p).is_some()
}

/// `str::replace(s, pat, rep)` on character vectors, for a non-empty `pat`.
fn replace_vec(s: &Vec<char>, pat: &Vec<char>, rep: &Vec<char>) -> (r: Vec<char>)
    requires
        pat@.len() > 0,
    ensures
        r@ == replace_all(s@, pat@, rep@),
{
    let mut out: Vec<char> = Vec::new();
    let mut i: usize = 0;
    assert(s@.skip(0) =~= s@);
    assert(out@ + replace_all(s@, pat@, rep@) =~= replace_all(s@, pat@, rep@));
    while i < s.len()
        invariant
            pat@.len() > 0,
            i <= s@.len(),
            replace_all(s@, pat@, rep@) == out@ + replace_all(s@.skip(i as int), pat@, rep@),
        decreases s@.len() - i,
    {
        let ghost rest = s@.skip(i as int);
        if matches_at(s, i, pat) {
            push_seq(&mut out, rep);
            assert(rest.skip(pat@.len() as int) =~= s@.skip(i + pat@.len()));
            i = i + pat.len();
        } else {
            out.push(s[i]);
            assert(rest.drop_first() =~= s@.skip(i + 1));
            i = i + 1;
        }
    }
    assert(s@.skip(i as int) =~= Seq::<char>::empty());
    assert(out@ + Seq::<char>::empty() =~= out@);
    out
}

/// Strip HTML tags from content for display: removes everything between `<`
/// and `>` and decodes `&amp;`, `&lt;`, `&gt;`, `&quot;`, `&#39;` and
/// `&nbsp;`, in that order.
pub fn strip_html(html: &str) -> (r: String)
    ensures
        r@ == strip_html_spec(html@),
{
    let cs = chars_of(html);
    let mut kept: Vec<char> = Vec::new();
    let mut in_tag = false;
    let mut i: usize = 0;
    assert(cs@.skip(0) =~= cs@);
    assert(kept@ + remove_tags(cs@, false) =~= remove_tags(cs@, false));
    while i < cs.len()
        invariant
            i <= cs@.len(),
            cs@ == html@,
            remove_tags(cs@, false) == kept@ + remove_tags(cs@.skip(i as int), in_tag),
        decreases cs@.len() - i,
    {
        let ch = cs[i];
        assert(cs@.skip(i as int).drop_first() =~= cs@.skip(i + 1));
        if ch == '<' {
            in_tag = true;
        } else if ch == '>' {
            in_tag = false;
        } else if !in_tag {
            kept.push(ch);
        }
        i = i + 1;
    }
    assert(cs@.skip(i as int) =~= Seq::<char>::empty());
    assert(kept@ + Seq::<char>::empty() =~= kept@);
    proof {
        reveal_strlit("&amp;");
        reveal_strlit("&lt;");
        reveal_strlit("&gt;");
        reveal_strlit("&quot;");
        reveal_strlit("&#39;");
        reveal_strlit("&nbsp;");
        reveal_strlit("&");
        reveal_strlit("<");
        reveal_strlit(">");
        reveal_strlit("\"");
        reveal_strlit("'");
        reveal_strlit(" ");
        assert("&amp;"@ =~= amp_entity());
        assert("&lt;"@ =~= lt_entity());
        assert("&gt;"@ =~= gt_entity());
        assert("&quot;"@ =~= quot_entity());
        assert("&#39;"@ =~= apos_entity());
        assert("&nbsp;"@ =~= nbsp_entity());
        assert("&"@ =~= seq!['&']);
        assert("<"@ =~= seq!['<']);
        assert(">"@ =~= seq!['>']);
        assert("\""@ =~= seq!['"']);
        assert("'"@ =~= seq!['\'']);
        assert(" "@ =~= seq![' ']);
    }
    let s1 = replace_vec(&kept, &chars_of("&amp;"), &chars_of("&"));
    let s2 = replace_vec(&s1, &chars_of("&lt;"), &chars_of("<"));
    let s3 = replace_vec(&s2, &chars_of("&gt;"), &chars_of(">"));
    let s4 = replace_vec(&s3, &chars_of("&quot;"), &chars_of("\""));
    let s5 = replace_vec(&s4, &chars_of("&#39;"), &chars_of("'"));
    let s6 = replace_vec(&s5, &chars_of("&nbsp;"), &chars_of(" "));
    string_from_chars(&s6)
}

/// The escape of `c`, as characters.
fn escape_of(c: char) -> (r: Vec<char>)
    ensures
        r@ == escape_char(c),
{
    proof {
        reveal_strlit("&amp;");
        reveal_strlit("&lt;");
        reveal_strlit("&gt;");
        reveal_strlit("&quot;");
        reveal_strlit("&#39;");
        assert("&amp;"@ =~= amp_entity());
        assert("&lt;"@ =~= lt_entity());
        assert("&gt;"@ =~= gt_entity());
        assert("&quot;"@ =~= quot_entity());
        assert("&#39;"@ =~= apos_entity());
    }
    if c == '&' {
        chars_of("&amp;")
    } else if c == '<' {
        chars_of("&lt;")
    } else if c == '>' {
        chars_of("&gt;")
    } else if c == '"' {
        chars_of("&quot;")
    } else if c == '\'' {
        chars_of("&#39;")
    } else {
        let mut v: Vec<char> = Vec::new();
        v.push(c);
        v
    }
}

/// HTML-escape text for embedding in Teams RichText/Html messages: `&`, `<`,
/// `>`, `"` and `'` become `&amp;`, `&lt;`, `&gt;`, `&quot;` and `&#39;`.
pub fn html_escape(text: &str) -> (r: String)
    ensures
        r@ == html_escape_spec(text@),
{
    let cs = chars_of(text);
    let mut out: Vec<char> = Vec::new();
    let mut i: usize = 0;
    assert(cs@.skip(0) =~= cs@);
    assert(out@ + html_escape_spec(cs@) =~= html_escape_spec(cs@));
    while i < cs.len()
        invariant
            i <= cs@.len(),
            cs@ == text@,
            html_escape_spec(cs@) == out@ + html_escape_spec(cs@.skip(i as int)),
        decreases cs@.len() - i,
    {
        assert(cs@.skip(i as int).drop_first() =~= cs@.skip(i + 1));
        let e = escape_of(cs[i]);
        push_seq(&mut out, &e);
        i = i + 1;
    }
    assert(cs@.skip(i as int) =~= Seq::<char>::empty());
    assert(out@ + Seq::<char>::empty() =~= out@);
    string_from_chars(&out)
}

/// Text that holds no `<`, `>` or `&`: no tag and no entity.
pub open spec fn tag_free(x: Seq<char>) -> bool {
    forall|i: int| 0 <= i < x.len() ==> #[trigger] x[i] != '<' && x[i] != '>' && x[i] != '&'
}

/// `html_escape` followed by the decoding of `&quot;` only: what the
/// decoding of `strip_html` has left after its fourth replacement.
pub open spec fn apos_escaped(s: Seq<char>) -> Seq<char>
    decreases s.len(),
{
    if s.len() == 0 {
        s
    } else {
        (if s[0] == '\'' { apos_entity() } else { seq![s[0]] }) + apos_escaped(s.drop_first())
    }
}

/// A prefix free of `pat`'s first character passes through the replacement.
proof fn lemma_replace_passthrough(a: Seq<char>, b: Seq<char>, pat: Seq<char>, rep: Seq<char>)
    requires
        pat.len() > 0,
        forall|i: int| 0 <= i < a.len() ==> #[trigger] a[i] != pat[0],
    ensures
        replace_all(a + b, pat, rep) == a + replace_all(b, pat, rep),
    decreases a.len(),
{
    if a.len() == 0 {
        assert(a + b =~= b);
        assert(a + replace_all(b, pat, rep) =~= replace_all(b, pat, rep));
    } else {
        let ab = a + b;
        assert(ab[0] == a[0]);
        assert(!starts_with(ab, pat));
        assert(ab.drop_first() =~= a.drop_first() + b);
        lemma_replace_passthrough(a.drop_first(), b, pat, rep);
        assert(seq![a[0]] + (a.drop_first() + replace_all(b, pat, rep)) =~= a + replace_all(
            b,
            pat,
            rep,
        ));
    }
}

/// An entity that `pat` does not match at its `&` passes through the replacement.
proof fn lemma_entity_passthrough(c: Seq<char>, rest: Seq<char>, pat: Seq<char>, rep: Seq<char>)
    requires
        c.len() >= 2,
        pat.len() >= 2,
        c[0] == '&',
        pat[0] == '&',
        c[1] != pat[1],
        forall|i: int| 1 <= i < c.len() ==> #[trigger] c[i] != '&',
    ensures
        replace_all(c + rest, pat, rep) == c + replace_all(rest, pat, rep),
{
    let s = c + rest;
    assert(s[1] == c[1]);
    assert(!starts_with(s, pat));
    assert(s.drop_first() =~= c.drop_first() + rest);
    let t = c.drop_first();
    assert forall|i: int| 0 <= i < t.len() implies #[trigger] t[i] != pat[0] by {
        assert(t[i] == c[i + 1]);
    }
    lemma_replace_passthrough(t, rest, pat, rep);
    assert(seq![c[0]] + (t + replace_all(rest, pat, rep)) =~= c + replace_all(rest, pat, rep));
}

/// The tag-removal pass keeps a prefix holding no `<` or `>`.
proof fn lemma_remove_tags_passthrough(a: Seq<char>, b: Seq<char>)
    requires
        forall|i: int| 0 <= i < a.len() ==> #[trigger] a[i] != '<' && a[i] != '>',
    ensures
        remove_tags(a + b, false) == a + remove_tags(b, false),
    decreases a.len(),
{
    if a.len() == 0 {
        assert(a + b =~= b);
        assert(a + remove_tags(b, false) =~= remove_tags(b, false));
    } else {
        let ab = a + b;
        assert(ab[0] == a[0]);
        assert(ab.drop_first() =~= a.drop_first() + b);
        lemma_remove_tags_passthrough(a.drop_first(), b);
        assert(seq![a[0]] + (a.drop_first() + remove_tags(b, false)) =~= a + remove_tags(b, false));
    }
}

/// The escape of a tag-free text holds no `<` or `>`, so the tag-removal pass keeps it.
proof fn lemma_escape_has_no_tags(x: Seq<char>)
    requires
        tag_free(x),
    ensures
        remove_tags(html_escape_spec(x), false) == html_escape_spec(x),
    decreases x.len(),
{
    if x.len() > 0 {
        let c = escape_char(x[0]);
        let rest = x.drop_first();
        assert(tag_free(rest)) by {
            assert forall|i: int| 0 <= i < rest.len() implies #[trigger] rest[i] != '<' && rest[i]
                != '>' && rest[i] != '&' by {
                assert(rest[i] == x[i + 1]);
            }
        }
        lemma_escape_has_no_tags(rest);
        assert(x[0] != '<' && x[0] != '>' && x[0] != '&');
        assert forall|i: int| 0 <= i < c.len() implies #[trigger] c[i] != '<' && c[i] != '>' by {}
        lemma_remove_tags_passthrough(c, html_escape_spec(rest));
    }
}

proof fn lemma_tag_free_rest(x: Seq<char>)
    requires
        tag_free(x),
        x.len() > 0,
    ensures
        tag_free(x.drop_first()),
        x[0] != '<' && x[0] != '>' && x[0] != '&',
{
    let rest = x.drop_first();
    assert forall|i: int| 0 <= i < rest.len() implies #[trigger] rest[i] != '<' && rest[i] != '>'
        && rest[i] != '&' by {
        assert(rest[i] == x[i + 1]);
    }
}

/// Decoding `&amp;`, `&lt;` or `&gt;` leaves the escape of a tag-free text unchanged.
proof fn lemma_escape_keeps_stage(x: Seq<char>, pat: Seq<char>, rep: Seq<char>)
    requires
        tag_free(x),
        pat.len() >= 2,
        pat[0] == '&',
        pat[1] != 'q',
        pat[1] != '#',
    ensures
        replace_all(html_escape_spec(x), pat, rep) == html_escape_spec(x),
    decreases x.len(),
{
    if x.len() > 0 {
        lemma_tag_free_rest(x);
        let rest = x.drop_first();
        let e = html_escape_spec(rest);
        lemma_escape_keeps_stage(rest, pat, rep);
        let c = escape_char(x[0]);
        if x[0] == '"' {
            lemma_entity_passthrough(c, e, pat, rep);
        } else if x[0] == '\'' {
            lemma_entity_passthrough(c, e, pat, rep);
        } else {
            assert(c =~= seq![x[0]]);
            lemma_replace_passthrough(c, e, pat, rep);
        }
    }
}

/// Decoding `&quot;` turns the escape of a tag-free text into [`apos_escaped`].
proof fn lemma_quot_stage(x: Seq<char>)
    requires
        tag_free(x),
    ensures
        replace_all(html_escape_spec(x), quot_entity(), seq!['"']) == apos_escaped(x),
    decreases x.len(),
{
    if x.len() > 0 {
        lemma_tag_free_rest(x);
        let rest = x.drop_first();
        let e = html_escape_spec(rest);
        lemma_quot_stage(rest);
        let c = escape_char(x[0]);
        if x[0] == '"' {
            let s = c + e;
            assert(starts_with(s, quot_entity()));
            assert(s.skip(6) =~= e);
        } else if x[0] == '\'' {
            lemma_entity_passthrough(c, e, quot_entity(), seq!['"']);
        } else {
            assert(c =~= seq![x[0]]);
            lemma_replace_passthrough(c, e, quot_entity(), seq!['"']);
        }
    }
}

/// Decoding `&#39;` turns [`apos_escaped`] of a tag-free text back into the text.
proof fn lemma_apos_stage(x: Seq<char>)
    requires
        tag_free(x),
    ensures
        replace_all(apos_escaped(x), apos_entity(), seq!['\'']) == x,
    decreases x.len(),
{
    if x.len() == 0 {
        assert(apos_escaped(x) =~= x);
    } else {
        lemma_tag_free_rest(x);
        let rest = x.drop_first();
        let q = apos_escaped(rest);
        lemma_apos_stage(rest);
        if x[0] == '\'' {
            let s = apos_entity() + q;
            assert(starts_with(s, apos_entity()));
            assert(s.skip(5) =~= q);
        } else {
            lemma_replace_passthrough(seq![x[0]], q, apos_entity(), seq!['\'']);
        }
        assert(seq![x[0]] + rest =~= x);
    }
}

/// For text without tags or entities (no `<`, `>` or `&`), `strip_html`
/// undoes `html_escape`: `strip_html(&html_escape(x)) == x`.
pub proof fn lemma_strip_html_inverts_html_escape(x: Seq<char>)
    requires
        tag_free(x),
    ensures
        strip_html_spec(html_escape_spec(x)) == x,
{
    let e = html_escape_spec(x);
    lemma_escape_has_no_tags(x);
    lemma_escape_keeps_stage(x, amp_entity(), seq!['&']);
    lemma_escape_keeps_stage(x, lt_entity(), seq!['<']);
    lemma_escape_keeps_stage(x, gt_entity(), seq!['>']);
    lemma_quot_stage(x);
    lemma_apos_stage(x);
    assert(x + Seq::<char>::empty() =~= x);
    assert forall|i: int| 0 <= i < x.len() implies #[trigger] x[i] != nbsp_entity()[0] by {}
    lemma_replace_passthrough(x, Seq::<char>::empty(), nbsp_entity(), seq![' ']);
    assert(replace_all(Seq::<char>::empty(), nbsp_entity(), seq![' ']) =~= Seq::<char>::empty());
}

/// Escaped text is inert in HTML: whatever the text, its escape holds no
/// `<`, `>`, `"` or `'`.
pub proof fn lemma_escape_is_inert(x: Seq<char>)
    ensures
        forall|i: int|
            0 <= i < html_escape_spec(x).len() ==> #[trigger] html_escape_spec(x)[i] != '<'
                && html_escape_spec(x)[i] != '>' && html_escape_spec(x)[i] != '"'
                && html_escape_spec(x)[i] != '\'',
    decreases x.len(),
{
    if x.len() > 0 {
        let c = escape_char(x[0]);
        let rest = x.drop_first();
        let e = html_escape_spec(rest);
        lemma_escape_is_inert(rest);
        assert forall|i: int| 0 <= i < c.len() implies #[trigger] c[i] != '<' && c[i] != '>' && c[i]
            != '"' && c[i] != '\'' by {}
        assert forall|i: int| 0 <= i < html_escape_spec(x).len() implies #[trigger] html_escape_spec(
            x,
        )[i] != '<' && html_escape_spec(x)[i] != '>' && html_escape_spec(x)[i] != '"'
            && html_escape_spec(x)[i] != '\'' by {
            if i < c.len() {
                assert(html_escape_spec(x)[i] == c[i]);
            } else {
                assert(html_escape_spec(x)[i] == e[i - c.len()]);
            }
        }
    }
}

/// The tag-removal pass keeps the escape of a tag-free text in front of
/// anything.
proof fn lemma_escape_passthrough(x: Seq<char>, b: Seq<char>)
    requires
        tag_free(x),
    ensures
        remove_tags(html_escape_spec(x) + b, false) == html_escape_spec(x) + remove_tags(b, false),
    decreases x.len(),
{
    if x.len() == 0 {
        assert(html_escape_spec(x) + b =~= b);
        assert(html_escape_spec(x) + remove_tags(b, false) =~= remove_tags(b, false));
    } else {
        lemma_tag_free_rest(x);
        let c = escape_char(x[0]);
        let rest = x.drop_first();
        lemma_escape_passthrough(rest, b);
        assert forall|i: int| 0 <= i < c.len() implies #[trigger] c[i] != '<' && c[i] != '>' by {}
        assert(html_escape_spec(x) + b =~= c + (html_escape_spec(rest) + b));
        lemma_remove_tags_passthrough(c, html_escape_spec(rest) + b);
        assert(c + (html_escape_spec(rest) + remove_tags(b, false)) =~= html_escape_spec(x)
            + remove_tags(b, false));
    }
}

/// What is sent is what is read back: the HTML content of an outgoing
/// message (its escape in a paragraph), stripped of its HTML as incoming
/// content is, gives the message again, for a message without tags or
/// entities.
pub proof fn lemma_sent_paragraph_reads_back(x: Seq<char>)
    requires
        tag_free(x),
    ensures
        strip_html_spec("<p>"@ + html_escape_spec(x) + "</p>"@) == x,
{
    reveal_strlit("<p>");
    reveal_strlit("</p>");
    let e = html_escape_spec(x);
    let body = e + "</p>"@;
    let s = "<p>"@ + e + "</p>"@;
    let s1 = s.drop_first();
    let s2 = s1.drop_first();
    assert(s =~= seq!['<', 'p', '>'] + body);
    assert(s[0] == '<');
    assert(s1 =~= seq!['p', '>'] + body);
    assert(s1[0] == 'p');
    assert(s2 =~= seq!['>'] + body);
    assert(s2[0] == '>');
    assert(s2.drop_first() =~= body);
    assert(remove_tags(s2, true) == remove_tags(body, false));
    assert(remove_tags(s1, true) == remove_tags(s2, true));
    assert(remove_tags(s, false) == remove_tags(s1, true));
    lemma_escape_passthrough(x, "</p>"@);
    let c0 = "</p>"@;
    let c1 = c0.drop_first();
    let c2 = c1.drop_first();
    let c3 = c2.drop_first();
    let c4 = c3.drop_first();
    assert(c0[0] == '<' && c1[0] == '/' && c2[0] == 'p' && c3[0] == '>');
    assert(c4 =~= Seq::<char>::empty());
    assert(remove_tags(c3, true) == remove_tags(c4, false));
    assert(remove_tags(c2, true) == remove_tags(c3, true));
    assert(remove_tags(c1, true) == remove_tags(c2, true));
    assert(remove_tags(c0, false) == remove_tags(c1, true));
    assert(remove_tags(c0, false) =~= Seq::<char>::empty());
    assert(e + Seq::<char>::empty() =~= e);
    assert(remove_tags(body, false) =~= e);
    lemma_escape_has_no_tags(x);
    lemma_strip_html_inverts_html_escape(x);
}

/// The words of `ws` with `sep` between consecutive words.
pub open spec fn joined(ws: Seq<Seq<char>>, sep: Seq<char>) -> Seq<char>
    decreases ws.len(),
{
    if ws.len() == 0 {
        Seq::empty()
    } else if ws.len() == 1 {
        ws[0]
    } else {
        ws[0] + sep + joined(ws.drop_first(), sep)
    }
}

/// No word of `ws` holds the character `c`.
pub open spec fn words_avoid(ws: Seq<Seq<char>>, c: char) -> bool {
    forall|i: int, j: int| 0 <= i < ws.len() && 0 <= j < ws[i].len() ==> #[trigger] ws[i][j] != c
}

/// The replacement replaces every occurrence, not only the first: words that
/// hold no first character of `pat`, joined by `pat`, become the words
/// joined by `rep`.
pub proof fn lemma_replace_joined(ws: Seq<Seq<char>>, pat: Seq<char>, rep: Seq<char>)
    requires
        pat.len() > 0,
        words_avoid(ws, pat[0]),
    ensures
        replace_all(joined(ws, pat), pat, rep) == joined(ws, rep),
    decreases ws.len(),
{
    if ws.len() == 0 {
    } else {
        let w = ws[0];
        assert forall|j: int| 0 <= j < w.len() implies #[trigger] w[j] != pat[0] by {
            assert(ws[0][j] != pat[0]);
        }
        if ws.len() == 1 {
            lemma_replace_passthrough(w, Seq::<char>::empty(), pat, rep);
            assert(w + Seq::<char>::empty() =~= w);
        } else {
            let rest = ws.drop_first();
            assert forall|i: int, j: int| 0 <= i < rest.len() && 0 <= j < rest[i].len() implies #[trigger] rest[i][j]
                != pat[0] by {
                assert(rest[i] == ws[i + 1]);
            }
            lemma_replace_joined(rest, pat, rep);
            let tail = pat + joined(rest, pat);
            assert(joined(ws, pat) =~= w + tail);
            lemma_replace_passthrough(w, tail, pat, rep);
            assert(starts_with(tail, pat));
            assert(tail.skip(pat.len() as int) =~= joined(rest, pat));
            assert(joined(ws, rep) =~= w + (rep + joined(rest, rep)));
        }
    }
}

/// A text with no `;` holds no entity: replacing a pattern that ends with
/// `;` leaves it as it is.
proof fn lemma_replace_needs_semicolon(s: Seq<char>, pat: Seq<char>, rep: Seq<char>)
    requires
        pat.len() > 0,
        pat[pat.len() - 1] == ';',
        forall|i: int| 0 <= i < s.len() ==> #[trigger] s[i] != ';',
    ensures
        replace_all(s, pat, rep) == s,
    decreases s.len(),
{
    if s.len() > 0 {
        if starts_with(s, pat) {
            assert(s[pat.len() - 1] == pat[pat.len() - 1]);
        }
        lemma_replace_needs_semicolon(s.drop_first(), pat, rep);
        assert(seq![s[0]] + s.drop_first() =~= s);
    }
}

/// Words that avoid `c`, joined by a separator that avoids `c`, avoid `c`.
proof fn lemma_joined_avoids(ws: Seq<Seq<char>>, sep: Seq<char>, c: char)
    requires
        words_avoid(ws, c),
        forall|i: int| 0 <= i < sep.len() ==> #[trigger] sep[i] != c,
    ensures
        forall|i: int| 0 <= i < joined(ws, sep).len() ==> #[trigger] joined(ws, sep)[i] != c,
    decreases ws.len(),
{
    if ws.len() > 0 {
        let w = ws[0];
        assert forall|j: int| 0 <= j < w.len() implies #[trigger] w[j] != c by {
            assert(ws[0][j] != c);
        }
        if ws.len() > 1 {
            let rest = ws.drop_first();
            assert forall|i: int, j: int| 0 <= i < rest.len() && 0 <= j < rest[i].len() implies #[trigger] rest[i][j]
                != c by {
                assert(rest[i] == ws[i + 1]);
            }
            lemma_joined_avoids(rest, sep, c);
            let t = joined(rest, sep);
            let all = joined(ws, sep);
            assert(all =~= w + sep + t);
            assert forall|i: int| 0 <= i < all.len() implies #[trigger] all[i] != c by {
                if i < w.len() {
                    assert(all[i] == w[i]);
                } else if i < w.len() + sep.len() {
                    assert(all[i] == sep[i - w.len()]);
                } else {
                    assert(all[i] == t[i - w.len() - sep.len()]);
                }
            }
        }
    }
}

/// `strip_html` decodes every `&amp;`, not only the first: text made of
/// words joined by `&amp;`, whose words hold no `&`, `<`, `>` or `;`, reads
/// back as the words joined by `&` (so `Q&amp;A and R&amp;D` gives
/// `Q&A and R&D`).
pub proof fn lemma_strip_html_decodes_every_amp(ws: Seq<Seq<char>>)
    requires
        words_avoid(ws, '&'),
        words_avoid(ws, '<'),
        words_avoid(ws, '>'),
        words_avoid(ws, ';'),
    ensures
        strip_html_spec(joined(ws, amp_entity())) == joined(ws, seq!['&']),
{
    let src = joined(ws, amp_entity());
    lemma_joined_avoids(ws, amp_entity(), '<');
    lemma_joined_avoids(ws, amp_entity(), '>');
    assert forall|i: int| 0 <= i < src.len() implies #[trigger] src[i] != '<' && src[i] != '>' by {}
    lemma_remove_tags_passthrough(src, Seq::<char>::empty());
    assert(src + Seq::<char>::empty() =~= src);
    assert(remove_tags(Seq::<char>::empty(), false) =~= Seq::<char>::empty());
    assert(remove_tags(src, false) == src);
    lemma_replace_joined(ws, amp_entity(), seq!['&']);
    let s1 = joined(ws, seq!['&']);
    lemma_joined_avoids(ws, seq!['&'], ';');
    lemma_replace_needs_semicolon(s1, lt_entity(), seq!['<']);
    lemma_replace_needs_semicolon(s1, gt_entity(), seq!['>']);
    lemma_replace_needs_semicolon(s1, quot_entity(), seq!['"']);
    lemma_replace_needs_semicolon(s1, apos_entity(), seq!['\'']);
    lemma_replace_needs_semicolon(s1, nbsp_entity(), seq![' ']);
}

/// A validated command to send a message to a chat. Built through
/// [`SendMessageCommand::new`], it always carries a non-blank text of at most
/// [`MAX_MESSAGE_CHARS`] characters.
#[derive(Debug, Clone)]
pub struct SendMessageCommand {
    pub chat_id: ChatId,
    pub text: String,
}

impl SendMessageCommand {
    /// Construct a validated `SendMessageCommand`.
    ///
    /// Rejects empty or whitespace-only text, and text longer than
    /// [`MAX_MESSAGE_CHARS`] characters, with [`DomainError::Invalid`] naming
    /// the violated rule. The stored text is the text as given, not trimmed.
    pub fn new(chat_id: ChatId, text: &str) -> (r: DomainResult<SendMessageCommand>)
        ensures
            r is Ok <==> !all_ws(text@) && text@.len() <= MAX_MESSAGE_CHARS,
            r matches Ok(cmd) ==> cmd.chat_id == chat_id && cmd.text@ == text@ && !all_ws(
                cmd.text@,
            ),
            r matches Err(e) ==> e matches DomainError::Invalid(m) && (if all_ws(text@) {
                m@ == "message must not be empty"@
            } else {
                m@ == "message must be at most 28000 characters"@
            }),
    {
        if is_blank(text) {
            return Err(DomainError::Invalid(owned("message must not be empty")));
        }
        let n = chars_of(text).len();
        if n > MAX_MESSAGE_CHARS {
            return Err(DomainError::Invalid(owned("message must be at most 28000 characters")));
        }
        Ok(SendMessageCommand { chat_id, text: owned(text) })
    }
}

/// The command to send `text` to the chat `chat_id`, validated in order:
/// first the chat id, then the text (see [`ChatId::new`] and
/// [`SendMessageCommand::new`]).
pub fn send_command(chat_id: &str, text: &str) -> (r: DomainResult<SendMessageCommand>)
    ensures
        r is Ok <==> !all_ws(chat_id@) && !all_ws(text@) && text@.len() <= MAX_MESSAGE_CHARS,
        r matches Ok(cmd) ==> cmd.chat_id.0@ == chat_id@ && cmd.text@ == text@,
        all_ws(chat_id@) ==> (r matches Err(e) && e matches DomainError::Invalid(m) && m@
            == "chat id must not be empty"@),
        !all_ws(chat_id@) && all_ws(text@) ==> (r matches Err(e) && e matches DomainError::Invalid(m)
            && m@ == "message must not be empty"@),
        !all_ws(chat_id@) && !all_ws(text@) && text@.len() > MAX_MESSAGE_CHARS ==> (
        r matches Err(e) && e matches DomainError::Invalid(m) && m@
            == "message must be at most 28000 characters"@),
{
    match ChatId::new(chat_id) {
        Ok(id) => SendMessageCommand::new(id, text),
        Err(e) => Err(e),
    }
}

} // verus!
