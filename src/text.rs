//! Text helpers: alphanumeric runs, ASCII lower-casing and slugs.

use vstd::prelude::*;
use vstd::string::StrSliceExecFns;

use crate::identity::push_char;

verus! {

/// An ASCII letter or digit.
pub open spec fn is_alnum(c: char) -> bool {
    ('a' <= c && c <= 'z') || ('A' <= c && c <= 'Z') || ('0' <= c && c <= '9')
}

/// Every character of `w` is an ASCII letter or digit.
pub open spec fn all_alnum(w: Seq<char>) -> bool {
    forall|i: int| 0 <= i < w.len() ==> is_alnum(#[trigger] w[i])
}

/// The maximal runs of ASCII letters and digits in `s`, left to right.
pub open spec fn alnum_runs(s: Seq<char>) -> Seq<Seq<char>>
    decreases s.len(),
{
    if s.len() == 0 {
        Seq::empty()
    } else {
        let prev = alnum_runs(s.drop_last());
        let c = s.last();
        if !is_alnum(c) {
            prev
        } else if s.len() >= 2 && is_alnum(s[s.len() - 2]) {
            prev.update(prev.len() - 1, prev.last().push(c))
        } else {
            prev.push(seq![c])
        }
    }
}

/// The words of `ws` joined by single hyphens.
pub open spec fn join_dash(ws: Seq<Seq<char>>) -> Seq<char>
    decreases ws.len(),
{
    if ws.len() == 0 {
        Seq::empty()
    } else if ws.len() == 1 {
        ws[0]
    } else {
        join_dash(ws.drop_last()) + seq!['-'] + ws.last()
    }
}

/// ASCII lower-casing of one character; every other character is kept.
pub open spec fn lower_char(c: char) -> char {
    if 'A' <= c && c <= 'Z' {
        ((c as u32) + 32) as char
    } else {
        c
    }
}

pub open spec fn lower(s: Seq<char>) -> Seq<char> {
    s.map_values(|c: char| lower_char(c))
}

/// The slug of a name: its alphanumeric runs, joined by hyphens and lower-cased.
pub open spec fn kebab(s: Seq<char>) -> Seq<char> {
    lower(join_dash(alnum_runs(s)))
}

pub open spec fn string_views(v: Seq<String>) -> Seq<Seq<char>> {
    v.map_values(|w: String| w@)
}

/// Relies on regex's `Regex::find_iter`: with the pattern `([A-Za-z0-9])+` it yields, left to
/// right, the non-overlapping maximal runs of ASCII letters and digits of the text.
#[verifier::external_body]
fn find_alnum_runs(pattern: &str, text: &str) -> (r: Vec<String>)
    requires
        pattern@ == "([A-Za-z0-9])+"@,
    ensures
        string_views(r@) == alnum_runs(text@),
{
    let re = regex::Regex::new(pattern).unwrap();
    re.find_iter(text).map(|m| m.as_str().to_string()).collect()
}

fn lower_char_exec(c: char) -> (r: char)
    ensures
        r == lower_char(c),
{
    if 'A' <= c && c <= 'Z' {
        ((c as u8) + 32) as char
    } else {
        c
    }
}

/// ASCII lower-casing: 'A' to 'Z' become 'a' to 'z', every other character is kept.
fn ascii_lowercase(s: &str) -> (r: String)
    ensures
        r@ == lower(s@),
{
    let n: usize = s.unicode_len();
    let mut out = String::new();
    let mut i: usize = 0;
    while i < n
        invariant
            0 <= i <= n,
            n == s@.len(),
            out@ == lower(s@.take(i as int)),
        decreases n - i,
    {
        let c = lower_char_exec(s.get_char(i));
        push_char(&mut out, c);
        proof {
            assert(lower(s@.take(i as int + 1)) =~= lower(s@.take(i as int)).push(c));
        }
        i += 1;
    }
    proof {
        assert(s@.take(n as int) =~= s@);
    }
    out
}

/// Whether two strings hold the same characters.
pub fn text_eq(a: &str, b: &str) -> (r: bool)
    ensures
        r == (a@ == b@),
{
    String::from_str(a) == String::from_str(b)
}

/// Convert a string to an alphanumeric kebab-cased string.
pub fn kebab_case(name: &str) -> (r: String)
    ensures
        r@ == kebab(name@),
{
    let parts = find_alnum_runs("([A-Za-z0-9])+", name);
    let ghost ws = string_views(parts@);
    let mut joined = String::new();
    let mut i: usize = 0;
    while i < parts.len()
        invariant
            0 <= i <= parts.len(),
            ws == string_views(parts@),
            joined@ == join_dash(ws.take(i as int)),
        decreases parts.len() - i,
    {
        proof {
            assert(ws.take(i as int + 1).drop_last() =~= ws.take(i as int));
            assert(ws.take(i as int + 1).last() == parts@[i as int]@);
        }
        if i > 0 {
            joined.append("-");
            proof {
                reveal_strlit("-");
            }
        } else {
            proof {
                assert(ws.take(1) =~= seq![ws[0]]);
            }
        }
        joined.append(parts[i].as_str());
        i += 1;
    }
    proof {
        assert(ws.take(parts.len() as int) =~= ws);
    }
    ascii_lowercase(joined.as_str())
}

proof fn lemma_lower_concat(a: Seq<char>, b: Seq<char>)
    ensures
        lower(a + b) == lower(a) + lower(b),
{
    assert(lower(a + b) =~= lower(a) + lower(b));
}

proof fn lemma_lower_idempotent(s: Seq<char>)
    ensures
        lower(lower(s)) == lower(s),
{
    assert(lower(lower(s)) =~= lower(s));
}

/// Lower-casing a joined list of words is joining the lower-cased words.
proof fn lemma_lower_join(ws: Seq<Seq<char>>)
    ensures
        lower(join_dash(ws)) == join_dash(ws.map_values(|w: Seq<char>| lower(w))),
    decreases ws.len(),
{
    let lw = ws.map_values(|w: Seq<char>| lower(w));
    if ws.len() == 0 {
        assert(lower(Seq::<char>::empty()) =~= Seq::<char>::empty());
    } else if ws.len() == 1 {
    } else {
        lemma_lower_join(ws.drop_last());
        assert(lw.drop_last() =~= ws.drop_last().map_values(|w: Seq<char>| lower(w)));
        lemma_lower_concat(join_dash(ws.drop_last()) + seq!['-'], ws.last());
        lemma_lower_concat(join_dash(ws.drop_last()), seq!['-']);
        assert(lower(seq!['-']) =~= seq!['-']);
    }
}

/// Appending a run of alphanumerics after a boundary adds exactly that run.
proof fn lemma_runs_append_word(p: Seq<char>, w: Seq<char>)
    requires
        w.len() > 0,
        all_alnum(w),
        p.len() == 0 || !is_alnum(p.last()),
    ensures
        alnum_runs(p + w) == alnum_runs(p).push(w),
    decreases w.len(),
{
    if w.len() == 1 {
        assert((p + w).drop_last() =~= p);
        assert(w =~= seq![w[0]]);
        assert(is_alnum(w[0]));
    } else {
        let v = w.drop_last();
        assert(all_alnum(v)) by {
            assert forall|i: int| 0 <= i < v.len() implies is_alnum(#[trigger] v[i]) by {
                assert(v[i] == w[i]);
            }
        }
        lemma_runs_append_word(p, v);
        assert((p + w).drop_last() =~= p + v);
        assert((p + w)[(p + w).len() - 2] == w[w.len() - 2]);
        assert(is_alnum(w[w.len() - 2]));
        assert(is_alnum(w.last()));
        let prev = alnum_runs(p + v);
        assert(prev.update(prev.len() - 1, prev.last().push(w.last())) =~= alnum_runs(p).push(w)) by {
            assert(v.push(w.last()) =~= w);
        }
    }
}

pub open spec fn plain_words(ws: Seq<Seq<char>>) -> bool {
    forall|i: int| 0 <= i < ws.len() ==> #[trigger] ws[i].len() > 0 && all_alnum(ws[i])
}

/// Splitting hyphen-joined alphanumeric words gives the words back.
proof fn lemma_runs_of_join(ws: Seq<Seq<char>>)
    requires
        plain_words(ws),
    ensures
        alnum_runs(join_dash(ws)) == ws,
    decreases ws.len(),
{
    if ws.len() == 0 {
    } else if ws.len() == 1 {
        assert(ws[0].len() > 0);
        lemma_runs_append_word(Seq::empty(), ws[0]);
        assert(Seq::<char>::empty() + ws[0] =~= ws[0]);
        assert(ws =~= seq![ws[0]]);
    } else {
        let init = ws.drop_last();
        assert(plain_words(init)) by {
            assert forall|i: int| 0 <= i < init.len() implies #[trigger] init[i].len() > 0 && all_alnum(init[i]) by {
                assert(init[i] == ws[i]);
            }
        }
        lemma_runs_of_join(init);
        let p = join_dash(init) + seq!['-'];
        assert(ws.last() == ws[ws.len() - 1]);
        lemma_runs_append_word(p, ws.last());
        assert(p.drop_last() =~= join_dash(init));
        assert(alnum_runs(p) == alnum_runs(join_dash(init)));
        assert(init.push(ws.last()) =~= ws);
    }
}

/// Every run found in a text is a non-empty word of letters and digits.
proof fn lemma_runs_are_plain(s: Seq<char>)
    ensures
        plain_words(alnum_runs(s)),
        s.len() > 0 && is_alnum(s.last()) ==> alnum_runs(s).len() > 0,
    decreases s.len(),
{
    if s.len() > 0 {
        lemma_runs_are_plain(s.drop_last());
        assert(s.len() >= 2 ==> s.drop_last().last() == s[s.len() - 2]);
        let prev = alnum_runs(s.drop_last());
        let c = s.last();
        if is_alnum(c) {
            if s.len() >= 2 && is_alnum(s[s.len() - 2]) {
                if prev.len() > 0 {
                    let w = prev.last().push(c);
                    assert(all_alnum(w)) by {
                        assert forall|i: int| 0 <= i < w.len() implies is_alnum(#[trigger] w[i]) by {
                            if i < w.len() - 1 {
                                assert(w[i] == prev.last()[i]);
                                assert(prev.last() == prev[prev.len() - 1]);
                            }
                        }
                    }
                    let next = prev.update(prev.len() - 1, w);
                    assert forall|i: int| 0 <= i < next.len() implies #[trigger] next[i].len() > 0 && all_alnum(next[i]) by {
                        if i < prev.len() - 1 {
                            assert(next[i] == prev[i]);
                        }
                    }
                }
            } else {
                let next = prev.push(seq![c]);
                assert forall|i: int| 0 <= i < next.len() implies #[trigger] next[i].len() > 0 && all_alnum(next[i]) by {
                    if i < prev.len() {
                        assert(next[i] == prev[i]);
                    } else {
                        assert(next[i] =~= seq![c]);
                    }
                }
            }
        }
    }
}

/// Lower-casing keeps a word of letters and digits one.
proof fn lemma_lower_words_plain(ws: Seq<Seq<char>>)
    requires
        plain_words(ws),
    ensures
        plain_words(ws.map_values(|w: Seq<char>| lower(w))),
{
    let lw = ws.map_values(|w: Seq<char>| lower(w));
    assert forall|i: int| 0 <= i < lw.len() implies #[trigger] lw[i].len() > 0 && all_alnum(lw[i]) by {
        assert(lw[i] == lower(ws[i]));
        assert(ws[i].len() > 0 && all_alnum(ws[i]));
        assert forall|j: int| 0 <= j < lw[i].len() implies is_alnum(#[trigger] lw[i][j]) by {
            assert(lw[i][j] == lower_char(ws[i][j]));
            assert(is_alnum(ws[i][j]));
        }
    }
}

/// A slug is its own slug.
pub proof fn lemma_kebab_idempotent(s: Seq<char>)
    ensures
        kebab(kebab(s)) == kebab(s),
{
    let ws = alnum_runs(s);
    let lw = ws.map_values(|w: Seq<char>| lower(w));
    lemma_runs_are_plain(s);
    lemma_lower_join(ws);
    lemma_lower_words_plain(ws);
    lemma_runs_of_join(lw);
    lemma_lower_idempotent(join_dash(ws));
}

} // verus!
