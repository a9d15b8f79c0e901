//! String-level operations: prefix tests, line splitting, joining, lossy
//! UTF-8 decoding and single-character pushes.
use vstd::prelude::*;
use crate::text::{
    chars_of, first_newline, join_seqs, lemma_first_newline_at, lemma_join_push, lines,
    starts_with_seq, strip_cr,
};

verus! {

// ---------------------------------------------------------------------
// Trusted boundary
// ---------------------------------------------------------------------

/// What `String::from_utf8_lossy` returns for a byte sequence: its UTF-8
/// decoding, with each invalid part replaced by U+FFFD.
pub uninterp spec fn utf8_lossy_decode(bytes: Seq<u8>) -> Seq<char>;

/// Calls `String::from_utf8_lossy` and takes the result as an owned string.
/// The result is named `utf8_lossy_decode` of the bytes; for valid UTF-8
/// the documentation promises the plain decoding, and that is stated too.
#[verifier::external_body]
pub fn utf8_lossy(bytes: &[u8]) -> (s: String)
    ensures
        s@ == utf8_lossy_decode(bytes@),
        vstd::utf8::valid_utf8(bytes@) ==> s@ == vstd::utf8::decode_utf8(bytes@),
{
    String::from_utf8_lossy(bytes).into_owned()
}

/// Calls `String::push`, which appends one character.
#[verifier::external_body]
pub fn string_push(s: &mut String, c: char)
    ensures
        final(s)@ == old(s)@.push(c),
{
    s.push(c)
}

// ---------------------------------------------------------------------
// Functions
// ---------------------------------------------------------------------

/// A string holding the characters of `v`.
pub fn string_from_chars(v: &[char]) -> (s: String)
    ensures
        s@ == v@,
{
    let mut s = String::new();
    let mut i: usize = 0;
    while i < v.len()
        invariant
            i <= v@.len(),
            s@ == v@.take(i as int),
        decreases v@.len() - i,
    {
        string_push(&mut s, v[i]);
        assert(v@.take(i + 1) =~= v@.take(i as int).push(v@[i as int]));
        i = i + 1;
    }
    assert(v@.take(v@.len() as int) =~= v@);
    s
}

/// Whether `s` begins with `prefix`.
pub fn starts_with_str(s: &str, prefix: &str) -> (r: bool)
    ensures
        r == starts_with_seq(s@, prefix@),
{
    let a = chars_of(s);
    let p = chars_of(prefix);
    if p.len() > a.len() {
        return false;
    }
    let mut i: usize = 0;
    while i < p.len()
        invariant
            i <= p@.len() <= a@.len(),
            a@ == s@,
            p@ == prefix@,
            forall|k: int| 0 <= k < i ==> a@[k] == p@[k],
        decreases p@.len() - i,
    {
        if a[i] != p[i] {
            assert(s@.subrange(0, prefix@.len() as int)[i as int] != prefix@[i as int]);
            return false;
        }
        i = i + 1;
    }
    assert(s@.subrange(0, prefix@.len() as int) =~= prefix@);
    true
}

/// Whether two strings are equal.
pub fn str_equals(a: &str, b: &str) -> (r: bool)
    ensures
        r == (a@ == b@),
{
    let x = chars_of(a);
    let y = chars_of(b);
    crate::text::chars_eq(x.as_slice(), y.as_slice())
}

/// The lines of `s` (`str::lines`).
pub fn lines_of(s: &str) -> (r: Vec<String>)
    ensures
        r@.map_values(|x: String| x@) == lines(s@),
{
    let c = chars_of(s);
    let n = c.len();
    let mut r: Vec<String> = Vec::new();
    let mut start: usize = 0;
    let mut i: usize = 0;
    assert(s@.skip(0) =~= s@);
    while i < n
        invariant
            start <= i <= n == s@.len(),
            c@ == s@,
            forall|k: int| start <= k < i ==> s@[k] != '\n',
            lines(s@) == r@.map_values(|x: String| x@) + lines(s@.skip(start as int)),
        decreases n - i,
    {
        if c[i] == '\n' {
            let ghost rest = s@.skip(start as int);
            proof {
                assert forall|k: int| 0 <= k < i - start implies rest[k] != '\n' by {
                    assert(rest[k] == s@[start + k]);
                }
                lemma_first_newline_at(rest, i - start);
                assert(rest.take(i - start) =~= s@.subrange(start as int, i as int));
                assert(rest.skip(i - start + 1) =~= s@.skip(i + 1));
            }
            let end = if i > start && c[i - 1] == '\r' {
                i - 1
            } else {
                i
            };
            assert(s@.subrange(start as int, end as int) == strip_cr(
                s@.subrange(start as int, i as int),
            )) by {
                if i > start && s@[i - 1] == '\r' {
                    assert(s@.subrange(start as int, i as int).drop_last() =~= s@.subrange(
                        start as int,
                        i - 1,
                    ));
                }
            }
            let line = String::from_str(s.substring_char(start, end));
            let ghost before = r@;
            r.push(line);
            assert(r@.map_values(|x: String| x@) =~= before.map_values(|x: String| x@).push(
                line@,
            ));
            start = i + 1;
        }
        i = i + 1;
    }
    if start < n {
        let ghost rest = s@.skip(start as int);
        proof {
            assert forall|k: int| 0 <= k < n - start implies rest[k] != '\n' by {
                assert(rest[k] == s@[start + k]);
            }
            lemma_first_newline_at(rest, n - start);
            assert(rest =~= s@.subrange(start as int, n as int));
        }
        let line = String::from_str(s.substring_char(start, n));
        let ghost before = r@;
        r.push(line);
        assert(r@.map_values(|x: String| x@) =~= before.map_values(|x: String| x@).push(line@));
    } else {
        assert(s@.skip(start as int).len() == 0);
        assert(r@.map_values(|x: String| x@) + seq![] =~= r@.map_values(|x: String| x@));
    }
    r
}

/// The strings of `parts` joined with `sep` between neighbours.
pub fn join_strings(parts: &[String], sep: &str) -> (r: String)
    ensures
        r@ == join_seqs(parts@.map_values(|x: String| x@), sep@),
{
    let ghost views = parts@.map_values(|x: String| x@);
    let mut r = String::new();
    let mut i: usize = 0;
    assert(views.take(0) =~= Seq::<Seq<char>>::empty());
    while i < parts.len()
        invariant
            i <= parts@.len(),
            views == parts@.map_values(|x: String| x@),
            r@ == join_seqs(views.take(i as int), sep@),
        decreases parts@.len() - i,
    {
        proof {
            lemma_join_push(views.take(i as int), sep@, views[i as int]);
            assert(views.take(i + 1) =~= views.take(i as int).push(views[i as int]));
        }
        if i > 0 {
            r.append(sep);
        }
        r.append(parts[i].as_str());
        i = i + 1;
    }
    assert(views.take(parts@.len() as int) =~= views);
    r
}

/// The last `n` lines of `log`, newest first, one per line.
pub open spec fn log_tail_spec(log: Seq<char>, n: nat) -> Seq<char> {
    let ls = lines(log).reverse();
    join_seqs(ls.take(if n <= ls.len() { n as int } else { ls.len() as int }), "\n"@)
}

/// The last `n` lines of `log` in reverse order, joined with newlines, as
/// shown when the gateway fails to start.
pub fn last_log_lines(log: &str, n: usize) -> (r: String)
    ensures
        r@ == log_tail_spec(log@, n as nat),
{
    let all = lines_of(log);
    let len = all.len();
    let ghost rev = lines(log@).reverse();
    let mut picked: Vec<String> = Vec::new();
    let mut k: usize = 0;
    while k < n && k < len
        invariant
            k <= len == all@.len(),
            k <= n,
            all@.map_values(|x: String| x@) == lines(log@),
            rev == lines(log@).reverse(),
            picked@.map_values(|x: String| x@) == rev.take(k as int),
        decreases len - k,
    {
        let ghost before = picked@;
        proof {
            assert(rev.len() == len);
            assert(rev[k as int] == lines(log@)[len - 1 - k]);
            assert(lines(log@)[len - 1 - k] == all@[len - 1 - k]@);
            assert(rev.take(k + 1) =~= rev.take(k as int).push(rev[k as int]));
        }
        picked.push(all[len - 1 - k].clone());
        assert(picked@.map_values(|x: String| x@) =~= rev.take(k + 1));
        k = k + 1;
    }
    let r = join_strings(picked.as_slice(), "\n");
    assert(rev.len() == len);
    assert(rev.take(if n <= rev.len() { n as int } else { rev.len() as int }) =~= rev.take(
        k as int,
    ));
    r
}

} // verus!
