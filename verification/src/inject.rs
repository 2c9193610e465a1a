//! The config-file mutation protocol: an import line is wrapped in a pair of
//! fixed marker comments and prepended to a third-party config file, and the
//! marked block (or, failing that, the bare line) can be removed again.
//! The functions here work on file content as text; reading and writing the
//! file itself is the caller's concern.

use vstd::prelude::*;
use crate::strutil::{
    contains_seq, match_at, spec_find, spec_trim_newlines,
    lemma_spec_find, lemma_spec_find_is,
    contains_sub, find_sub, string_push, trim_newlines,
};

verus! {

/// Characters of the comment that opens a managed block.
pub open spec fn marker_start() -> Seq<char> {
    "# >>> lmtt managed block - do not edit manually >>>"@
}

/// Characters of the comment that closes a managed block.
pub open spec fn marker_end() -> Seq<char> {
    "# <<< lmtt managed block <<<"@
}

/// The comment that opens a managed block.
pub fn marker_start_str() -> (r: &'static str)
    ensures
        r@ == marker_start(),
{
    "# >>> lmtt managed block - do not edit manually >>>"
}

/// The comment that closes a managed block.
pub fn marker_end_str() -> (r: &'static str)
    ensures
        r@ == marker_end(),
{
    "# <<< lmtt managed block <<<"
}

/// Lengths and key characters of the two markers.
pub proof fn lemma_marker_facts()
    ensures
        marker_start().len() == 51,
        marker_end().len() == 28,
        forall|i: int| 0 <= i < marker_start().len() ==> marker_start()[i] != '<',
        forall|i: int| 0 <= i < marker_end().len() ==> marker_end()[i] != '\n',
        marker_end()[2] == '<',
{
    reveal_strlit("# >>> lmtt managed block - do not edit manually >>>");
    reveal_strlit("# <<< lmtt managed block <<<");
}

/// Content of the file after injection: unchanged when the import line is
/// already present, else the marked block ahead of the original content.
pub open spec fn spec_inject(c: Seq<char>, l: Seq<char>) -> Seq<char> {
    if contains_seq(c, l) {
        c
    } else {
        marker_start() + seq!['\n'] + l + seq!['\n'] + marker_end() + seq!['\n', '\n'] + c
    }
}

/// Inject `line` into file content `content` under the marker comments.
/// A file that already holds the line verbatim comes back unchanged.
pub fn inject_content(content: &str, line: &str) -> (r: String)
    ensures
        r@ == spec_inject(content@, line@),
{
    if contains_sub(content, line) {
        return String::from_str(content);
    }
    let mut out = String::from_str(marker_start_str());
    string_push(&mut out, '\n');
    out.append(line);
    string_push(&mut out, '\n');
    out.append(marker_end_str());
    string_push(&mut out, '\n');
    string_push(&mut out, '\n');
    out.append(content);
    proof {
        assert(out@ =~= spec_inject(content@, line@));
    }
    out
}

/// A match in the suffix `s.skip(from)` is a match in `s`, shifted.
pub proof fn lemma_match_at_skip(s: Seq<char>, pat: Seq<char>, from: int, j: int)
    requires
        0 <= from <= s.len(),
        0 <= j,
    ensures
        match_at(s.skip(from), pat, j) == match_at(s, pat, from + j),
{
    if j + pat.len() <= s.len() - from {
        assert(s.skip(from).subrange(j, j + pat.len() as int) =~= s.subrange(
            from + j,
            from + j + pat.len() as int,
        ));
    }
}

/// Searching from `from` is searching the suffix that starts there.
pub proof fn lemma_spec_find_skip(s: Seq<char>, pat: Seq<char>, from: int)
    requires
        0 <= from <= s.len(),
    ensures
        spec_find(s, pat, from) == match spec_find(s.skip(from), pat, 0) {
            Some(j) => Some(from + j),
            None => None::<int>,
        },
{
    lemma_spec_find(s.skip(from), pat, 0);
    match spec_find(s.skip(from), pat, 0) {
        Some(j) => {
            lemma_match_at_skip(s, pat, from, j);
            assert forall|k: int| from <= k < from + j implies !match_at(s, pat, k) by {
                lemma_match_at_skip(s, pat, from, k - from);
            }
            lemma_spec_find_is(s, pat, from, from + j);
        },
        None => {
            lemma_spec_find(s, pat, from);
            if spec_find(s, pat, from) is Some {
                let i = spec_find(s, pat, from)->Some_0;
                lemma_match_at_skip(s, pat, from, i - from);
            }
        },
    }
}

/// The fallback of removal: when no marker pair is found but the import line
/// occurs, the first `line + newline` occurrence is removed as a single
/// line; otherwise the content is unchanged.
pub open spec fn spec_remove_fallback(c: Seq<char>, l: Seq<char>) -> Seq<char> {
    if contains_seq(c, l) {
        match spec_find(c, l.push('\n'), 0) {
            Some(i) => c.take(i) + c.skip(i + l.len() + 1),
            None => c,
        }
    } else {
        c
    }
}

/// Content of the file after removal: the first marker-delimited block is
/// cut out and the blank lines the cut leaves at the front are trimmed;
/// without a complete marker pair the bare import line is removed instead.
pub open spec fn spec_remove(c: Seq<char>, l: Seq<char>) -> Seq<char> {
    match spec_find(c, marker_start(), 0) {
        Some(s_i) => match spec_find(c, marker_end(), s_i) {
            Some(e_i) => spec_trim_newlines(
                c.take(s_i) + c.skip(e_i + marker_end().len() as int),
            ),
            None => spec_remove_fallback(c, l),
        },
        None => spec_remove_fallback(c, l),
    }
}

/// Remove the managed block (or, failing that, the bare import line) from
/// file content `content`.
pub fn remove_content(content: &str, line: &str) -> (r: String)
    ensures
        r@ == spec_remove(content@, line@),
{
    let n: usize = content.unicode_len();
    let ms = marker_start_str();
    let me = marker_end_str();
    if let Some(start) = find_sub(content, ms) {
        proof {
            lemma_spec_find(content@, ms@, 0);
        }
        let rest: &str = content.substring_char(start, n);
        proof {
            assert(rest@ =~= content@.skip(start as int));
            lemma_spec_find_skip(content@, me@, start as int);
        }
        if let Some(rel) = find_sub(rest, me) {
            proof {
                lemma_spec_find(rest@, me@, 0);
            }
            let end: usize = start + rel + me.unicode_len();
            let mut kept = String::from_str(content.substring_char(0, start));
            kept.append(content.substring_char(end, n));
            let r = trim_newlines(kept.as_str());
            proof {
                let e_i = spec_find(content@, marker_end(), start as int)->Some_0;
                assert(kept@ =~= content@.take(start as int) + content@.skip(
                    e_i + marker_end().len() as int,
                ));
            }
            return r;
        }
    }
    proof {
        lemma_spec_find(content@, line@, 0);
        if contains_seq(content@, line@) {
            let w = choose|i: int| match_at(content@, line@, i);
            assert(match_at(content@, line@, w));
            if spec_find(content@, line@, 0) is None {
                assert(!match_at(content@, line@, w));
            }
        }
    }
    if contains_sub(content, line) {
        let mut pat = String::from_str(line);
        string_push(&mut pat, '\n');
        proof {
            assert(pat@ =~= line@.push('\n'));
        }
        match find_sub(content, pat.as_str()) {
            Some(i) => {
                proof {
                    lemma_spec_find(content@, pat@, 0);
                }
                let m: usize = pat.as_str().unicode_len();
                let mut out = String::from_str(content.substring_char(0, i));
                out.append(content.substring_char(i + m, n));
                proof {
                    assert(out@ =~= content@.take(i as int) + content@.skip(
                        i + line@.len() + 1,
                    ));
                }
                out
            },
            None => String::from_str(content),
        }
    } else {
        String::from_str(content)
    }
}

/// Injecting a line a second time changes nothing: the second call sees the
/// line that the first call put there.
pub proof fn lemma_inject_idempotent(c: Seq<char>, l: Seq<char>)
    ensures
        spec_inject(spec_inject(c, l), l) == spec_inject(c, l),
{
    if !contains_seq(c, l) {
        let inj = spec_inject(c, l);
        let p: int = marker_start().len() as int + 1;
        assert(inj.subrange(p, p + l.len() as int) =~= l);
        assert(match_at(inj, l, p));
    }
}

/// Removal undoes injection: from content with no marker comments and no
/// import line, injecting a single-line import and then removing it gives
/// the original content back byte for byte, provided the content does not
/// itself begin with a blank line (the removal trims the blank lines the
/// cut leaves at the front, and cannot tell those from the content's own).
pub proof fn lemma_inject_remove_inverse(c: Seq<char>, l: Seq<char>)
    requires
        !contains_seq(c, l),
        forall|i: int| 0 <= i < l.len() ==> l[i] != '\n',
        !contains_seq(l, marker_end()),
        c.len() == 0 || c[0] != '\n',
    ensures
        spec_remove(spec_inject(c, l), l) == c,
{
    lemma_marker_facts();
    let ms = marker_start();
    let me = marker_end();
    let inj = spec_inject(c, l);
    let nl1: int = 52 + l.len() as int;
    let p2: int = nl1 + 1;

    assert forall|i: int| 0 <= i < 51 implies inj[i] == ms[i] by {}
    assert(inj[51] == '\n');
    assert forall|i: int| 0 <= i < l.len() implies inj[52 + i] == l[i] by {}
    assert(inj[nl1] == '\n');

    assert(inj.subrange(0, 51) =~= ms);
    assert(match_at(inj, ms, 0));
    lemma_spec_find_is(inj, ms, 0, 0);

    assert(inj.subrange(p2, p2 + 28) =~= me);
    assert(match_at(inj, me, p2));

    assert forall|k: int| 0 <= k < p2 implies !match_at(inj, me, k) by {
        if match_at(inj, me, k) {
            let w = inj.subrange(k, k + 28);
            if k + 28 <= 51 {
                assert(w[2] == inj[k + 2]);
                assert(inj[k + 2] == ms[k + 2]);
                assert(w[2] == me[2]);
            } else if k <= 51 {
                assert(w[51 - k] == inj[51]);
                assert(w[51 - k] == me[51 - k]);
            } else if k + 28 <= 52 + l.len() {
                assert(l.subrange(k - 52, k - 52 + 28) =~= w);
                assert(match_at(l, me, k - 52));
            } else {
                assert(w[nl1 - k] == inj[nl1]);
                assert(w[nl1 - k] == me[nl1 - k]);
            }
        }
    }
    lemma_spec_find_is(inj, me, 0, p2);

    let kept = inj.take(0) + inj.skip(p2 + 28);
    let k1 = seq!['\n', '\n'] + c;
    let k2 = seq!['\n'] + c;
    assert(kept =~= k1);
    assert(k1[0] == '\n');
    assert(k1.drop_first() =~= k2);
    assert(k2[0] == '\n');
    assert(k2.drop_first() =~= c);
    assert(spec_trim_newlines(k1) == spec_trim_newlines(k2));
    assert(spec_trim_newlines(k2) == spec_trim_newlines(c));
    assert(spec_trim_newlines(c) == c);
}

} // verus!
