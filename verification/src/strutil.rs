//! String scanning and building helpers shared by the injection protocol,
//! the color parser and the config renderer.

use vstd::prelude::*;

verus! {

/// `pat` occurs in `s` starting at position `i`.
pub open spec fn match_at(s: Seq<char>, pat: Seq<char>, i: int) -> bool {
    &&& 0 <= i
    &&& i + pat.len() <= s.len()
    &&& s.subrange(i, i + pat.len() as int) == pat
}

/// `pat` occurs somewhere in `s`.
pub open spec fn contains_seq(s: Seq<char>, pat: Seq<char>) -> bool {
    exists|i: int| match_at(s, pat, i)
}

/// Position of the leftmost occurrence of `pat` in `s` at or after `from`.
pub open spec fn spec_find(s: Seq<char>, pat: Seq<char>, from: int) -> Option<int>
    decreases s.len() - from,
{
    if from < 0 || from + pat.len() > s.len() {
        None
    } else if pat.len() == 0 || s.subrange(from, from + pat.len() as int) == pat {
        Some(from)
    } else {
        spec_find(s, pat, from + 1)
    }
}

/// What `spec_find` returns is the leftmost match at or after `from`.
pub proof fn lemma_spec_find(s: Seq<char>, pat: Seq<char>, from: int)
    requires
        0 <= from,
    ensures
        match spec_find(s, pat, from) {
            Some(i) => {
                &&& from <= i
                &&& match_at(s, pat, i)
                &&& forall|k: int| from <= k < i ==> !match_at(s, pat, k)
            },
            None => forall|k: int| from <= k ==> !match_at(s, pat, k),
        },
    decreases s.len() - from,
{
    if from + pat.len() > s.len() {
        assert forall|k: int| from <= k implies !match_at(s, pat, k) by {
            if match_at(s, pat, k) {
                assert(k + pat.len() <= s.len());
            }
        }
    } else if pat.len() == 0 || s.subrange(from, from + pat.len() as int) == pat {
        if pat.len() == 0 {
            assert(s.subrange(from, from + pat.len() as int) =~= pat);
        }
        assert(match_at(s, pat, from));
    } else {
        lemma_spec_find(s, pat, from + 1);
        assert(!match_at(s, pat, from));
    }
}

/// A match at `i` with no match before it pins `spec_find` down.
pub proof fn lemma_spec_find_is(s: Seq<char>, pat: Seq<char>, from: int, i: int)
    requires
        0 <= from <= i,
        match_at(s, pat, i),
        forall|k: int| from <= k < i ==> !match_at(s, pat, k),
    ensures
        spec_find(s, pat, from) == Some(i),
{
    lemma_spec_find(s, pat, from);
    match spec_find(s, pat, from) {
        Some(j) => {
            if j < i {
                assert(!match_at(s, pat, j));
            }
            if j > i {
                assert(!match_at(s, pat, i));
            }
        },
        None => {
            assert(!match_at(s, pat, i));
        },
    }
}

/// Leftmost occurrence of `pat` in `s`, by position of the first character.
pub fn find_sub(s: &str, pat: &str) -> (r: Option<usize>)
    ensures
        match r {
            Some(i) => spec_find(s@, pat@, 0) == Some(i as int),
            None => spec_find(s@, pat@, 0) is None,
        },
{
    let n: usize = s.unicode_len();
    let m: usize = pat.unicode_len();
    if m > n {
        proof {
            lemma_spec_find(s@, pat@, 0);
            if spec_find(s@, pat@, 0) is Some {
                let i = spec_find(s@, pat@, 0)->Some_0;
                assert(match_at(s@, pat@, i));
            }
        }
        return None;
    }
    if m == 0 {
        proof {
            assert(s@.subrange(0, 0) =~= pat@);
            lemma_spec_find_is(s@, pat@, 0, 0);
        }
        return Some(0);
    }
    let mut i: usize = 0;
    while i <= n - m
        invariant
            n == s@.len(),
            m == pat@.len(),
            0 < m <= n,
            i <= n - m + 1,
            forall|k: int| 0 <= k < i ==> !match_at(s@, pat@, k),
        decreases n - i,
    {
        let mut j: usize = 0;
        let mut mismatch: bool = false;
        while j < m && !mismatch
            invariant
                n == s@.len(),
                m == pat@.len(),
                i + m <= n,
                j <= m,
                !mismatch ==> forall|jj: int| 0 <= jj < j ==> s@[i + jj] == pat@[jj],
                mismatch ==> !match_at(s@, pat@, i as int),
            decreases m - j + (if mismatch { 0int } else { 1int }),
        {
            if s.get_char(i + j) == pat.get_char(j) {
                j = j + 1;
            } else {
                proof {
                    if match_at(s@, pat@, i as int) {
                        assert(s@.subrange(i as int, i + m as int)[j as int] == pat@[j as int]);
                    }
                }
                mismatch = true;
            }
        }
        if !mismatch {
            proof {
                assert(s@.subrange(i as int, i + m as int) =~= pat@);
                lemma_spec_find_is(s@, pat@, 0, i as int);
            }
            return Some(i);
        }
        i = i + 1;
    }
    proof {
        assert forall|k: int| 0 <= k implies !match_at(s@, pat@, k) by {
            if match_at(s@, pat@, k) {
                assert(k + m <= n);
                assert(k < i);
            }
        }
        lemma_spec_find(s@, pat@, 0);
        if spec_find(s@, pat@, 0) is Some {
            let w = spec_find(s@, pat@, 0)->Some_0;
            assert(match_at(s@, pat@, w));
        }
    }
    None
}

/// Whether `pat` occurs anywhere in `s`.
pub fn contains_sub(s: &str, pat: &str) -> (r: bool)
    ensures
        r == contains_seq(s@, pat@),
{
    proof {
        lemma_spec_find(s@, pat@, 0);
        if contains_seq(s@, pat@) {
            let w = choose|i: int| match_at(s@, pat@, i);
            assert(match_at(s@, pat@, w));
            if spec_find(s@, pat@, 0) is None {
                assert(!match_at(s@, pat@, w));
            }
        }
    }
    match find_sub(s, pat) {
        Some(_) => true,
        None => false,
    }
}

/// Whether `s` begins with `pat`.
pub fn starts_with_sub(s: &str, pat: &str) -> (r: bool)
    ensures
        r == match_at(s@, pat@, 0),
{
    let n: usize = s.unicode_len();
    let m: usize = pat.unicode_len();
    if m > n {
        return false;
    }
    let mut j: usize = 0;
    while j < m
        invariant
            n == s@.len(),
            m == pat@.len(),
            m <= n,
            j <= m,
            forall|jj: int| 0 <= jj < j ==> s@[jj] == pat@[jj],
        decreases m - j,
    {
        if s.get_char(j) != pat.get_char(j) {
            proof {
                if match_at(s@, pat@, 0) {
                    assert(s@.subrange(0, m as int)[j as int] == pat@[j as int]);
                }
            }
            return false;
        }
        j = j + 1;
    }
    proof {
        assert(s@.subrange(0, m as int) =~= pat@);
    }
    true
}

/// Blank characters trimmed away around file content and state tokens.
pub open spec fn is_space(c: char) -> bool {
    c == ' ' || c == '\t' || c == '\n' || c == '\r'
}

/// Executable form of `is_space`.
pub fn space_char(c: char) -> (r: bool)
    ensures
        r == is_space(c),
{
    c == ' ' || c == '\t' || c == '\n' || c == '\r'
}

/// `s` without its leading blank characters.
pub open spec fn spec_trim_start(s: Seq<char>) -> Seq<char>
    decreases s.len(),
{
    if s.len() > 0 && is_space(s[0]) {
        spec_trim_start(s.drop_first())
    } else {
        s
    }
}

/// `s` without its leading newline characters: the blank lines ahead of the
/// first line with content.
pub open spec fn spec_trim_newlines(s: Seq<char>) -> Seq<char>
    decreases s.len(),
{
    if s.len() > 0 && s[0] == '\n' {
        spec_trim_newlines(s.drop_first())
    } else {
        s
    }
}

/// Copy of `s` without its leading blank lines.
pub fn trim_newlines(s: &str) -> (r: String)
    ensures
        r@ == spec_trim_newlines(s@),
{
    let n: usize = s.unicode_len();
    let mut i: usize = 0;
    proof {
        assert(s@.skip(0) =~= s@);
    }
    while i < n && s.get_char(i) == '\n'
        invariant
            n == s@.len(),
            i <= n,
            spec_trim_newlines(s@) == spec_trim_newlines(s@.skip(i as int)),
        decreases n - i,
    {
        proof {
            assert(s@.skip(i as int)[0] == s@[i as int]);
            assert(s@.skip(i as int).drop_first() =~= s@.skip(i + 1));
        }
        i = i + 1;
    }
    proof {
        if i < n {
            assert(s@.skip(i as int)[0] == s@[i as int]);
        }
        assert(spec_trim_newlines(s@.skip(i as int)) == s@.skip(i as int));
        assert(s@.skip(i as int) =~= s@.subrange(i as int, n as int));
    }
    String::from_str(s.substring_char(i, n))
}

/// `s` without its trailing blank characters.
pub open spec fn spec_trim_end(s: Seq<char>) -> Seq<char>
    decreases s.len(),
{
    if s.len() > 0 && is_space(s[s.len() - 1]) {
        spec_trim_end(s.drop_last())
    } else {
        s
    }
}

/// `s` without leading and trailing blanks.
pub open spec fn spec_trim(s: Seq<char>) -> Seq<char> {
    spec_trim_end(spec_trim_start(s))
}

/// Copy of `s` without its leading blank characters.
pub fn trim_start(s: &str) -> (r: String)
    ensures
        r@ == spec_trim_start(s@),
{
    let n: usize = s.unicode_len();
    let mut i: usize = 0;
    proof {
        assert(s@.skip(0) =~= s@);
    }
    while i < n && space_char(s.get_char(i))
        invariant
            n == s@.len(),
            i <= n,
            spec_trim_start(s@) == spec_trim_start(s@.skip(i as int)),
        decreases n - i,
    {
        proof {
            assert(s@.skip(i as int)[0] == s@[i as int]);
            assert(s@.skip(i as int).drop_first() =~= s@.skip(i + 1));
        }
        i = i + 1;
    }
    proof {
        if i < n {
            assert(s@.skip(i as int)[0] == s@[i as int]);
        }
        assert(spec_trim_start(s@.skip(i as int)) == s@.skip(i as int));
        assert(s@.skip(i as int) =~= s@.subrange(i as int, n as int));
    }
    String::from_str(s.substring_char(i, n))
}

/// Copy of `s` without leading and trailing blanks.
pub fn trim(s: &str) -> (r: String)
    ensures
        r@ == spec_trim(s@),
{
    let start = trim_start(s);
    let t: &str = start.as_str();
    let n: usize = t.unicode_len();
    let mut j: usize = n;
    proof {
        assert(t@.take(n as int) =~= t@);
    }
    while j > 0 && space_char(t.get_char(j - 1))
        invariant
            n == t@.len(),
            j <= n,
            spec_trim_end(t@) == spec_trim_end(t@.take(j as int)),
        decreases j,
    {
        proof {
            let p = t@.take(j as int);
            assert(p[p.len() - 1] == t@[j - 1]);
            assert(p.drop_last() =~= t@.take(j - 1));
        }
        j = j - 1;
    }
    proof {
        let p = t@.take(j as int);
        if j > 0 {
            assert(p[p.len() - 1] == t@[j - 1]);
        }
        assert(spec_trim_end(p) == p);
        assert(t@.take(j as int) =~= t@.subrange(0, j as int));
    }
    String::from_str(t.substring_char(0, j))
}

/// Relies on std's `String::push`: appends exactly the one character.
#[verifier::external_body]
pub(crate) fn string_push(s: &mut String, c: char)
    ensures
        final(s)@ == old(s)@.push(c),
{
    s.push(c);
}

/// The decimal digit character for a value below ten.
pub open spec fn spec_digit_char(d: int) -> char {
    if d == 0 { '0' }
    else if d == 1 { '1' }
    else if d == 2 { '2' }
    else if d == 3 { '3' }
    else if d == 4 { '4' }
    else if d == 5 { '5' }
    else if d == 6 { '6' }
    else if d == 7 { '7' }
    else if d == 8 { '8' }
    else { '9' }
}

/// Decimal representation of a non-negative integer, most significant digit
/// first.
pub open spec fn spec_dec(n: int) -> Seq<char>
    decreases n,
{
    if n < 10 {
        seq![spec_digit_char(n)]
    } else {
        spec_dec(n / 10).push(spec_digit_char(n % 10))
    }
}

/// Executable decimal digit character.
pub fn digit_char(d: u8) -> (c: char)
    requires
        d < 10,
    ensures
        c == spec_digit_char(d as int),
{
    match d {
        0 => '0',
        1 => '1',
        2 => '2',
        3 => '3',
        4 => '4',
        5 => '5',
        6 => '6',
        7 => '7',
        8 => '8',
        _ => '9',
    }
}

/// Decimal rendering of a `u64`.
pub fn u64_to_string(n: u64) -> (r: String)
    ensures
        r@ == spec_dec(n as int),
    decreases n,
{
    if n < 10 {
        let mut s = String::new();
        string_push(&mut s, digit_char(n as u8));
        s
    } else {
        let mut s = u64_to_string(n / 10);
        string_push(&mut s, digit_char((n % 10) as u8));
        s
    }
}

/// Decimal representation of a signed integer: a minus sign ahead of the
/// digits of the absolute value.
pub open spec fn spec_dec_signed(n: int) -> Seq<char> {
    if n < 0 {
        seq!['-'] + spec_dec(-n)
    } else {
        spec_dec(n)
    }
}

/// Decimal rendering of an `i32`.
pub fn i32_to_string(n: i32) -> (r: String)
    ensures
        r@ == spec_dec_signed(n as int),
{
    if n < 0 {
        let mut s = String::new();
        string_push(&mut s, '-');
        let m: u64 = if n == i32::MIN { 2147483648u64 } else { (-n) as u64 };
        let digits = u64_to_string(m);
        s.append(digits.as_str());
        assert(s@ =~= spec_dec_signed(n as int));
        s
    } else {
        u64_to_string(n as u64)
    }
}

/// Upper-case form of one ASCII letter; other characters are unchanged.
pub open spec fn spec_upper_char(c: char) -> char {
    if 'a' <= c && c <= 'z' {
        ((c as u8) - 32) as char
    } else {
        c
    }
}

/// Lower-case form of one ASCII letter; other characters are unchanged.
pub open spec fn spec_lower_char(c: char) -> char {
    if 'A' <= c && c <= 'Z' {
        ((c as u8) + 32) as char
    } else {
        c
    }
}

/// `s` with every ASCII letter upper-cased.
pub open spec fn spec_to_upper(s: Seq<char>) -> Seq<char> {
    s.map_values(|c: char| spec_upper_char(c))
}

/// `s` with every ASCII letter lower-cased.
pub open spec fn spec_to_lower(s: Seq<char>) -> Seq<char> {
    s.map_values(|c: char| spec_lower_char(c))
}

/// Copy of `s` with every ASCII letter upper-cased.
pub fn to_ascii_upper(s: &str) -> (r: String)
    ensures
        r@ == spec_to_upper(s@),
{
    let n: usize = s.unicode_len();
    let mut out = String::new();
    let mut i: usize = 0;
    while i < n
        invariant
            n == s@.len(),
            i <= n,
            out@ == s@.take(i as int).map_values(|c: char| spec_upper_char(c)),
        decreases n - i,
    {
        let c = s.get_char(i);
        let u: char = if 'a' <= c && c <= 'z' {
            ((c as u8) - 32) as char
        } else {
            c
        };
        string_push(&mut out, u);
        proof {
            assert(s@.take(i + 1).map_values(|c: char| spec_upper_char(c)) =~= s@.take(
                i as int,
            ).map_values(|c: char| spec_upper_char(c)).push(spec_upper_char(s@[i as int])));
        }
        i = i + 1;
    }
    proof {
        assert(s@.take(n as int) =~= s@);
    }
    out
}

/// Copy of `s` with every ASCII letter lower-cased.
pub fn to_ascii_lower(s: &str) -> (r: String)
    ensures
        r@ == spec_to_lower(s@),
{
    let n: usize = s.unicode_len();
    let mut out = String::new();
    let mut i: usize = 0;
    while i < n
        invariant
            n == s@.len(),
            i <= n,
            out@ == s@.take(i as int).map_values(|c: char| spec_lower_char(c)),
        decreases n - i,
    {
        let c = s.get_char(i);
        let l: char = if 'A' <= c && c <= 'Z' {
            ((c as u8) + 32) as char
        } else {
            c
        };
        string_push(&mut out, l);
        proof {
            assert(s@.take(i + 1).map_values(|c: char| spec_lower_char(c)) =~= s@.take(
                i as int,
            ).map_values(|c: char| spec_lower_char(c)).push(spec_lower_char(s@[i as int])));
        }
        i = i + 1;
    }
    proof {
        assert(s@.take(n as int) =~= s@);
    }
    out
}

/// Whether two string slices are equal once ASCII letters are lower-cased.
pub fn eq_ignore_ascii_case_str(a: &str, b: &str) -> (r: bool)
    ensures
        r == (spec_to_lower(a@) == spec_to_lower(b@)),
{
    let la = to_ascii_lower(a);
    let lb = to_ascii_lower(b);
    str_eq(la.as_str(), lb.as_str())
}

/// The pieces of `s` between occurrences of `sep`: one piece more than
/// there are separators, in order, separators dropped.
pub open spec fn spec_split(s: Seq<char>, sep: char) -> Seq<Seq<char>>
    decreases s.len(),
        via spec_split_dec
{
    match spec_find(s, seq![sep], 0) {
        None => seq![s],
        Some(i) => seq![s.take(i)] + spec_split(s.skip(i + 1), sep),
    }
}

#[via_fn]
proof fn spec_split_dec(s: Seq<char>, sep: char) {
    lemma_spec_find(s, seq![sep], 0);
}

/// Split `s` at every occurrence of `sep`.
pub fn split_char(s: &str, sep: char) -> (r: Vec<String>)
    ensures
        r.deep_view() == spec_split(s@, sep),
    decreases s@.len(),
{
    let n: usize = s.unicode_len();
    let mut i: usize = 0;
    while i < n && s.get_char(i) != sep
        invariant
            n == s@.len(),
            i <= n,
            forall|k: int| 0 <= k < i ==> s@[k] != sep,
        decreases n - i,
    {
        i = i + 1;
    }
    proof {
        assert forall|k: int| 0 <= k < i implies !match_at(s@, seq![sep], k) by {
            if match_at(s@, seq![sep], k) {
                assert(s@.subrange(k, k + seq![sep].len() as int) == seq![sep]);
                assert(s@.subrange(k, k + 1)[0] == s@[k]);
                assert(seq![sep][0] == sep);
                assert(s@[k] == sep);
            }
        }
    }
    if i == n {
        proof {
            assert forall|k: int| 0 <= k implies !match_at(s@, seq![sep], k) by {
                if match_at(s@, seq![sep], k) {
                    assert(k < n);
                }
            }
            lemma_spec_find(s@, seq![sep], 0);
            if spec_find(s@, seq![sep], 0) is Some {
                let w = spec_find(s@, seq![sep], 0)->Some_0;
                assert(!match_at(s@, seq![sep], w));
            }
        }
        let mut r: Vec<String> = Vec::new();
        r.push(String::from_str(s));
        proof {
            assert(r.deep_view() =~= seq![s@]);
        }
        r
    } else {
        proof {
            assert(s@.subrange(i as int, i + 1) =~= seq![sep]);
            assert(match_at(s@, seq![sep], i as int));
            lemma_spec_find_is(s@, seq![sep], 0, i as int);
        }
        let head: &str = s.substring_char(0, i);
        let rest: &str = s.substring_char(i + 1, n);
        proof {
            assert(head@ =~= s@.take(i as int));
            assert(rest@ =~= s@.skip(i + 1));
        }
        let mut r: Vec<String> = Vec::new();
        r.push(String::from_str(head));
        let tail = split_char(rest, sep);
        let tn: usize = tail.len();
        let mut j: usize = 0;
        while j < tn
            invariant
                tn == tail@.len(),
                j <= tn,
                tail.deep_view() == spec_split(rest@, sep),
                r.deep_view() == seq![s@.take(i as int)] + tail.deep_view().take(j as int),
            decreases tn - j,
        {
            let ghost pre = r.deep_view();
            r.push(tail[j].clone());
            proof {
                assert(r.deep_view() =~= pre.push(tail@[j as int]@));
                assert(tail.deep_view()[j as int] == tail@[j as int]@);
                assert(tail.deep_view().take(j + 1) =~= tail.deep_view().take(j as int).push(
                    tail.deep_view()[j as int],
                ));
                assert(r.deep_view() =~= seq![s@.take(i as int)] + tail.deep_view().take(j + 1));
            }
            j = j + 1;
        }
        proof {
            assert(tail.deep_view().take(tn as int) =~= tail.deep_view());
            assert(r.deep_view() =~= spec_split(s@, sep));
        }
        r
    }
}

/// Whether one of the strings holds exactly the characters of `s`.
pub fn contains_string(v: &Vec<String>, s: &str) -> (r: bool)
    ensures
        r == exists|i: int| 0 <= i < v@.len() && #[trigger] v@[i]@ == s@,
{
    let n: usize = v.len();
    let mut i: usize = 0;
    while i < n
        invariant
            n == v@.len(),
            i <= n,
            forall|k: int| 0 <= k < i ==> #[trigger] v@[k]@ != s@,
        decreases n - i,
    {
        if str_eq(v[i].as_str(), s) {
            return true;
        }
        i = i + 1;
    }
    false
}

/// `s` with every copy of the suffix removed, one after the other.
pub open spec fn spec_strip_suffix_all(s: Seq<char>, suffix: Seq<char>) -> Seq<char>
    decreases s.len(),
{
    if suffix.len() > 0 && s.len() >= suffix.len() && s.subrange(
        s.len() - suffix.len(),
        s.len() as int,
    ) == suffix {
        spec_strip_suffix_all(s.take(s.len() - suffix.len()), suffix)
    } else {
        s
    }
}

/// Whether `s` ends with `suffix`.
pub fn ends_with_sub(s: &str, suffix: &str) -> (r: bool)
    ensures
        r == (suffix@.len() <= s@.len() && s@.subrange(
            s@.len() - suffix@.len(),
            s@.len() as int,
        ) == suffix@),
{
    let n: usize = s.unicode_len();
    let m: usize = suffix.unicode_len();
    if m > n {
        return false;
    }
    let tail: &str = s.substring_char(n - m, n);
    proof {
        assert(tail@ =~= s@.subrange(n - m as int, n as int));
    }
    str_eq(tail, suffix)
}

/// Remove every copy of the suffix from the end of `s`, one after the
/// other.
pub fn strip_suffix_all(s: &str, suffix: &str) -> (r: String)
    requires
        suffix@.len() > 0,
    ensures
        r@ == spec_strip_suffix_all(s@, suffix@),
    decreases s@.len(),
{
    let n: usize = s.unicode_len();
    let m: usize = suffix.unicode_len();
    if ends_with_sub(s, suffix) {
        let head: &str = s.substring_char(0, n - m);
        proof {
            assert(head@ =~= s@.take(n - m as int));
        }
        strip_suffix_all(head, suffix)
    } else {
        String::from_str(s)
    }
}

/// Whether two string slices hold the same characters.
pub fn str_eq(a: &str, b: &str) -> (r: bool)
    ensures
        r == (a@ == b@),
{
    let n: usize = a.unicode_len();
    if n != b.unicode_len() {
        return false;
    }
    let mut j: usize = 0;
    while j < n
        invariant
            n == a@.len(),
            n == b@.len(),
            j <= n,
            forall|jj: int| 0 <= jj < j ==> a@[jj] == b@[jj],
        decreases n - j,
    {
        if a.get_char(j) != b.get_char(j) {
            return false;
        }
        j = j + 1;
    }
    proof {
        assert(a@ =~= b@);
    }
    true
}

} // verus!
