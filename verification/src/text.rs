//! Character-level text handling: Unicode whitespace trimming, ASCII case
//! folding, and the fields of a string separated by one character.

use vstd::prelude::*;

verus! {

/// Unicode `White_Space`, the property by which `char::is_whitespace` and
/// `str::trim` decide what whitespace is.
pub open spec fn is_white_space(c: char) -> bool {
    let v = c as u32;
    ||| 0x09 <= v <= 0x0d
    ||| v == 0x20
    ||| v == 0x85
    ||| v == 0xa0
    ||| v == 0x1680
    ||| 0x2000 <= v <= 0x200a
    ||| v == 0x2028
    ||| v == 0x2029
    ||| v == 0x202f
    ||| v == 0x205f
    ||| v == 0x3000
}

/// `s` without its leading whitespace.
pub open spec fn spec_trim_start(s: Seq<char>) -> Seq<char>
    decreases s.len(),
{
    if s.len() > 0 && is_white_space(s[0]) {
        spec_trim_start(s.drop_first())
    } else {
        s
    }
}

/// `s` without its trailing whitespace.
pub open spec fn spec_trim_end(s: Seq<char>) -> Seq<char>
    decreases s.len(),
{
    if s.len() > 0 && is_white_space(s.last()) {
        spec_trim_end(s.drop_last())
    } else {
        s
    }
}

/// `s` without leading and trailing whitespace.
pub open spec fn spec_trim(s: Seq<char>) -> Seq<char> {
    spec_trim_end(spec_trim_start(s))
}

/// A character folded to ASCII lower case, as a code point.
pub open spec fn spec_ascii_fold(c: char) -> u32 {
    if 'A' <= c <= 'Z' {
        (c as u32 + 32) as u32
    } else {
        c as u32
    }
}

/// `a` and `b` are equal once ASCII letters are folded to lower case.
pub open spec fn spec_eq_ignore_ascii_case(a: Seq<char>, b: Seq<char>) -> bool {
    &&& a.len() == b.len()
    &&& forall|k: int| 0 <= k < a.len() ==> spec_ascii_fold(#[trigger] a[k]) == spec_ascii_fold(
        b[k],
    )
}

/// `c` is an ASCII upper-case letter, `A` to `Z`.
pub open spec fn is_ascii_upper(c: char) -> bool {
    0x41 <= c as u32 <= 0x5a
}

/// `c` is an ASCII lower-case letter, `a` to `z`.
pub open spec fn is_ascii_lower(c: char) -> bool {
    0x61 <= c as u32 <= 0x7a
}

/// ASCII case folding only identifies an ASCII letter with its other case:
/// two characters fold alike exactly when they are equal or are the upper
/// and lower case of the same ASCII letter, and folding leaves every
/// character other than `A`..`Z` as it is.
pub proof fn lemma_ascii_fold_identifies_only_cases(c: char, d: char)
    ensures
        (spec_ascii_fold(c) == spec_ascii_fold(d)) <==> (c == d || (is_ascii_upper(c) && d as u32
            == c as u32 + 32) || (is_ascii_upper(d) && c as u32 == d as u32 + 32)),
        !is_ascii_upper(c) ==> spec_ascii_fold(c) == c as u32,
        is_ascii_upper(c) ==> spec_ascii_fold(c) == c as u32 + 32 && is_ascii_lower(
            spec_ascii_fold(c) as char,
        ),
{
}

/// `c` and `d` are the same character, or the two cases of one ASCII letter.
pub open spec fn same_ignoring_ascii_case(c: char, d: char) -> bool {
    ||| c == d
    ||| is_ascii_upper(c) && d as u32 == c as u32 + 32
    ||| is_ascii_upper(d) && c as u32 == d as u32 + 32
}

/// Two strings are equal ignoring ASCII case exactly when they have the same
/// length and, position by position, the same character or the two cases of
/// one ASCII letter.
pub proof fn lemma_eq_ignore_ascii_case_positionwise(a: Seq<char>, b: Seq<char>)
    ensures
        spec_eq_ignore_ascii_case(a, b) <==> (a.len() == b.len() && forall|k: int|
            0 <= k < a.len() ==> same_ignoring_ascii_case(#[trigger] a[k], b[k])),
{
    if spec_eq_ignore_ascii_case(a, b) {
        assert forall|k: int| 0 <= k < a.len() implies same_ignoring_ascii_case(
            #[trigger] a[k],
            b[k],
        ) by {
            assert(spec_ascii_fold(a[k]) == spec_ascii_fold(b[k]));
            lemma_ascii_fold_identifies_only_cases(a[k], b[k]);
        }
    }
    if a.len() == b.len() && forall|k: int|
        0 <= k < a.len() ==> same_ignoring_ascii_case(#[trigger] a[k], b[k]) {
        assert forall|k: int| 0 <= k < a.len() implies spec_ascii_fold(#[trigger] a[k])
            == spec_ascii_fold(b[k]) by {
            assert(same_ignoring_ascii_case(a[k], b[k]));
            lemma_ascii_fold_identifies_only_cases(a[k], b[k]);
        }
    }
}

/// Comparing while ignoring ASCII case equates a string only with itself
/// when the other side holds no ASCII letters.
pub proof fn lemma_eq_ignore_ascii_case_without_letters(a: Seq<char>, b: Seq<char>)
    requires
        forall|k: int| 0 <= k < b.len() ==> !is_ascii_upper(#[trigger] b[k]) && !is_ascii_lower(b[k]),
    ensures
        spec_eq_ignore_ascii_case(a, b) <==> a == b,
{
    if spec_eq_ignore_ascii_case(a, b) {
        assert forall|k: int| 0 <= k < a.len() implies a[k] == b[k] by {
            assert(spec_ascii_fold(a[k]) == spec_ascii_fold(b[k]));
            assert(!is_ascii_upper(b[k]) && !is_ascii_lower(b[k]));
            lemma_ascii_fold_identifies_only_cases(a[k], b[k]);
        }
        assert(a =~= b);
    }
}

/// `s[i..j]` is one of the fields that splitting `s` at every `sep` gives:
/// it holds no separator and is bounded by separators or by the ends of `s`.
pub open spec fn is_field(s: Seq<char>, sep: char, i: int, j: int) -> bool {
    &&& 0 <= i <= j <= s.len()
    &&& (i == 0 || s[i - 1] == sep)
    &&& (j == s.len() || s[j] == sep)
    &&& forall|k: int| i <= k < j ==> s[k] != sep
}

/// Some field of `s` split at `sep` equals `target` up to ASCII case.
pub open spec fn spec_has_field_ignore_ascii_case(s: Seq<char>, sep: char, target: Seq<char>) -> bool {
    exists|i: int, j: int|
        #[trigger] is_field(s, sep, i, j) && spec_eq_ignore_ascii_case(s.subrange(i, j), target)
}

/// `s[i..j]` is the last non-empty field of `s` split at `sep`.
pub open spec fn is_last_nonempty_field(s: Seq<char>, sep: char, i: int, j: int) -> bool {
    &&& is_field(s, sep, i, j)
    &&& i < j
    &&& forall|i2: int, j2: int| #[trigger] is_field(s, sep, i2, j2) && i2 < j2 ==> j2 <= j
}

/// The last non-empty field of `s` split at `sep`, or the empty sequence when
/// every field is empty.
pub open spec fn spec_last_nonempty_field(s: Seq<char>, sep: char) -> Seq<char> {
    if exists|i: int, j: int| is_last_nonempty_field(s, sep, i, j) {
        let (i, j) = choose|i: int, j: int| is_last_nonempty_field(s, sep, i, j);
        s.subrange(i, j)
    } else {
        Seq::empty()
    }
}

/// A field is determined by where it ends.
pub proof fn lemma_field_start_unique(s: Seq<char>, sep: char, i: int, i2: int, j: int)
    requires
        is_field(s, sep, i, j),
        is_field(s, sep, i2, j),
    ensures
        i == i2,
{
    if i < i2 {
        assert(s[i2 - 1] == sep);
    } else if i2 < i {
        assert(s[i - 1] == sep);
    }
}

proof fn lemma_trim_start_no_leading(s: Seq<char>)
    ensures
        spec_trim_start(s).len() == 0 || !is_white_space(spec_trim_start(s)[0]),
    decreases s.len(),
{
    if s.len() > 0 && is_white_space(s[0]) {
        lemma_trim_start_no_leading(s.drop_first());
    }
}

proof fn lemma_trim_end_no_trailing(s: Seq<char>)
    ensures
        spec_trim_end(s).len() == 0 || !is_white_space(spec_trim_end(s).last()),
    decreases s.len(),
{
    if s.len() > 0 && is_white_space(s.last()) {
        lemma_trim_end_no_trailing(s.drop_last());
    }
}

proof fn lemma_trim_end_is_prefix(s: Seq<char>)
    ensures
        spec_trim_end(s).len() <= s.len(),
        spec_trim_end(s) == s.subrange(0, spec_trim_end(s).len() as int),
    decreases s.len(),
{
    if s.len() > 0 && is_white_space(s.last()) {
        lemma_trim_end_is_prefix(s.drop_last());
        assert(s.drop_last().subrange(0, spec_trim_end(s).len() as int) =~= s.subrange(
            0,
            spec_trim_end(s).len() as int,
        ));
    } else {
        assert(s.subrange(0, s.len() as int) =~= s);
    }
}

/// Trimming is idempotent: a trimmed string has nothing left to trim.
pub proof fn lemma_trim_idempotent(s: Seq<char>)
    ensures
        spec_trim(spec_trim(s)) == spec_trim(s),
{
    let a = spec_trim_start(s);
    let b = spec_trim_end(a);
    lemma_trim_start_no_leading(s);
    lemma_trim_end_is_prefix(a);
    lemma_trim_end_no_trailing(a);
    if b.len() > 0 {
        assert(b[0] == a[0]);
    }
    assert(spec_trim_start(b) == b);
    assert(spec_trim_end(b) == b);
}

proof fn lemma_field_start_before(s: Seq<char>, sep: char, j: int) -> (i: int)
    requires
        0 < j <= s.len(),
        s[j - 1] != sep,
    ensures
        0 <= i < j,
        i == 0 || s[i - 1] == sep,
        forall|k: int| i <= k < j ==> s[k] != sep,
    decreases j,
{
    if j - 1 == 0 || s[j - 2] == sep {
        j - 1
    } else {
        lemma_field_start_before(s, sep, j - 1)
    }
}

proof fn lemma_last_non_separator(s: Seq<char>, sep: char, k: int) -> (j: int)
    requires
        0 <= k < s.len(),
        s[k] != sep,
    ensures
        k < j <= s.len(),
        s[j - 1] != sep,
        forall|m: int| j <= m < s.len() ==> s[m] == sep,
    decreases s.len() - k,
{
    if exists|m: int| k < m < s.len() && s[m] != sep {
        let m = choose|m: int| k < m < s.len() && s[m] != sep;
        lemma_last_non_separator(s, sep, m)
    } else {
        k + 1
    }
}

/// The last non-empty field holds no separator, and it is empty exactly
/// when every character of `s` is the separator.
pub proof fn lemma_last_nonempty_field_shape(s: Seq<char>, sep: char)
    ensures
        !spec_last_nonempty_field(s, sep).contains(sep),
        spec_last_nonempty_field(s, sep).len() == 0 <==> forall|k: int|
            0 <= k < s.len() ==> s[k] == sep,
{
    if exists|i: int, j: int| is_last_nonempty_field(s, sep, i, j) {
        let (i, j) = choose|i: int, j: int| is_last_nonempty_field(s, sep, i, j);
        let r = s.subrange(i, j);
        assert(r[0] == s[i]);
        assert forall|k: int| 0 <= k < r.len() implies r[k] != sep by {
            assert(r[k] == s[i + k]);
        }
    } else {
        assert forall|k: int| 0 <= k < s.len() implies s[k] == sep by {
            if s[k] != sep {
                let j = lemma_last_non_separator(s, sep, k);
                let i = lemma_field_start_before(s, sep, j);
                assert(is_field(s, sep, i, j));
                assert forall|i2: int, j2: int| #[trigger]
                    is_field(s, sep, i2, j2) && i2 < j2 implies j2 <= j by {
                    assert(s[i2] != sep);
                    if j2 > j {
                        assert(s[j] == sep);
                    }
                }
                assert(is_last_nonempty_field(s, sep, i, j));
            }
        }
    }
}

/// Calls `String::push`. Trusted: afterwards the string is the old one with
/// `c` appended.
#[verifier::external_body]
fn push_char(s: &mut String, c: char)
    ensures
        final(s)@ == old(s)@.push(c),
{
    s.push(c);
}

/// Collects the characters of a string slice.
pub fn chars_of(s: &str) -> (v: Vec<char>)
    ensures
        v@ == s@,
{
    let mut v: Vec<char> = Vec::new();
    for c in it: s.chars()
        invariant
            v@ == it.seq().take(it.index()),
    {
        v.push(c);
    }
    v
}

/// The characters `v[from..to]` as a `String`.
pub fn string_from_range(v: &Vec<char>, from: usize, to: usize) -> (r: String)
    requires
        from <= to <= v.len(),
    ensures
        r@ == v@.subrange(from as int, to as int),
{
    let mut r = String::new();
    let mut k: usize = from;
    while k < to
        invariant
            from <= k <= to <= v.len(),
            r@ == v@.subrange(from as int, k as int),
        decreases to - k,
    {
        push_char(&mut r, v[k]);
        assert(v@.subrange(from as int, k + 1) =~= v@.subrange(from as int, k as int).push(v@[k as int]));
        k += 1;
    }
    r
}

/// Whether `c` is Unicode whitespace.
pub fn is_white_space_char(c: char) -> (r: bool)
    ensures
        r == is_white_space(c),
{
    let v: u32 = c as u32;
    (0x09 <= v && v <= 0x0d) || v == 0x20 || v == 0x85 || v == 0xa0 || v == 0x1680 || (0x2000
        <= v && v <= 0x200a) || v == 0x2028 || v == 0x2029 || v == 0x202f || v == 0x205f || v
        == 0x3000
}

/// The string without leading and trailing Unicode whitespace.
pub fn trim_whitespace(s: &str) -> (r: String)
    ensures
        r@ == spec_trim(s@),
{
    let v: Vec<char> = chars_of(s);
    let n: usize = v.len();
    let mut i: usize = 0;
    assert(v@.subrange(0, n as int) =~= v@);
    while i < n && is_white_space_char(v[i])
        invariant
            i <= n == v.len(),
            spec_trim_start(v@) == spec_trim_start(v@.subrange(i as int, n as int)),
        decreases n - i,
    {
        assert(v@.subrange(i as int, n as int).drop_first() =~= v@.subrange(i + 1, n as int));
        i += 1;
    }
    let mut j: usize = n;
    while j > i && is_white_space_char(v[j - 1])
        invariant
            i <= j <= n == v.len(),
            spec_trim_end(v@.subrange(i as int, n as int)) == spec_trim_end(
                v@.subrange(i as int, j as int),
            ),
        decreases j - i,
    {
        assert(v@.subrange(i as int, j as int).drop_last() =~= v@.subrange(i as int, j - 1));
        j -= 1;
    }
    string_from_range(&v, i, j)
}

/// The code point of `c` folded to ASCII lower case.
fn ascii_fold(c: char) -> (r: u32)
    ensures
        r == spec_ascii_fold(c),
{
    let v: u32 = c as u32;
    if 0x41 <= v && v <= 0x5a {
        v + 32
    } else {
        v
    }
}

/// Whether `s[from..to]` equals `target` up to ASCII case.
pub fn range_eq_ignore_ascii_case(s: &Vec<char>, from: usize, to: usize, target: &Vec<char>) -> (r:
    bool)
    requires
        from <= to <= s.len(),
    ensures
        r == spec_eq_ignore_ascii_case(s@.subrange(from as int, to as int), target@),
{
    if to - from != target.len() {
        return false;
    }
    let mut k: usize = 0;
    while k < target.len()
        invariant
            from <= to <= s.len(),
            to - from == target.len(),
            k <= target.len(),
            forall|m: int|
                0 <= m < k ==> spec_ascii_fold(s@[from + m]) == spec_ascii_fold(target@[m]),
        decreases target.len() - k,
    {
        if ascii_fold(s[from + k]) != ascii_fold(target[k]) {
            assert(s@.subrange(from as int, to as int)[k as int] == s@[from + k]);
            return false;
        }
        k += 1;
    }
    assert forall|m: int| 0 <= m < target.len() implies spec_ascii_fold(
        #[trigger] s@.subrange(from as int, to as int)[m],
    ) == spec_ascii_fold(target@[m]) by {
        assert(s@.subrange(from as int, to as int)[m] == s@[from + m]);
    }
    true
}

/// Whether some field of `s` split at `sep` equals `target` up to ASCII case.
pub fn has_field_ignore_ascii_case(s: &Vec<char>, sep: char, target: &Vec<char>) -> (r: bool)
    ensures
        r == spec_has_field_ignore_ascii_case(s@, sep, target@),
{
    let n: usize = s.len();
    let mut start: usize = 0;
    let mut k: usize = 0;
    loop
        invariant
            start <= k <= n == s.len(),
            start == 0 || s@[start - 1] == sep,
            forall|m: int| start <= m < k ==> s@[m] != sep,
            forall|i: int, j: int|
                #[trigger] is_field(s@, sep, i, j) && j < k ==> !spec_eq_ignore_ascii_case(
                    s@.subrange(i, j),
                    target@,
                ),
        decreases n - k,
    {
        if k == n || s[k] == sep {
            assert(is_field(s@, sep, start as int, k as int));
            if range_eq_ignore_ascii_case(s, start, k, target) {
                return true;
            }
            assert forall|i: int, j: int|
                #[trigger] is_field(s@, sep, i, j) && j < k + 1 implies !spec_eq_ignore_ascii_case(
                s@.subrange(i, j),
                target@,
            ) by {
                if j == k {
                    lemma_field_start_unique(s@, sep, i, start as int, j);
                }
            }
            if k == n {
                assert forall|i: int, j: int| #[trigger]
                    is_field(s@, sep, i, j) implies !spec_eq_ignore_ascii_case(
                    s@.subrange(i, j),
                    target@,
                ) by {
                    assert(j < k + 1);
                }
                return false;
            }
            start = k + 1;
        }
        k += 1;
    }
}

/// The bounds `(i, j)` of the last non-empty field of `s` split at `sep`, or
/// an empty range when every field is empty.
pub fn last_nonempty_field(s: &Vec<char>, sep: char) -> (r: (usize, usize))
    ensures
        r.0 <= r.1 <= s.len(),
        (exists|i: int, j: int| is_last_nonempty_field(s@, sep, i, j)) ==> is_last_nonempty_field(
            s@,
            sep,
            r.0 as int,
            r.1 as int,
        ),
        !(exists|i: int, j: int| is_last_nonempty_field(s@, sep, i, j)) ==> r.0 == r.1,
{
    let n: usize = s.len();
    let mut j: usize = n;
    while j > 0 && s[j - 1] == sep
        invariant
            j <= n == s.len(),
            forall|m: int| j <= m < n ==> s@[m] == sep,
        decreases j,
    {
        j -= 1;
    }
    if j == 0 {
        assert forall|i2: int, j2: int| !is_last_nonempty_field(s@, sep, i2, j2) by {
            if is_last_nonempty_field(s@, sep, i2, j2) {
                assert(s@[i2] != sep);
            }
        }
        return (0, 0);
    }
    let mut i: usize = j - 1;
    while i > 0 && s[i - 1] != sep
        invariant
            i < j <= n == s.len(),
            forall|m: int| i <= m < j ==> s@[m] != sep,
        decreases i,
    {
        i -= 1;
    }
    assert(is_field(s@, sep, i as int, j as int));
    assert forall|i2: int, j2: int| #[trigger] is_field(s@, sep, i2, j2) && i2 < j2 implies j2
        <= j by {
        assert(s@[i2] != sep);
        if j2 > j {
            assert(s@[j as int] == sep);
        }
    }
    assert(is_last_nonempty_field(s@, sep, i as int, j as int));
    (i, j)
}

/// The last non-empty field of `s` split at `sep`, as a `String`; empty when
/// every field is empty.
pub fn last_nonempty_field_string(s: &Vec<char>, sep: char) -> (r: String)
    ensures
        r@ == spec_last_nonempty_field(s@, sep),
{
    let (i, j) = last_nonempty_field(s, sep);
    let r = string_from_range(s, i, j);
    proof {
        if exists|i: int, j: int| is_last_nonempty_field(s@, sep, i, j) {
            let (ci, cj) = choose|ci: int, cj: int| is_last_nonempty_field(s@, sep, ci, cj);
            assert(is_field(s@, sep, ci, cj));
            assert(is_field(s@, sep, i as int, j as int));
            assert(cj <= j && j <= cj);
            lemma_field_start_unique(s@, sep, ci, i as int, j as int);
        }
    }
    r
}

} // verus!
