//! Character-level rules that media types are read by.

use vstd::prelude::*;

verus! {

/// The characters with the Unicode `White_Space` property.
pub open spec fn is_white_space(c: char) -> bool {
    ||| '\u{9}' <= c <= '\u{d}'
    ||| c == ' '
    ||| c == '\u{85}'
    ||| c == '\u{a0}'
    ||| c == '\u{1680}'
    ||| '\u{2000}' <= c <= '\u{200a}'
    ||| c == '\u{2028}'
    ||| c == '\u{2029}'
    ||| c == '\u{202f}'
    ||| c == '\u{205f}'
    ||| c == '\u{3000}'
}

/// An ASCII upper-case letter mapped to its lower case; every other character
/// to itself.
pub open spec fn ascii_lower(c: char) -> char {
    if 'A' <= c <= 'Z' {
        ((c as u32) + 32) as char
    } else {
        c
    }
}

/// Whether `c` is whitespace.
pub fn is_whitespace(c: char) -> (r: bool)
    ensures
        r == is_white_space(c),
{
    ('\u{9}' <= c && c <= '\u{d}') || c == ' ' || c == '\u{85}' || c == '\u{a0}' || c == '\u{1680}'
        || ('\u{2000}' <= c && c <= '\u{200a}') || c == '\u{2028}' || c == '\u{2029}' || c
        == '\u{202f}' || c == '\u{205f}' || c == '\u{3000}'
}

/// `c` with an ASCII upper-case letter lowered.
pub fn to_ascii_lower(c: char) -> (r: char)
    ensures
        r == ascii_lower(c),
{
    if 'A' <= c && c <= 'Z' {
        let b: u8 = c as u8;
        assert(b == c as u32);
        (b + 32) as char
    } else {
        c
    }
}

} // verus!

verus! {

/// The text before the first `;`, or all of it when there is none.
pub open spec fn before_parameters(s: Seq<char>) -> Seq<char>
    decreases s.len(),
{
    if s.len() == 0 || s[0] == ';' {
        Seq::empty()
    } else {
        seq![s[0]] + before_parameters(s.drop_first())
    }
}

/// `s` without its leading whitespace.
pub open spec fn trim_start(s: Seq<char>) -> Seq<char>
    decreases s.len(),
{
    if s.len() > 0 && is_white_space(s[0]) {
        trim_start(s.drop_first())
    } else {
        s
    }
}

/// `s` without its trailing whitespace.
pub open spec fn trim_end(s: Seq<char>) -> Seq<char>
    decreases s.len(),
{
    if s.len() > 0 && is_white_space(s.last()) {
        trim_end(s.drop_last())
    } else {
        s
    }
}

/// `s` without leading or trailing whitespace.
pub open spec fn trim(s: Seq<char>) -> Seq<char> {
    trim_end(trim_start(s))
}

/// `s` with every ASCII upper-case letter lowered.
pub open spec fn lower(s: Seq<char>) -> Seq<char> {
    s.map_values(|c: char| ascii_lower(c))
}

proof fn lemma_before_parameters(s: Seq<char>, k: int)
    requires
        0 <= k <= s.len(),
        forall|j: int| 0 <= j < k ==> s[j] != ';',
        k == s.len() || s[k] == ';',
    ensures
        before_parameters(s) == s.take(k),
    decreases k,
{
    if k == 0 {
        assert(s.take(0) =~= Seq::<char>::empty());
    } else {
        let r = s.drop_first();
        assert forall|j: int| 0 <= j < k - 1 implies r[j] != ';' by {
            assert(r[j] == s[j + 1]);
        }
        lemma_before_parameters(r, k - 1);
        assert(s.take(k) =~= seq![s[0]] + r.take(k - 1));
    }
}

proof fn lemma_trim_start(s: Seq<char>, a: int)
    requires
        0 <= a <= s.len(),
        forall|j: int| 0 <= j < a ==> is_white_space(#[trigger] s[j]),
        a == s.len() || !is_white_space(s[a]),
    ensures
        trim_start(s) == s.skip(a),
    decreases a,
{
    if a == 0 {
        assert(s.skip(0) =~= s);
    } else {
        let r = s.drop_first();
        assert(is_white_space(s[0]));
        assert forall|j: int| 0 <= j < a - 1 implies is_white_space(#[trigger] r[j]) by {
            assert(r[j] == s[j + 1]);
        }
        if a < s.len() {
            assert(r[a - 1] == s[a]);
        }
        lemma_trim_start(r, a - 1);
        assert(r.skip(a - 1) =~= s.skip(a));
    }
}

proof fn lemma_trim_end(s: Seq<char>, b: int)
    requires
        0 <= b <= s.len(),
        forall|j: int| b <= j < s.len() ==> is_white_space(#[trigger] s[j]),
        b == 0 || !is_white_space(s[b - 1]),
    ensures
        trim_end(s) == s.take(b),
    decreases s.len() - b,
{
    if b == s.len() {
        assert(s.take(b) =~= s);
    } else {
        let r = s.drop_last();
        assert(is_white_space(s[s.len() - 1]));
        assert forall|j: int| b <= j < r.len() implies is_white_space(#[trigger] r[j]) by {
            assert(r[j] == s[j]);
        }
        if b > 0 {
            assert(r[b - 1] == s[b - 1]);
        }
        lemma_trim_end(r, b);
        assert(r.take(b) =~= s.take(b));
    }
}

/// The characters of `s`, in order.
pub fn chars_of(s: &str) -> (v: Vec<char>)
    ensures
        v@ == s@,
{
    broadcast use vstd::string::group_string_axioms;

    let mut v: Vec<char> = Vec::new();
    for c in it: s.chars()
        invariant
            it.seq() == s@,
            v@ == it.seq().take(it.index()),
    {
        v.push(c);
    }
    assert(s@.take(s@.len() as int) =~= s@);
    v
}

/// `String::push`: appends `c` at the end of `s`.
#[verifier::external_body]
fn push_char(s: &mut String, c: char)
    ensures
        final(s)@ == old(s)@.push(c),
{
    s.push(c)
}

/// A media type without its parameters and surrounding whitespace, in lower case.
pub open spec fn essence(m: Seq<char>) -> Seq<char> {
    lower(trim(before_parameters(m)))
}

/// `m` without its parameters and surrounding whitespace, lower-cased.
pub fn media_type_essence(m: &str) -> (r: String)
    ensures
        r@ == essence(m@),
{
    let v = chars_of(m);
    let n = v.len();
    // The end of the first segment.
    let mut k: usize = 0;
    while k < n && v[k] != ';'
        invariant
            k <= n == v@.len(),
            forall|j: int| 0 <= j < k ==> v@[j] != ';',
        decreases n - k,
    {
        k = k + 1;
    }
    // The first character that is not whitespace.
    let mut a: usize = 0;
    while a < k && is_whitespace(v[a])
        invariant
            a <= k <= n == v@.len(),
            forall|j: int| 0 <= j < a ==> is_white_space(#[trigger] v@[j]),
        decreases k - a,
    {
        a = a + 1;
    }
    // One past the last character that is not whitespace.
    let mut b: usize = k;
    while b > a && is_whitespace(v[b - 1])
        invariant
            a <= b <= k <= n == v@.len(),
            forall|j: int| b <= j < k ==> is_white_space(#[trigger] v@[j]),
        decreases b - a,
    {
        b = b - 1;
    }
    let mut out = String::new();
    let mut i: usize = a;
    while i < b
        invariant
            a <= i <= b <= n == v@.len(),
            out@ == lower(v@.subrange(a as int, i as int)),
        decreases b - i,
    {
        push_char(&mut out, to_ascii_lower(v[i]));
        assert(lower(v@.subrange(a as int, i + 1)) =~= lower(v@.subrange(a as int, i as int)).push(
            ascii_lower(v@[i as int]),
        ));
        i = i + 1;
    }
    proof {
        let s = v@;
        lemma_before_parameters(s, k as int);
        let t = s.take(k as int);
        assert forall|j: int| 0 <= j < a implies is_white_space(#[trigger] t[j]) by {
            assert(t[j] == s[j]);
        }
        if a < k {
            assert(t[a as int] == s[a as int]);
        }
        lemma_trim_start(t, a as int);
        let u = t.skip(a as int);
        assert forall|j: int| b - a <= j < u.len() implies is_white_space(#[trigger] u[j]) by {
            assert(u[j] == s[j + a]);
        }
        if b > a {
            assert(u[b - a - 1] == s[b - 1]);
        } else {
            // Every character of the segment is whitespace.
            assert(b == a);
        }
        lemma_trim_end(u, b - a);
        assert(u.take(b - a) =~= s.subrange(a as int, b as int));
    }
    out
}

/// The decimal digit for `d`.
pub open spec fn digit(d: nat) -> char {
    ((d + 48) as u32) as char
}

/// The decimal representation of `n`, most significant digit first.
pub open spec fn decimal(n: nat) -> Seq<char>
    decreases n,
{
    if n < 10 {
        seq![digit(n)]
    } else {
        decimal(n / 10).push(digit(n % 10))
    }
}

/// Appends the decimal representation of `n` to `s`.
pub fn push_decimal(s: &mut String, n: usize)
    ensures
        final(s)@ == old(s)@ + decimal(n as nat),
    decreases n,
{
    if n >= 10 {
        push_decimal(s, n / 10);
    }
    let d: u8 = (n % 10) as u8;
    push_char(s, (d + 48) as char);
    proof {
        assert(old(s)@ + decimal(n as nat) =~= (old(s)@ + if n >= 10 { decimal((n / 10) as nat) } else { Seq::empty() }).push(digit((n % 10) as nat)));
    }
}

proof fn lemma_before_parameters_has_none(s: Seq<char>)
    ensures
        before_parameters(s).len() <= s.len(),
        forall|i: int| 0 <= i < before_parameters(s).len() ==> before_parameters(s)[i] == s[i] && s[i]
            != ';',
    decreases s.len(),
{
    if s.len() > 0 && s[0] != ';' {
        let r = s.drop_first();
        lemma_before_parameters_has_none(r);
        let b = before_parameters(s);
        assert forall|i: int| 0 <= i < b.len() implies b[i] == s[i] && s[i] != ';' by {
            if i > 0 {
                assert(b[i] == before_parameters(r)[i - 1]);
                assert(r[i - 1] == s[i]);
            }
        }
    }
}

proof fn lemma_trim_start_is_a_suffix(s: Seq<char>)
    ensures
        trim_start(s).len() <= s.len(),
        forall|i: int|
            0 <= i < trim_start(s).len() ==> trim_start(s)[i] == s[i + s.len() - trim_start(s).len()],
        trim_start(s).len() > 0 ==> !is_white_space(trim_start(s)[0]),
    decreases s.len(),
{
    if s.len() > 0 && is_white_space(s[0]) {
        lemma_trim_start_is_a_suffix(s.drop_first());
    }
}

proof fn lemma_trim_end_is_a_prefix(s: Seq<char>)
    ensures
        trim_end(s).len() <= s.len(),
        forall|i: int| 0 <= i < trim_end(s).len() ==> trim_end(s)[i] == s[i],
        trim_end(s).len() > 0 ==> !is_white_space(trim_end(s).last()),
    decreases s.len(),
{
    if s.len() > 0 && is_white_space(s.last()) {
        let d = s.drop_last();
        lemma_trim_end_is_a_prefix(d);
        assert forall|i: int| 0 <= i < trim_end(s).len() implies trim_end(s)[i] == s[i] by {
            assert(trim_end(s)[i] == d[i]);
        }
    }
}

/// A media type as it is chosen by holds no parameters, no ASCII upper-case
/// letter, and no whitespace at either end.
pub proof fn law_an_essence_is_bare(m: Seq<char>)
    ensures
        forall|i: int| 0 <= i < essence(m).len() ==> #[trigger] essence(m)[i] != ';',
        forall|i: int| 0 <= i < essence(m).len() ==> !('A' <= #[trigger] essence(m)[i] <= 'Z'),
        essence(m).len() > 0 ==> !is_white_space(essence(m)[0]),
        essence(m).len() > 0 ==> !is_white_space(essence(m).last()),
{
    let b = before_parameters(m);
    lemma_before_parameters_has_none(m);
    let t1 = trim_start(b);
    lemma_trim_start_is_a_suffix(b);
    let t = trim_end(t1);
    lemma_trim_end_is_a_prefix(t1);
    assert forall|i: int| 0 <= i < t.len() implies t[i] != ';' by {
        assert(t[i] == t1[i]);
        let k = i + b.len() - t1.len();
        assert(t1[i] == b[k]);
        assert(b[k] == m[k] && m[k] != ';');
    }
    if t.len() > 0 {
        assert(t[0] == t1[0]);
    }
}

/// Parameters are dropped for choosing: whatever follows the first `;` does
/// not change the media type a Stream is chosen by.
pub proof fn law_parameters_do_not_matter(m: Seq<char>, parameters: Seq<char>)
    requires
        forall|i: int| 0 <= i < m.len() ==> m[i] != ';',
    ensures
        essence(m + seq![';'] + parameters) == essence(m),
{
    let s = m + seq![';'] + parameters;
    assert forall|j: int| 0 <= j < m.len() implies s[j] != ';' by {
        assert(s[j] == m[j]);
    }
    lemma_before_parameters(s, m.len() as int);
    lemma_before_parameters(m, m.len() as int);
    assert(s.take(m.len() as int) =~= m);
    assert(m.take(m.len() as int) =~= m);
}

/// Whether two texts are the same characters.
pub fn same_text(a: &str, b: &str) -> (r: bool)
    ensures
        r == (a@ == b@),
{
    let a: String = a.to_owned();
    let b: String = b.to_owned();
    a == b
}

} // verus!
