//! Small verified string utilities shared by the configuration helpers and
//! the login pipeline: character search, concatenation, substring extraction,
//! placeholder substitution, trimming and decimal formatting, each stated
//! over `Seq<char>` views.

use vstd::prelude::*;
use vstd::string::StringExecFns;
use vstd::string::StrSliceExecFns;

verus! {

/// True when `c` occurs somewhere in `s`.
pub open spec fn has_char(s: Seq<char>, c: char) -> bool {
    exists|i: int| 0 <= i < s.len() && s[i] == c
}

/// The prefix of `s` before the first occurrence of `c`, or `s` itself when
/// `c` does not occur.
pub open spec fn prefix_before(s: Seq<char>, c: char) -> Seq<char>
    decreases s.len(),
{
    if s.len() == 0 {
        s
    } else if s[0] == c {
        Seq::empty()
    } else {
        seq![s[0]] + prefix_before(s.skip(1), c)
    }
}

/// When `c` is absent, the prefix before it is the whole string.
pub proof fn lemma_prefix_before_absent(s: Seq<char>, c: char)
    requires
        !has_char(s, c),
    ensures
        prefix_before(s, c) == s,
    decreases s.len(),
{
    if s.len() == 0 {
    } else {
        assert(s[0] != c);
        assert forall|i: int| 0 <= i < s.skip(1).len() implies s.skip(1)[i] != c by {
            assert(s.skip(1)[i] == s[i + 1]);
        }
        lemma_prefix_before_absent(s.skip(1), c);
        assert(seq![s[0]] + s.skip(1) =~= s);
    }
}

/// When the first occurrence of `c` is at index `k`, the prefix before `c`
/// is exactly the first `k` characters.
pub proof fn lemma_prefix_before_at(s: Seq<char>, c: char, k: int)
    requires
        0 <= k < s.len(),
        s[k] == c,
        forall|j: int| 0 <= j < k ==> s[j] != c,
    ensures
        prefix_before(s, c) == s.subrange(0, k),
    decreases k,
{
    if k == 0 {
        assert(prefix_before(s, c) =~= s.subrange(0, 0));
    } else {
        assert(s[0] != c);
        let t = s.skip(1);
        assert(t[k - 1] == s[k]);
        assert forall|j: int| 0 <= j < k - 1 implies t[j] != c by {
            assert(t[j] == s[j + 1]);
        }
        lemma_prefix_before_at(t, c, k - 1);
        assert(seq![s[0]] + t.subrange(0, k - 1) =~= s.subrange(0, k));
    }
}

/// Appending `c` and anything after a `c`-free string leaves the prefix
/// before `c` equal to that string.
pub proof fn lemma_prefix_before_concat_absent(u: Seq<char>, c: char, rest: Seq<char>)
    requires
        !has_char(u, c),
    ensures
        prefix_before(u + seq![c] + rest, c) == u,
    decreases u.len(),
{
    let s = u + seq![c] + rest;
    if u.len() == 0 {
        assert(s[0] == c);
        assert(prefix_before(s, c) =~= u);
    } else {
        assert(s[0] == u[0]);
        assert(u[0] != c);
        assert forall|i: int| 0 <= i < u.skip(1).len() implies u.skip(1)[i] != c by {
            assert(u.skip(1)[i] == u[i + 1]);
        }
        assert(s.skip(1) =~= u.skip(1) + seq![c] + rest);
        lemma_prefix_before_concat_absent(u.skip(1), c, rest);
        assert(seq![s[0]] + u.skip(1) =~= u);
    }
}

/// Relies on `String::push`: appends exactly one character at the end.
#[verifier::external_body]
pub fn push_char(s: &mut String, c: char)
    ensures
        final(s)@ == old(s)@.push(c),
{
    s.push(c);
}

/// Index of the first occurrence of `c` in `s`, if any.
pub fn find_char(s: &str, c: char) -> (r: Option<usize>)
    ensures
        match r {
            Some(i) => {
                &&& 0 <= i < s@.len()
                &&& s@[i as int] == c
                &&& forall|j: int| 0 <= j < i ==> s@[j] != c
            },
            None => !has_char(s@, c),
        },
{
    let len: usize = s.unicode_len();
    let mut i: usize = 0;
    while i < len
        invariant
            0 <= i <= len,
            len == s@.len(),
            forall|j: int| 0 <= j < i ==> s@[j] != c,
        decreases len - i,
    {
        if s.get_char(i) == c {
            return Some(i);
        }
        i = i + 1;
    }
    None
}

/// The prefix of `s` before the first occurrence of `c`, as a fresh string.
pub fn substring_before(s: &str, c: char) -> (r: String)
    ensures
        r@ == prefix_before(s@, c),
{
    match find_char(s, c) {
        Some(i) => {
            let part = s.substring_char(0, i);
            proof {
                lemma_prefix_before_at(s@, c, i as int);
            }
            String::from_str(part)
        },
        None => {
            proof {
                lemma_prefix_before_absent(s@, c);
            }
            String::from_str(s)
        },
    }
}

/// Concatenation of three string slices.
pub fn concat3(a: &str, b: &str, c: &str) -> (r: String)
    ensures
        r@ == a@ + b@ + c@,
{
    let mut s = String::from_str(a);
    s.append(b);
    s.append(c);
    s
}

/// Concatenation of two string slices.
pub fn concat2(a: &str, b: &str) -> (r: String)
    ensures
        r@ == a@ + b@,
{
    let mut s = String::from_str(a);
    s.append(b);
    s
}

/// True when `p` is a prefix of `s`.
pub fn str_starts_with(s: &str, p: &str) -> (r: bool)
    ensures
        r == p@.is_prefix_of(s@),
{
    let plen: usize = p.unicode_len();
    let slen: usize = s.unicode_len();
    if plen > slen {
        return false;
    }
    let mut i: usize = 0;
    while i < plen
        invariant
            0 <= i <= plen,
            plen == p@.len(),
            slen == s@.len(),
            plen <= slen,
            forall|j: int| 0 <= j < i ==> p@[j] == s@[j],
        decreases plen - i,
    {
        if s.get_char(i) != p.get_char(i) {
            assert(!p@.is_prefix_of(s@)) by {
                if p@.is_prefix_of(s@) {
                    assert(p@[i as int] == s@.subrange(0, p@.len() as int)[i as int]);
                }
            }
            return false;
        }
        i = i + 1;
    }
    assert(p@ =~= s@.subrange(0, plen as int));
    true
}

/// Every occurrence of the two-character placeholder `{}` in `t`, scanned
/// left to right without overlap, replaced by `v`.
pub open spec fn fill_template_spec(t: Seq<char>, v: Seq<char>) -> Seq<char>
    decreases t.len(),
{
    if t.len() >= 2 && t[0] == '{' && t[1] == '}' {
        v + fill_template_spec(t.skip(2), v)
    } else if t.len() >= 1 {
        seq![t[0]] + fill_template_spec(t.skip(1), v)
    } else {
        Seq::empty()
    }
}

/// Substitutes `value` for each `{}` placeholder of `template`.
pub fn fill_template(template: &str, value: &str) -> (r: String)
    ensures
        r@ == fill_template_spec(template@, value@),
{
    let len: usize = template.unicode_len();
    let mut out = String::new();
    let mut i: usize = 0;
    proof {
        assert(template@.skip(0) =~= template@);
        assert(out@ + fill_template_spec(template@, value@) =~= fill_template_spec(
            template@,
            value@,
        ));
    }
    while i < len
        invariant
            0 <= i <= len,
            len == template@.len(),
            fill_template_spec(template@, value@) == out@ + fill_template_spec(
                template@.skip(i as int),
                value@,
            ),
        decreases len - i,
    {
        let ghost pre = out@;
        let ghost rest = template@.skip(i as int);
        if i + 1 < len && template.get_char(i) == '{' && template.get_char(i + 1) == '}' {
            out.append(value);
            proof {
                assert(rest[0] == template@[i as int]);
                assert(rest[1] == template@[i as int + 1]);
                assert(rest.skip(2) =~= template@.skip(i as int + 2));
                assert(fill_template_spec(rest, value@) == value@ + fill_template_spec(
                    rest.skip(2),
                    value@,
                ));
                assert(pre + fill_template_spec(rest, value@) =~= (pre + value@)
                    + fill_template_spec(rest.skip(2), value@));
            }
            i = i + 2;
        } else {
            let ch = template.get_char(i);
            push_char(&mut out, ch);
            proof {
                assert(rest[0] == template@[i as int]);
                assert(rest.skip(1) =~= template@.skip(i as int + 1));
                assert(fill_template_spec(rest, value@) == seq![rest[0]] + fill_template_spec(
                    rest.skip(1),
                    value@,
                ));
                assert(pre + fill_template_spec(rest, value@) =~= pre.push(ch)
                    + fill_template_spec(rest.skip(1), value@));
            }
            i = i + 1;
        }
    }
    assert(template@.skip(len as int) =~= Seq::<char>::empty());
    assert(out@ + Seq::<char>::empty() =~= out@);
    out
}

/// True when `s` holds the two-character placeholder `{}` somewhere.
pub open spec fn has_placeholder(s: Seq<char>) -> bool {
    exists|i: int| #![trigger s[i]] 0 <= i && i + 1 < s.len() && s[i] == '{' && s[i + 1] == '}'
}

/// A string without a placeholder — stray single braces allowed — passes
/// through the template substitution unchanged.
pub proof fn lemma_fill_template_no_placeholder(s: Seq<char>, v: Seq<char>)
    requires
        !has_placeholder(s),
    ensures
        fill_template_spec(s, v) == s,
    decreases s.len(),
{
    if s.len() == 0 {
        assert(fill_template_spec(s, v) =~= s);
    } else {
        assert(!(s.len() >= 2 && s[0] == '{' && s[1] == '}')) by {
            if s.len() >= 2 && s[0] == '{' && s[1] == '}' {
                assert(0 + 1 < s.len() && s[0] == '{' && s[1] == '}');
            }
        }
        let t = s.skip(1);
        assert(!has_placeholder(t)) by {
            if has_placeholder(t) {
                let i = choose|i: int| #![trigger t[i]] 0 <= i && i + 1 < t.len() && t[i] == '{' && t[i + 1] == '}';
                assert(t[i] == s[i + 1]);
                assert(t[i + 1] == s[i + 2]);
                assert(0 <= i + 1 && (i + 1) + 1 < s.len() && s[i + 1] == '{' && s[(i + 1) + 1]
                    == '}');
            }
        }
        lemma_fill_template_no_placeholder(t, v);
        assert(seq![s[0]] + t =~= s);
    }
}

/// A template of the shape `a{}b` holding exactly one placeholder —
/// neither fixed part holds `{}`, though stray single braces are allowed —
/// takes exactly `v` in place of that placeholder.
pub proof fn lemma_fill_template_single(a: Seq<char>, b: Seq<char>, v: Seq<char>)
    requires
        !has_placeholder(a),
        !has_placeholder(b),
    ensures
        fill_template_spec(a + seq!['{', '}'] + b, v) == a + v + b,
    decreases a.len(),
{
    let t = a + seq!['{', '}'] + b;
    if a.len() == 0 {
        assert(t.len() >= 2);
        assert(t[0] == '{');
        assert(t[1] == '}');
        assert(t.skip(2) =~= b);
        lemma_fill_template_no_placeholder(b, v);
        assert(v + b =~= a + v + b);
    } else {
        assert(t[0] == a[0]);
        // The scan cannot match a placeholder at the head: either the next
        // character is still in `a`, which holds no placeholder, or it is
        // the placeholder's own opening brace.
        assert(!(t[0] == '{' && t[1] == '}')) by {
            if a.len() >= 2 {
                assert(t[1] == a[1]);
                if a[0] == '{' && a[1] == '}' {
                    assert(0 + 1 < a.len() && a[0] == '{' && a[1] == '}');
                }
            } else {
                assert(t[1] == '{');
            }
        }
        assert(t.skip(1) =~= a.skip(1) + seq!['{', '}'] + b);
        assert(!has_placeholder(a.skip(1))) by {
            if has_placeholder(a.skip(1)) {
                let s1 = a.skip(1);
                let i = choose|i: int|
                    #![trigger s1[i]]
                    0 <= i && i + 1 < s1.len() && s1[i] == '{' && s1[i + 1] == '}';
                assert(s1[i] == a[i + 1]);
                assert(s1[i + 1] == a[i + 2]);
                assert(0 <= i + 1 && (i + 1) + 1 < a.len() && a[i + 1] == '{' && a[(i + 1) + 1]
                    == '}');
            }
        }
        lemma_fill_template_single(a.skip(1), b, v);
        assert(seq![a[0]] + (a.skip(1) + v + b) =~= a + v + b);
    }
}

/// The blank characters that trimming removes.
pub open spec fn is_blank(c: char) -> bool {
    c == ' ' || c == '\t' || c == '\n' || c == '\r'
}

/// `s` without leading blanks.
pub open spec fn trim_front_spec(s: Seq<char>) -> Seq<char>
    decreases s.len(),
{
    if s.len() > 0 && is_blank(s[0]) {
        trim_front_spec(s.skip(1))
    } else {
        s
    }
}

/// `s` without trailing blanks.
pub open spec fn trim_back_spec(s: Seq<char>) -> Seq<char>
    decreases s.len(),
{
    if s.len() > 0 && is_blank(s[s.len() - 1]) {
        trim_back_spec(s.drop_last())
    } else {
        s
    }
}

/// `s` without leading and trailing blanks.
pub open spec fn trim_spec(s: Seq<char>) -> Seq<char> {
    trim_back_spec(trim_front_spec(s))
}

proof fn lemma_trim_front_skip(s: Seq<char>, a: int)
    requires
        0 <= a <= s.len(),
        forall|j: int| 0 <= j < a ==> is_blank(s[j]),
        a == s.len() || !is_blank(s[a]),
    ensures
        trim_front_spec(s) == s.skip(a),
    decreases a,
{
    if a == 0 {
        assert(s.skip(0) =~= s);
    } else {
        assert(is_blank(s[0]));
        let t = s.skip(1);
        assert forall|j: int| 0 <= j < a - 1 implies is_blank(t[j]) by {
            assert(t[j] == s[j + 1]);
        }
        if a - 1 < t.len() {
            assert(t[a - 1] == s[a]);
        }
        lemma_trim_front_skip(t, a - 1);
        assert(t.skip(a - 1) =~= s.skip(a));
    }
}

proof fn lemma_trim_back_take(s: Seq<char>, b: int)
    requires
        0 <= b <= s.len(),
        forall|j: int| b <= j < s.len() ==> is_blank(s[j]),
        b == 0 || !is_blank(s[b - 1]),
    ensures
        trim_back_spec(s) == s.subrange(0, b),
    decreases s.len() - b,
{
    if b == s.len() {
        assert(s.subrange(0, b) =~= s);
        if s.len() > 0 {
            assert(!is_blank(s[s.len() - 1]));
        }
    } else {
        assert(is_blank(s[s.len() - 1]));
        let t = s.drop_last();
        assert forall|j: int| b <= j < t.len() implies is_blank(t[j]) by {
            assert(t[j] == s[j]);
        }
        if b > 0 {
            assert(t[b - 1] == s[b - 1]);
        }
        lemma_trim_back_take(t, b);
        assert(t.subrange(0, b) =~= s.subrange(0, b));
    }
}

/// `s` with leading and trailing blanks removed.
pub fn trim_str(s: &str) -> (r: String)
    ensures
        r@ == trim_spec(s@),
{
    let len: usize = s.unicode_len();
    let mut a: usize = 0;
    while a < len && is_blank_exec(s.get_char(a))
        invariant
            0 <= a <= len,
            len == s@.len(),
            forall|j: int| 0 <= j < a ==> is_blank(s@[j]),
        decreases len - a,
    {
        a = a + 1;
    }
    if a == len {
        proof {
            lemma_trim_front_skip(s@, a as int);
            assert(s@.skip(len as int) =~= Seq::<char>::empty());
        }
        return String::new();
    }
    let mut b: usize = len;
    while b > a && is_blank_exec(s.get_char(b - 1))
        invariant
            a <= b <= len,
            len == s@.len(),
            a < len,
            !is_blank(s@[a as int]),
            forall|j: int| b <= j < len ==> is_blank(s@[j]),
        decreases b,
    {
        b = b - 1;
    }
    let part = s.substring_char(a, b);
    proof {
        lemma_trim_front_skip(s@, a as int);
        let t = s@.skip(a as int);
        assert(t[0] == s@[a as int]);
        assert forall|j: int| b - a <= j < t.len() implies is_blank(t[j]) by {
            assert(t[j] == s@[j + a]);
        }
        assert(t[(b - a) - 1] == s@[b - 1]);
        lemma_trim_back_take(t, b - a);
        assert(t.subrange(0, b - a) =~= s@.subrange(a as int, b as int));
    }
    String::from_str(part)
}

/// Exec test for the blank characters.
pub fn is_blank_exec(c: char) -> (r: bool)
    ensures
        r == is_blank(c),
{
    c == ' ' || c == '\t' || c == '\n' || c == '\r'
}

/// The decimal digit character for `d` (meaningful for `0 <= d <= 9`).
pub open spec fn digit_char(d: int) -> char {
    if d == 0 {
        '0'
    } else if d == 1 {
        '1'
    } else if d == 2 {
        '2'
    } else if d == 3 {
        '3'
    } else if d == 4 {
        '4'
    } else if d == 5 {
        '5'
    } else if d == 6 {
        '6'
    } else if d == 7 {
        '7'
    } else if d == 8 {
        '8'
    } else {
        '9'
    }
}

/// The decimal digit sequence of `n`, most significant first.
pub open spec fn dec_digits(n: int) -> Seq<char>
    decreases n,
{
    if n < 10 {
        seq![digit_char(n % 10)]
    } else {
        dec_digits(n / 10).push(digit_char(n % 10))
    }
}

fn digit_char_exec(d: u64) -> (c: char)
    requires
        d < 10,
    ensures
        c == digit_char(d as int),
{
    if d == 0 {
        '0'
    } else if d == 1 {
        '1'
    } else if d == 2 {
        '2'
    } else if d == 3 {
        '3'
    } else if d == 4 {
        '4'
    } else if d == 5 {
        '5'
    } else if d == 6 {
        '6'
    } else if d == 7 {
        '7'
    } else if d == 8 {
        '8'
    } else {
        '9'
    }
}

/// `n` written in decimal.
pub fn fmt_u64(n: u64) -> (s: String)
    ensures
        s@ == dec_digits(n as int),
{
    let mut digits: Vec<char> = Vec::new();
    let mut m: u64 = n;
    while m >= 10
        invariant
            dec_digits(n as int) == dec_digits(m as int) + digits@.reverse(),
        decreases m,
    {
        let d = digit_char_exec(m % 10);
        digits.push(d);
        proof {
            let prev = digits@.drop_last();
            assert(prev.push(d).reverse() =~= seq![d] + prev.reverse());
            assert(dec_digits(m as int) == dec_digits(m as int / 10).push(d));
            assert(dec_digits(m as int / 10).push(d) + prev.reverse() =~= dec_digits(
                m as int / 10,
            ) + (seq![d] + prev.reverse()));
        }
        m = m / 10;
    }
    let d = digit_char_exec(m);
    digits.push(d);
    proof {
        let prev = digits@.drop_last();
        assert(prev.push(d).reverse() =~= seq![d] + prev.reverse());
        assert(dec_digits(m as int) == seq![digit_char(m as int)]);
        assert(seq![d] + prev.reverse() =~= dec_digits(m as int) + prev.reverse());
    }
    let mut s = String::new();
    let mut i: usize = digits.len();
    while i > 0
        invariant
            0 <= i <= digits@.len(),
            s@ == digits@.subrange(i as int, digits@.len() as int).reverse(),
        decreases i,
    {
        i = i - 1;
        let c = digits[i];
        push_char(&mut s, c);
        proof {
            assert(digits@.subrange(i as int, digits@.len() as int).reverse() =~= digits@.subrange(
                i as int + 1,
                digits@.len() as int,
            ).reverse().push(c));
        }
    }
    proof {
        assert(digits@.subrange(0, digits@.len() as int) =~= digits@);
    }
    s
}

/// True when `c` is a decimal digit.
pub open spec fn is_digit(c: char) -> bool {
    48 <= c as int && c as int <= 57
}

/// The numeric value of a decimal digit character.
pub open spec fn digit_val(c: char) -> int {
    c as int - 48
}

/// True when every character of `s` is a decimal digit.
pub open spec fn all_digits(s: Seq<char>) -> bool {
    forall|i: int| 0 <= i < s.len() ==> is_digit(s[i])
}

/// The value of `s` read as a decimal numeral, most significant digit
/// first.
pub open spec fn dec_value(s: Seq<char>) -> int
    decreases s.len(),
{
    if s.len() == 0 {
        0
    } else {
        dec_value(s.drop_last()) * 10 + digit_val(s.last())
    }
}

/// A decimal numeral's value is never negative.
proof fn lemma_dec_value_nonneg(s: Seq<char>)
    requires
        all_digits(s),
    ensures
        dec_value(s) >= 0,
    decreases s.len(),
{
    if s.len() > 0 {
        let p = s.drop_last();
        assert forall|i: int| 0 <= i < p.len() implies is_digit(p[i]) by {
            assert(p[i] == s[i]);
        }
        lemma_dec_value_nonneg(p);
        assert(is_digit(s.last()));
    }
}

/// Reading more digits never decreases a numeral's value.
proof fn lemma_dec_value_prefix(s: Seq<char>, k: int)
    requires
        all_digits(s),
        0 <= k <= s.len(),
    ensures
        dec_value(s.subrange(0, k)) <= dec_value(s),
    decreases s.len() - k,
{
    if k == s.len() {
        assert(s.subrange(0, k) =~= s);
    } else {
        let p = s.subrange(0, k);
        let q = s.subrange(0, k + 1);
        assert(q.drop_last() =~= p);
        assert(q.last() == s[k]);
        assert forall|i: int| 0 <= i < p.len() implies is_digit(p[i]) by {
            assert(p[i] == s[i]);
        }
        lemma_dec_value_nonneg(p);
        assert(is_digit(s[k]));
        assert(dec_value(q) == dec_value(p) * 10 + digit_val(s[k]));
        lemma_dec_value_prefix(s, k + 1);
    }
}

/// Parses a decimal numeral into a `u64`: `Some` exactly when `s` is
/// non-empty, holds only digits, and its value fits.
pub fn parse_u64(s: &str) -> (r: Option<u64>)
    ensures
        r matches Some(n) ==> s@.len() > 0 && all_digits(s@) && n == dec_value(s@),
        r is None ==> s@.len() == 0 || !all_digits(s@) || dec_value(s@) > u64::MAX,
{
    let len: usize = s.unicode_len();
    if len == 0 {
        return None;
    }
    let mut acc: u64 = 0;
    let mut i: usize = 0;
    proof {
        assert(s@.subrange(0, 0) =~= Seq::<char>::empty());
    }
    while i < len
        invariant
            0 <= i <= len,
            len == s@.len(),
            all_digits(s@.subrange(0, i as int)),
            acc == dec_value(s@.subrange(0, i as int)),
        decreases len - i,
    {
        let c = s.get_char(i);
        let code = c as u32;
        if code < 48 || code > 57 {
            proof {
                assert(!is_digit(s@[i as int]));
                assert(!all_digits(s@)) by {
                    if all_digits(s@) {
                        assert(is_digit(s@[i as int]));
                    }
                }
            }
            return None;
        }
        let d: u64 = (code - 48) as u64;
        let ghost prefix = s@.subrange(0, i as int);
        let ghost extended = s@.subrange(0, i as int + 1);
        proof {
            vstd::arithmetic::div_mod::lemma_fundamental_div_mod((u64::MAX - d) as int, 10);
            assert(extended.drop_last() =~= prefix);
            assert(extended.last() == s@[i as int]);
            assert(is_digit(s@[i as int]));
            assert(dec_value(extended) == acc * 10 + d);
            assert forall|j: int| 0 <= j < extended.len() implies is_digit(extended[j]) by {
                assert(extended[j] == s@[j]);
                if j < i {
                    assert(prefix[j] == s@[j]);
                }
            }
        }
        if acc > (u64::MAX - d) / 10 {
            proof {
                assert(acc * 10 + d > u64::MAX);
                if all_digits(s@) {
                    lemma_dec_value_prefix(s@, i as int + 1);
                }
            }
            return None;
        }
        proof {
            assert(acc * 10 + d <= u64::MAX);
        }
        acc = acc * 10 + d;
        i = i + 1;
    }
    proof {
        assert(s@.subrange(0, len as int) =~= s@);
    }
    Some(acc)
}

} // verus!
