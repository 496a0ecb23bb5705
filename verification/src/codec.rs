//! The on-disk session record format: a single JSON object with the four
//! session fields in a fixed order. Encoding is total; parsing accepts what
//! the encoder writes (plus harmless variations such as redundant escapes)
//! and rejects everything else, so a reader never panics on corrupt content.

use vstd::prelude::*;

use crate::session::{Session, SessionV};
use crate::strutil::push_char;

verus! {

// ---------------------------------------------------------------------------
// Escaping of string field content
// ---------------------------------------------------------------------------
/// How one character appears inside a quoted field: quotes and backslashes
/// get a backslash prefix, everything else stands as itself.
pub open spec fn escape_char(c: char) -> Seq<char> {
    if c == '"' || c == '\\' {
        seq!['\\', c]
    } else {
        seq![c]
    }
}

/// The escaped form of a whole field.
pub open spec fn escape(s: Seq<char>) -> Seq<char>
    decreases s.len(),
{
    if s.len() == 0 {
        Seq::empty()
    } else {
        escape_char(s[0]) + escape(s.drop_first())
    }
}

/// Escaping distributes over appending one character at the end.
proof fn lemma_escape_snoc(s: Seq<char>, c: char)
    ensures
        escape(s.push(c)) == escape(s) + escape_char(c),
    decreases s.len(),
{
    if s.len() == 0 {
        assert(s.push(c)[0] == c);
        assert(s.push(c).drop_first() =~= s);
        assert(escape(s.push(c)) == escape_char(c) + escape(s));
        assert(escape_char(c) + escape(s) =~= escape(s) + escape_char(c));
    } else {
        assert(s.push(c)[0] == s[0]);
        assert(s.push(c).drop_first() =~= s.drop_first().push(c));
        lemma_escape_snoc(s.drop_first(), c);
        assert(escape(s.push(c)) == escape_char(s[0]) + (escape(s.drop_first()) + escape_char(c)));
        assert(escape_char(s[0]) + (escape(s.drop_first()) + escape_char(c)) =~= (escape_char(s[0])
            + escape(s.drop_first())) + escape_char(c));
    }
}

// ---------------------------------------------------------------------------
// Decimal rendering of the expiry timestamp
// ---------------------------------------------------------------------------
/// The character for one decimal digit.
pub open spec fn digit_char(d: nat) -> char {
    ((48 + d % 10) as u8) as char
}

pub open spec fn is_digit_char(c: char) -> bool {
    48 <= c as u32 <= 57
}

/// The numeric value of one digit character (0 for anything else).
pub open spec fn digit_val(c: char) -> nat {
    if is_digit_char(c) {
        (c as u32 - 48) as nat
    } else {
        0
    }
}

/// The decimal digits of `n`, most significant first, no leading zeros.
pub open spec fn dec_digits(n: nat) -> Seq<char>
    decreases n,
{
    if n < 10 {
        seq![digit_char(n)]
    } else {
        dec_digits(n / 10) + seq![digit_char(n % 10)]
    }
}

/// The value of a digit string, most significant first.
pub open spec fn val_of_digits(s: Seq<char>) -> nat
    decreases s.len(),
{
    if s.len() == 0 {
        0
    } else {
        val_of_digits(s.drop_last()) * 10 + digit_val(s.last())
    }
}

/// Length of the maximal digit prefix of `s`.
pub open spec fn digits_len(s: Seq<char>) -> int
    decreases s.len(),
{
    if s.len() == 0 || !is_digit_char(s[0]) {
        0
    } else {
        1 + digits_len(s.drop_first())
    }
}

proof fn lemma_digit_char_val(d: nat)
    requires
        d < 10,
    ensures
        is_digit_char(digit_char(d)),
        digit_val(digit_char(d)) == d,
{
}

/// Every character that `dec_digits` produces is a digit.
proof fn lemma_dec_digits_are_digits(n: nat)
    ensures
        dec_digits(n).len() >= 1,
        forall|i: int|
            0 <= i < dec_digits(n).len() ==> is_digit_char(#[trigger] dec_digits(n)[i]),
    decreases n,
{
    if n < 10 {
        lemma_digit_char_val(n);
    } else {
        lemma_dec_digits_are_digits(n / 10);
        lemma_digit_char_val(n % 10);
    }
}

/// Reading back the digits of `n` yields `n`.
proof fn lemma_val_of_dec_digits(n: nat)
    ensures
        val_of_digits(dec_digits(n)) == n,
    decreases n,
{
    if n < 10 {
        lemma_digit_char_val(n);
        assert(dec_digits(n).last() == digit_char(n));
        assert(dec_digits(n).drop_last() =~= Seq::<char>::empty());
        assert(val_of_digits(Seq::<char>::empty()) == 0);
    } else {
        lemma_val_of_dec_digits(n / 10);
        lemma_digit_char_val(n % 10);
        assert(dec_digits(n).drop_last() =~= dec_digits(n / 10));
        assert(dec_digits(n).last() == digit_char(n % 10));
    }
}

// ---------------------------------------------------------------------------
// The record layout
// ---------------------------------------------------------------------------
/// The canonical text of a session record.
pub open spec fn spec_encode_session(s: SessionV) -> Seq<char> {
    "{\"access_token\":\""@ + escape(s.access_token) + seq!['"'] + ",\"refresh_token\":\""@
        + escape(s.refresh_token) + seq!['"'] + ",\"expires_at\":"@ + dec_digits(
        s.expires_at as nat,
    ) + ",\"user_email\":\""@ + escape(s.user_email) + seq!['"'] + seq!['}']
}

// ---------------------------------------------------------------------------
// Parsing
// ---------------------------------------------------------------------------
/// Drops `lit` from the front of `s`, or fails if `s` does not start with it.
pub open spec fn strip_lit(s: Seq<char>, lit: Seq<char>) -> Option<Seq<char>> {
    if lit.is_prefix_of(s) {
        Option::Some(s.skip(lit.len() as int))
    } else {
        Option::None
    }
}

/// Reads quoted-field content up to and including the closing quote:
/// a backslash takes the next character literally. Returns the content and
/// what follows the closing quote.
pub open spec fn unescape_prefix(s: Seq<char>) -> Option<(Seq<char>, Seq<char>)>
    decreases s.len(),
{
    if s.len() == 0 {
        Option::None
    } else if s[0] == '"' {
        Option::Some((Seq::empty(), s.drop_first()))
    } else if s[0] == '\\' {
        if s.len() < 2 {
            Option::None
        } else {
            match unescape_prefix(s.skip(2)) {
                Option::Some(p) => Option::Some((seq![s[1]] + p.0, p.1)),
                Option::None => Option::None,
            }
        }
    } else {
        match unescape_prefix(s.drop_first()) {
            Option::Some(p) => Option::Some((seq![s[0]] + p.0, p.1)),
            Option::None => Option::None,
        }
    }
}

/// What `parse_session` accepts: the four fields in their fixed order, with
/// nothing before, between or after them beyond the record punctuation.
pub open spec fn spec_parse_session(s: Seq<char>) -> Option<SessionV> {
    match strip_lit(s, "{\"access_token\":\""@) {
        Option::None => Option::None,
        Option::Some(s1) => match unescape_prefix(s1) {
            Option::None => Option::None,
            Option::Some(a) => match strip_lit(a.1, ",\"refresh_token\":\""@) {
                Option::None => Option::None,
                Option::Some(s2) => match unescape_prefix(s2) {
                    Option::None => Option::None,
                    Option::Some(r) => match strip_lit(r.1, ",\"expires_at\":"@) {
                        Option::None => Option::None,
                        Option::Some(s3) => {
                            let k = digits_len(s3);
                            if k == 0 || val_of_digits(s3.take(k)) > u64::MAX {
                                Option::None
                            } else {
                                match strip_lit(s3.skip(k), ",\"user_email\":\""@) {
                                    Option::None => Option::None,
                                    Option::Some(s4) => match unescape_prefix(s4) {
                                        Option::None => Option::None,
                                        Option::Some(u) => if u.1 == seq!['}'] {
                                            Option::Some(
                                                SessionV {
                                                    access_token: a.0,
                                                    refresh_token: r.0,
                                                    expires_at: val_of_digits(
                                                        s3.take(k),
                                                    ) as u64,
                                                    user_email: u.0,
                                                },
                                            )
                                        } else {
                                            Option::None
                                        },
                                    },
                                }
                            }
                        },
                    },
                },
            },
        },
    }
}

/// Advances past `lit` if the characters at `i` spell it out.
fn match_lit(v: &Vec<char>, i: usize, lit: &str) -> (r: Option<usize>)
    requires
        i <= v@.len(),
    ensures
        match r {
            Option::Some(j) => i <= j <= v@.len() && strip_lit(v@.skip(i as int), lit@)
                == Option::Some(v@.skip(j as int)),
            Option::None => strip_lit(v@.skip(i as int), lit@) is None,
        },
{
    let m = lit.unicode_len();
    if m > v.len() - i {
        proof {
            assert(!lit@.is_prefix_of(v@.skip(i as int)));
        }
        return Option::None;
    }
    let mut k: usize = 0;
    while k < m
        invariant
            k <= m,
            i <= v@.len(),
            m <= v@.len() - i,
            m == lit@.len(),
            v@.len() <= usize::MAX,
            forall|t: int| 0 <= t < k ==> v@[i + t] == lit@[t],
        decreases m - k,
    {
        if v[i + k] != lit.get_char(k) {
            proof {
                assert(v@.skip(i as int)[k as int] == v@[i + k]);
                assert(!lit@.is_prefix_of(v@.skip(i as int)));
            }
            return Option::None;
        }
        k = k + 1;
    }
    proof {
        assert(lit@ =~= v@.skip(i as int).subrange(0, m as int));
        assert(v@.skip(i as int).skip(m as int) =~= v@.skip(i + m));
    }
    Option::Some(i + m)
}

/// Reads quoted-field content starting at `i`, appending it to `out`;
/// returns the position just past the closing quote.
fn take_string_rec(v: &Vec<char>, i: usize, out: &mut String) -> (r: Option<usize>)
    requires
        i <= v@.len(),
    ensures
        match r {
            Option::Some(j) => i < j <= v@.len() && match unescape_prefix(v@.skip(i as int)) {
                Option::Some(p) => final(out)@ == old(out)@ + p.0 && p.1 == v@.skip(j as int),
                Option::None => false,
            },
            Option::None => unescape_prefix(v@.skip(i as int)) is None,
        },
    decreases v@.len() - i,
{
    if i >= v.len() {
        return Option::None;
    }
    let c = v[i];
    if c == '"' {
        proof {
            assert(v@.skip(i as int).drop_first() =~= v@.skip(i + 1));
            assert(out@ + Seq::<char>::empty() =~= out@);
        }
        return Option::Some(i + 1);
    }
    if c == '\\' {
        if i + 1 >= v.len() {
            return Option::None;
        }
        let ghost pre = out@;
        push_char(out, v[i + 1]);
        let rec = take_string_rec(v, i + 2, out);
        proof {
            assert(v@.skip(i as int).skip(2) =~= v@.skip(i + 2));
            assert(v@.skip(i as int)[1] == v@[i + 1]);
        }
        match rec {
            Option::Some(j) => {
                proof {
                    let p2 = unescape_prefix(v@.skip(i + 2)).unwrap();
                    assert(pre.push(v@[i + 1]) + p2.0 =~= pre + (seq![v@[i + 1]] + p2.0));
                }
                return Option::Some(j);
            },
            Option::None => {
                return Option::None;
            },
        }
    }
    let ghost pre = out@;
    push_char(out, c);
    let rec = take_string_rec(v, i + 1, out);
    proof {
        assert(v@.skip(i as int).drop_first() =~= v@.skip(i + 1));
    }
    match rec {
        Option::Some(j) => {
            proof {
                let p2 = unescape_prefix(v@.skip(i + 1)).unwrap();
                assert(pre.push(c) + p2.0 =~= pre + (seq![c] + p2.0));
            }
            Option::Some(j)
        },
        Option::None => Option::None,
    }
}

/// The digit prefix never runs past the end of the string.
proof fn lemma_digits_len_bounds(s: Seq<char>)
    ensures
        0 <= digits_len(s) <= s.len(),
    decreases s.len(),
{
    if s.len() > 0 && is_digit_char(s[0]) {
        lemma_digits_len_bounds(s.drop_first());
    }
}

/// A value of a longer digit prefix is never smaller.
proof fn lemma_val_prefix_mono(s: Seq<char>, m: int, k: int)
    requires
        0 <= m <= k <= s.len(),
    ensures
        val_of_digits(s.take(m)) <= val_of_digits(s.take(k)),
    decreases k - m,
{
    if m < k {
        lemma_val_prefix_mono(s, m, k - 1);
        assert(s.take(k).drop_last() =~= s.take(k - 1));
        assert(s.take(k).last() == s[k - 1]);
    }
}

/// Reads the maximal run of digits starting at `i` as a `u64`; fails on an
/// empty run or a value that does not fit.
fn take_u64(v: &Vec<char>, i: usize) -> (r: Option<(u64, usize)>)
    requires
        i <= v@.len(),
    ensures
        ({
            let s = v@.skip(i as int);
            let k = digits_len(s);
            match r {
                Option::Some(p) => k > 0 && i <= p.1 <= v@.len() && p.1 == i + k
                    && val_of_digits(s.take(k)) == p.0,
                Option::None => k == 0 || val_of_digits(s.take(k)) > u64::MAX,
            }
        }),
{
    let ghost s = v@.skip(i as int);
    let mut j: usize = i;
    let mut value: u64 = 0;
    proof {
        assert(s.take(0) =~= Seq::<char>::empty());
    }
    loop
        invariant
            i <= j <= v@.len(),
            s == v@.skip(i as int),
            digits_len(s) == j - i + digits_len(v@.skip(j as int)),
            value == val_of_digits(s.take(j - i)),
        ensures
            i <= j <= v@.len(),
            digits_len(s) == j - i,
            value == val_of_digits(s.take(j - i)),
        decreases v@.len() - j,
    {
        if j >= v.len() {
            proof {
                assert(v@.skip(j as int) =~= Seq::<char>::empty());
            }
            break;
        }
        let c = v[j];
        let u = c as u32;
        if u < 48 || u > 57 {
            proof {
                assert(v@.skip(j as int)[0] == v@[j as int]);
                assert(!is_digit_char(v@[j as int]));
            }
            break;
        }
        proof {
            assert(v@.skip(j as int)[0] == v@[j as int]);
            assert(is_digit_char(v@[j as int]));
            assert(v@.skip(j as int).drop_first() =~= v@.skip(j + 1));
            lemma_digits_len_bounds(v@.skip(j + 1));
        }
        let d = (u - 48) as u64;
        proof {
            assert(s.take(j - i + 1).drop_last() =~= s.take(j - i));
            assert(s.take(j - i + 1).last() == s[j - i]);
            assert(s[j - i] == v@[j as int]);
        }
        if value > (u64::MAX - d) / 10 {
            proof {
                assert(10 * value + d > u64::MAX) by (nonlinear_arith)
                    requires
                        value > (u64::MAX - d) / 10,
                        d <= 9,
                ;
                assert(val_of_digits(s.take(j - i + 1)) > u64::MAX);
                lemma_digits_len_bounds(s);
                lemma_val_prefix_mono(s, j - i + 1, digits_len(s));
            }
            return Option::None;
        }
        value = value * 10 + d;
        j = j + 1;
    }
    if j == i {
        return Option::None;
    }
    Option::Some((value, j))
}

/// Decodes a persisted record; anything that does not spell out a whole
/// session yields nothing, never a panic.
#[verifier::rlimit(60)]
pub fn parse_session(text: &str) -> (r: Option<Session>)
    ensures
        match r {
            Option::Some(sess) => spec_parse_session(text@) == Option::Some(sess@),
            Option::None => spec_parse_session(text@) is None,
        },
{
    let v = crate::strutil::str_to_chars(text);
    proof {
        assert(v@.skip(0) =~= v@);
    }
    let i0 = match match_lit(&v, 0, "{\"access_token\":\"") {
        Option::Some(j) => j,
        Option::None => {
            return Option::None;
        },
    };
    let mut access = String::new();
    let i1 = match take_string_rec(&v, i0, &mut access) {
        Option::Some(j) => j,
        Option::None => {
            return Option::None;
        },
    };
    let i2 = match match_lit(&v, i1, ",\"refresh_token\":\"") {
        Option::Some(j) => j,
        Option::None => {
            return Option::None;
        },
    };
    let mut refresh = String::new();
    let i3 = match take_string_rec(&v, i2, &mut refresh) {
        Option::Some(j) => j,
        Option::None => {
            return Option::None;
        },
    };
    let i4 = match match_lit(&v, i3, ",\"expires_at\":") {
        Option::Some(j) => j,
        Option::None => {
            return Option::None;
        },
    };
    let (expires, i5) = match take_u64(&v, i4) {
        Option::Some(p) => p,
        Option::None => {
            return Option::None;
        },
    };
    proof {
        assert(v@.skip(i4 as int).skip(digits_len(v@.skip(i4 as int))) =~= v@.skip(i5 as int));
    }
    let i6 = match match_lit(&v, i5, ",\"user_email\":\"") {
        Option::Some(j) => j,
        Option::None => {
            return Option::None;
        },
    };
    let mut email = String::new();
    let i7 = match take_string_rec(&v, i6, &mut email) {
        Option::Some(j) => j,
        Option::None => {
            return Option::None;
        },
    };
    if i7 < v.len() && i7 + 1 == v.len() && v[i7] == '}' {
        proof {
            assert(v@.skip(i7 as int) =~= seq!['}']);
        }
        let sess = Session {
            access_token: access,
            refresh_token: refresh,
            expires_at: expires,
            user_email: email,
        };
        Option::Some(sess)
    } else {
        proof {
            if v@.skip(i7 as int) == seq!['}'] {
                assert(v@.skip(i7 as int).len() == 1);
                assert(v@.skip(i7 as int)[0] == '}');
                assert(v@[i7 as int] == '}');
            }
        }
        Option::None
    }
}

// ---------------------------------------------------------------------------
// Round trip: whatever the encoder writes, the parser reads back unchanged
// ---------------------------------------------------------------------------
/// Stripping a literal off a string that starts with it leaves the tail.
proof fn lemma_strip_concat(p: Seq<char>, t: Seq<char>)
    ensures
        strip_lit(p + t, p) == Option::Some(t),
{
    assert((p + t).subrange(0, p.len() as int) =~= p);
    assert((p + t).skip(p.len() as int) =~= t);
}

/// Unescaping inverts escaping, up to the closing quote.
proof fn lemma_unescape_escape(x: Seq<char>, rest: Seq<char>)
    ensures
        unescape_prefix(escape(x) + seq!['"'] + rest) == Option::Some((x, rest)),
    decreases x.len(),
{
    let s = escape(x) + seq!['"'] + rest;
    if x.len() == 0 {
        assert(s =~= seq!['"'] + rest);
        assert(s[0] == '"');
        assert(s.drop_first() =~= rest);
        assert(x =~= Seq::<char>::empty());
    } else {
        let c = x[0];
        let x1 = x.drop_first();
        lemma_unescape_escape(x1, rest);
        let s1 = escape(x1) + seq!['"'] + rest;
        assert(escape(x) == escape_char(c) + escape(x1));
        if c == '"' || c == '\\' {
            assert(s =~= seq!['\\', c] + s1);
            assert(s[0] == '\\');
            assert(s[1] == c);
            assert(s.len() >= 2);
            assert(s.skip(2) =~= s1);
            assert(seq![s[1]] + x1 =~= x);
        } else {
            assert(s =~= seq![c] + s1);
            assert(s[0] == c);
            assert(s.drop_first() =~= s1);
            assert(seq![s[0]] + x1 =~= x);
        }
    }
}

/// A run of digits followed by a non-digit is read as exactly that run.
proof fn lemma_digits_len_concat(d: Seq<char>, t: Seq<char>)
    requires
        forall|i: int| 0 <= i < d.len() ==> is_digit_char(#[trigger] d[i]),
        t.len() > 0,
        !is_digit_char(t[0]),
    ensures
        digits_len(d + t) == d.len(),
    decreases d.len(),
{
    if d.len() == 0 {
        assert(d + t =~= t);
    } else {
        assert((d + t)[0] == d[0]);
        assert((d + t).drop_first() =~= d.drop_first() + t);
        lemma_digits_len_concat(d.drop_first(), t);
    }
}

/// The record format loses nothing: a parsed encoding is the session itself.
/// In particular a reader that sees a fully written record sees exactly the
/// session that was written.
#[verifier::rlimit(100)]
pub proof fn lemma_session_roundtrip(s: SessionV)
    ensures
        spec_parse_session(spec_encode_session(s)) == Option::Some(s),
{
    let p1 = "{\"access_token\":\""@;
    let p2 = ",\"refresh_token\":\""@;
    let p3 = ",\"expires_at\":"@;
    let p4 = ",\"user_email\":\""@;
    let q = seq!['"'];
    let d = dec_digits(s.expires_at as nat);
    let e = spec_encode_session(s);

    let t1 = escape(s.access_token) + q + p2 + escape(s.refresh_token) + q + p3 + d + p4 + escape(
        s.user_email,
    ) + q + seq!['}'];
    assert(e =~= p1 + t1);
    lemma_strip_concat(p1, t1);

    let r1 = p2 + escape(s.refresh_token) + q + p3 + d + p4 + escape(s.user_email) + q
        + seq!['}'];
    assert(t1 =~= escape(s.access_token) + q + r1);
    lemma_unescape_escape(s.access_token, r1);

    let t2 = escape(s.refresh_token) + q + p3 + d + p4 + escape(s.user_email) + q + seq!['}'];
    assert(r1 =~= p2 + t2);
    lemma_strip_concat(p2, t2);

    let r2 = p3 + d + p4 + escape(s.user_email) + q + seq!['}'];
    assert(t2 =~= escape(s.refresh_token) + q + r2);
    lemma_unescape_escape(s.refresh_token, r2);

    let t4 = escape(s.user_email) + q + seq!['}'];
    let rest4 = p4 + t4;
    let t3 = d + rest4;
    assert(r2 =~= p3 + t3);
    lemma_strip_concat(p3, t3);

    lemma_dec_digits_are_digits(s.expires_at as nat);
    reveal_strlit(",\"user_email\":\"");
    assert(p4[0] == ',');
    assert(!is_digit_char(','));
    assert(rest4.len() > 0);
    assert(rest4[0] == ',');
    lemma_digits_len_concat(d, rest4);
    assert(t3.take(d.len() as int) =~= d);
    assert(t3.skip(d.len() as int) =~= rest4);
    lemma_val_of_dec_digits(s.expires_at as nat);

    lemma_strip_concat(p4, t4);
    lemma_unescape_escape(s.user_email, seq!['}']);

    assert(spec_parse_session(e) == Option::Some(s));
}

// ---------------------------------------------------------------------------
// Executable encoding
// ---------------------------------------------------------------------------
/// Appends the escaped form of `f` to `out`.
fn push_escaped(out: &mut String, f: &str)
    ensures
        final(out)@ == old(out)@ + escape(f@),
{
    let n = f.unicode_len();
    let mut i: usize = 0;
    proof {
        assert(f@.subrange(0, 0) =~= Seq::<char>::empty());
        assert(out@ + escape(f@.subrange(0, 0)) =~= out@);
    }
    while i < n
        invariant
            i <= n,
            n == f@.len(),
            out@ == old(out)@ + escape(f@.subrange(0, i as int)),
        decreases n - i,
    {
        let c = f.get_char(i);
        let u = c as u32;
        if u == 34 || u == 92 {
            proof {
                assert(c == '"' || c == '\\');
            }
            push_char(out, '\\');
            push_char(out, c);
        } else {
            proof {
                assert(c != '"' && c != '\\');
            }
            push_char(out, c);
        }
        proof {
            lemma_escape_snoc(f@.subrange(0, i as int), f@[i as int]);
            assert(f@.subrange(0, i + 1) =~= f@.subrange(0, i as int).push(f@[i as int]));
            assert(out@ =~= old(out)@ + escape(f@.subrange(0, i + 1)));
        }
        i = i + 1;
    }
    proof {
        assert(f@.subrange(0, n as int) =~= f@);
    }
}

/// Appends the decimal digits of `n` to `out`.
fn push_u64(out: &mut String, n: u64)
    ensures
        final(out)@ == old(out)@ + dec_digits(n as nat),
    decreases n,
{
    if n >= 10 {
        push_u64(out, n / 10);
    }
    let d = (n % 10) as u8;
    push_char(out, (48 + d) as char);
    proof {
        if n < 10 {
            assert(dec_digits(n as nat) =~= seq![digit_char(n as nat)]);
            assert(digit_char(n as nat) == ((48 + n % 10) as u8) as char);
        }
        assert(out@ =~= old(out)@ + dec_digits(n as nat));
    }
}

/// Renders a session as the canonical single-object record.
pub fn encode_session(s: &Session) -> (out: String)
    ensures
        out@ == spec_encode_session(s@),
{
    let mut out = String::new();
    out.append("{\"access_token\":\"");
    push_escaped(&mut out, s.access_token.as_str());
    push_char(&mut out, '"');
    out.append(",\"refresh_token\":\"");
    push_escaped(&mut out, s.refresh_token.as_str());
    push_char(&mut out, '"');
    out.append(",\"expires_at\":");
    push_u64(&mut out, s.expires_at);
    out.append(",\"user_email\":\"");
    push_escaped(&mut out, s.user_email.as_str());
    push_char(&mut out, '"');
    push_char(&mut out, '}');
    proof {
        assert(out@ =~= spec_encode_session(s@));
    }
    out
}

} // verus!
