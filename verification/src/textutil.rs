//! Text helpers for entry building: decimal rendering of numbers, the file
//! size label, newline-to-`<br/>` translation, file name extraction from a
//! stored path, and percent-encoding for URL embedding.

use vstd::prelude::*;
use vstd::arithmetic::div_mod::{lemma_div_multiples_vanish_fancy, lemma_fundamental_div_mod};
use vstd::string::{StrSliceExecFns, StringExecFns};

verus! {

/// The decimal digit character for `d` (only the first ten values matter).
pub open spec fn digit_char(d: nat) -> char {
    if d == 0 {
        '0'
    } else if d == 1 {
        '1'
    } else if d == 2 {
        '2'
    } else if d == 3 {
        '3'
    } else if d == 4 {
        '4'
    } else if d == 5 {
        '5'
    } else if d == 6 {
        '6'
    } else if d == 7 {
        '7'
    } else if d == 8 {
        '8'
    } else {
        '9'
    }
}

/// The decimal rendering of `n`, without a sign and without leading zeroes
/// (a single `'0'` for zero).
pub open spec fn dec_str(n: nat) -> Seq<char>
    decreases n,
{
    if n < 10 {
        seq![digit_char(n)]
    } else {
        dec_str(n / 10) + seq![digit_char(n % 10)]
    }
}

fn digit_str(d: u64) -> (r: &'static str)
    requires
        d < 10,
    ensures
        r@ == seq![digit_char(d as nat)],
{
    let r: &'static str = if d == 0 {
        "0"
    } else if d == 1 {
        "1"
    } else if d == 2 {
        "2"
    } else if d == 3 {
        "3"
    } else if d == 4 {
        "4"
    } else if d == 5 {
        "5"
    } else if d == 6 {
        "6"
    } else if d == 7 {
        "7"
    } else if d == 8 {
        "8"
    } else {
        "9"
    };
    proof {
        reveal_strlit("0");
        reveal_strlit("1");
        reveal_strlit("2");
        reveal_strlit("3");
        reveal_strlit("4");
        reveal_strlit("5");
        reveal_strlit("6");
        reveal_strlit("7");
        reveal_strlit("8");
        reveal_strlit("9");
        assert(r@ =~= seq![digit_char(d as nat)]);
    }
    r
}

/// Appends the decimal rendering of `n` to `out`.
pub fn push_dec(out: &mut String, n: u64)
    ensures
        final(out)@ == old(out)@ + dec_str(n as nat),
    decreases n,
{
    if n >= 10 {
        push_dec(out, n / 10);
    }
    out.append(digit_str(n % 10));
    proof {
        if n >= 10 {
            assert(out@ =~= old(out)@ + dec_str(n as nat));
        } else {
            assert(out@ =~= old(out)@ + dec_str(n as nat));
        }
    }
}

/// The decimal rendering of `n` as an owned string.
pub fn u64_to_dec(n: u64) -> (r: String)
    ensures
        r@ == dec_str(n as nat),
{
    let mut r = String::new();
    push_dec(&mut r, n);
    r
}

/// The size in tenths of one MiB, rounded half up.
pub open spec fn spec_size_tenths(size: u64) -> nat {
    (((size as int) * 10 + 524288) / 1048576) as nat
}

/// The file size label: whole MiB, a dot, then the tenths digit.
pub open spec fn mib_label(size: u64) -> Seq<char> {
    dec_str(spec_size_tenths(size) / 10) + "."@ + dec_str(spec_size_tenths(size) % 10)
}

/// Renders `size` bytes as MiB with one decimal place, rounding half up.
pub fn mib_string(size: u64) -> (r: String)
    ensures
        r@ == mib_label(size),
{
    let whole: u64 = size / 1048576;
    let rest: u64 = size % 1048576;
    let carry: u64 = (rest * 10 + 524288) / 1048576;
    let tenths: u64 = whole * 10 + carry;
    proof {
        let q = 1048576int;
        lemma_fundamental_div_mod(size as int, q);
        let big = (rest as int) * 10 + 524288;
        lemma_fundamental_div_mod(big, q);
        assert((size as int) * 10 + 524288 == q * (10 * (whole as int) + big / q) + big % q);
        lemma_div_multiples_vanish_fancy(10 * (whole as int) + big / q, big % q, q);
        assert(tenths as nat == spec_size_tenths(size));
    }
    let mut r = u64_to_dec(tenths / 10);
    r.append(".");
    push_dec(&mut r, tenths % 10);
    proof {
        assert(r@ =~= mib_label(size));
    }
    r
}

/// The text with every `'\n'` replaced by the four characters of `<br/>`.
pub open spec fn html_br_text(s: Seq<char>) -> Seq<char>
    decreases s.len(),
{
    if s.len() == 0 {
        Seq::empty()
    } else {
        html_br_text(s.drop_last()) + (if s.last() == '\n' {
            "<br/>"@
        } else {
            seq![s.last()]
        })
    }
}

/// Replaces every newline in `s` by a `<br/>` tag.
pub fn replace_newlines(s: &str) -> (r: String)
    ensures
        r@ == html_br_text(s@),
{
    let n = s.unicode_len();
    let mut r = String::new();
    let mut i: usize = 0;
    while i < n
        invariant
            n == s@.len(),
            i <= n,
            r@ == html_br_text(s@.subrange(0, i as int)),
        decreases n - i,
    {
        let c = s.get_char(i);
        if c == '\n' {
            r.append("<br/>");
        } else {
            r.append(s.substring_char(i, i + 1));
        }
        proof {
            let pre = s@.subrange(0, i + 1);
            assert(pre.drop_last() =~= s@.subrange(0, i as int));
            assert(pre.last() == s@[i as int]);
            if s@[i as int] != '\n' {
                assert(s@.subrange(i as int, i + 1) =~= seq![s@[i as int]]);
            }
        }
        i = i + 1;
    }
    proof {
        assert(s@.subrange(0, n as int) =~= s@);
    }
    r
}

/// Compares two string slices character by character.
pub fn str_eq(a: &str, b: &str) -> (r: bool)
    ensures
        r == (a@ == b@),
{
    let n = a.unicode_len();
    if n != b.unicode_len() {
        return false;
    }
    let mut i: usize = 0;
    while i < n
        invariant
            n == a@.len(),
            n == b@.len(),
            i <= n,
            forall|j: int| 0 <= j < i ==> a@[j] == b@[j],
        decreases n - i,
    {
        if a.get_char(i) != b.get_char(i) {
            return false;
        }
        i = i + 1;
    }
    proof {
        assert(a@ =~= b@);
    }
    true
}

/// The part of a path after its last `'/'`; the whole path when it holds
/// none, and empty when the path ends in `'/'`.
pub open spec fn path_file_name(s: Seq<char>) -> Seq<char>
    decreases s.len(),
{
    if s.len() == 0 {
        s
    } else if s.last() == '/' {
        Seq::empty()
    } else {
        path_file_name(s.drop_last()) + seq![s.last()]
    }
}

proof fn lemma_path_file_name_suffix(s: Seq<char>, k: int)
    requires
        0 <= k <= s.len(),
        forall|j: int| k <= j < s.len() ==> s[j] != '/',
        k == 0 || s[k - 1] == '/',
    ensures
        path_file_name(s) == s.subrange(k, s.len() as int),
    decreases s.len(),
{
    if k == s.len() {
        if s.len() > 0 {
            assert(path_file_name(s) =~= s.subrange(k, s.len() as int));
        } else {
            assert(path_file_name(s) =~= s.subrange(k, s.len() as int));
        }
    } else {
        assert(s.last() != '/');
        lemma_path_file_name_suffix(s.drop_last(), k);
        assert(path_file_name(s) =~= s.subrange(k, s.len() as int));
    }
}

/// The display file name of a stored path: everything after the last `'/'`.
pub fn file_name_of(path: &str) -> (r: String)
    ensures
        r@ == path_file_name(path@),
{
    let n = path.unicode_len();
    let mut cut: usize = 0;
    let mut i: usize = 0;
    while i < n
        invariant
            n == path@.len(),
            i <= n,
            cut <= i,
            forall|j: int| cut <= j < i ==> path@[j] != '/',
            cut == 0 || path@[cut - 1] == '/',
        decreases n - i,
    {
        if path.get_char(i) == '/' {
            cut = i + 1;
        }
        i = i + 1;
    }
    let r = path.substring_char(cut, n);
    proof {
        lemma_path_file_name_suffix(path@, cut as int);
    }
    r.to_owned()
}

/// What `urlencoding::encode` returns for a given text; the result depends
/// on the characters alone.
pub uninterp spec fn url_encoded(s: Seq<char>) -> Seq<char>;

/// Relies on `urlencoding::encode`: percent-encodes every byte of the UTF-8
/// form of the input except ASCII alphanumerics and `-`, `_`, `.`, `~`; a
/// pure function of its input, and empty input gives empty output.
#[verifier::external_body]
pub fn encode_component(s: &str) -> (r: String)
    ensures
        r@ == url_encoded(s@),
        s@.len() == 0 ==> r@.len() == 0,
{
    urlencoding::encode(s).into_owned()
}

} // verus!
