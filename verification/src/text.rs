//! Small text helpers shared by the list's rules: equality of string slices,
//! whitespace trimming and case folding.
use vstd::prelude::*;
use vstd::string::*;

verus! {

/// Unicode `White_Space`, the set that `char::is_whitespace` tests for.
pub open spec fn is_white_space(c: char) -> bool {
    let n = c as u32;
    ||| 0x9 <= n <= 0xd
    ||| n == 0x20
    ||| n == 0x85
    ||| n == 0xa0
    ||| n == 0x1680
    ||| 0x2000 <= n <= 0x200a
    ||| n == 0x2028
    ||| n == 0x2029
    ||| n == 0x202f
    ||| n == 0x205f
    ||| n == 0x3000
}

/// `s` without its leading whitespace.
pub open spec fn trim_start_spec(s: Seq<char>) -> Seq<char>
    decreases s.len(),
{
    if s.len() > 0 && is_white_space(s[0]) {
        trim_start_spec(s.drop_first())
    } else {
        s
    }
}

/// `s` without its trailing whitespace.
pub open spec fn trim_end_spec(s: Seq<char>) -> Seq<char>
    decreases s.len(),
{
    if s.len() > 0 && is_white_space(s.last()) {
        trim_end_spec(s.drop_last())
    } else {
        s
    }
}

/// `s` without leading and trailing whitespace.
pub open spec fn trimmed(s: Seq<char>) -> Seq<char> {
    trim_end_spec(trim_start_spec(s))
}

/// Whether `s` holds nothing but whitespace.
pub open spec fn blank(s: Seq<char>) -> bool {
    forall|i: int| 0 <= i < s.len() ==> is_white_space(#[trigger] s[i])
}

pub proof fn lemma_trim_start_blank(s: Seq<char>)
    ensures
        trim_start_spec(s).len() == 0 <==> blank(s),
        trim_start_spec(s).len() > 0 ==> !is_white_space(trim_start_spec(s)[0]),
    decreases s.len(),
{
    if s.len() > 0 && is_white_space(s[0]) {
        lemma_trim_start_blank(s.drop_first());
        if blank(s.drop_first()) {
            assert forall|i: int| 0 <= i < s.len() implies is_white_space(#[trigger] s[i]) by {
                if i > 0 {
                    assert(s[i] == s.drop_first()[i - 1]);
                }
            }
        }
        if blank(s) {
            assert forall|i: int| 0 <= i < s.drop_first().len() implies is_white_space(
                #[trigger] s.drop_first()[i],
            ) by {
                assert(s.drop_first()[i] == s[i + 1]);
            }
        }
    } else if s.len() > 0 {
        assert(!is_white_space(s[0]));
    }
}

pub proof fn lemma_trim_end_len(s: Seq<char>)
    ensures
        s.len() > 0 && !is_white_space(s[0]) ==> trim_end_spec(s).len() > 0,
        s.len() == 0 ==> trim_end_spec(s).len() == 0,
    decreases s.len(),
{
    if s.len() > 0 && is_white_space(s.last()) {
        lemma_trim_end_len(s.drop_last());
        if s.len() > 0 && !is_white_space(s[0]) {
            assert(s.len() > 1);
            assert(s.drop_last()[0] == s[0]);
        }
    }
}

/// Trimming leaves nothing exactly when the text is blank.
pub proof fn lemma_trimmed_empty_iff_blank(s: Seq<char>)
    ensures
        trimmed(s).len() == 0 <==> blank(s),
{
    lemma_trim_start_blank(s);
    lemma_trim_end_len(trim_start_spec(s));
}

/// Trimming the end keeps a prefix, which ends in a character other than whitespace
/// unless it is empty.
pub proof fn lemma_trim_end_prefix(s: Seq<char>)
    ensures
        trim_end_spec(s).len() <= s.len(),
        trim_end_spec(s) == s.subrange(0, trim_end_spec(s).len() as int),
        trim_end_spec(s).len() > 0 ==> !is_white_space(trim_end_spec(s).last()),
    decreases s.len(),
{
    if s.len() > 0 && is_white_space(s.last()) {
        lemma_trim_end_prefix(s.drop_last());
        let r = trim_end_spec(s.drop_last());
        assert(s.drop_last().subrange(0, r.len() as int) =~= s.subrange(0, r.len() as int));
    } else {
        assert(s.subrange(0, s.len() as int) =~= s);
    }
}

/// Law: trimming a trimmed text changes nothing, so a name stored trimmed is found again
/// under itself.
pub proof fn law_trimmed_idempotent(s: Seq<char>)
    ensures
        trimmed(trimmed(s)) == trimmed(s),
{
    let a = trim_start_spec(s);
    let t = trim_end_spec(a);
    lemma_trim_start_blank(s);
    lemma_trim_end_prefix(a);
    if t.len() > 0 {
        assert(t[0] == a[0]);
        assert(trim_start_spec(t) == t);
        assert(trim_end_spec(t) == t);
    } else {
        assert(trim_start_spec(t) == t);
        assert(trim_end_spec(t) == t);
    }
}

/// Lower-casing of a text as `str::to_lowercase` does it (full Unicode case mapping).
pub uninterp spec fn lowercase(s: Seq<char>) -> Seq<char>;

/// Calls `str::trim`: the result is `s` with all leading and trailing characters
/// that have the Unicode `White_Space` property removed, as std documents it.
#[verifier::external_body]
pub(crate) fn trim(s: &str) -> (r: &str)
    ensures
        r@ == trimmed(s@),
{
    s.trim()
}

/// A character that has no lower-case mapping of its own: an ASCII character other than
/// an upper-case letter.
pub open spec fn case_fixed(c: char) -> bool {
    (c as u32) < 128 && !(65 <= (c as u32) <= 90)
}

/// Every character of `s` is `case_fixed`.
pub open spec fn all_case_fixed(s: Seq<char>) -> bool {
    forall|i: int| 0 <= i < s.len() ==> case_fixed(#[trigger] s[i])
}

/// `all_case_fixed`, one character after the other.
pub open spec fn case_fixed_from(s: Seq<char>, i: nat) -> bool
    decreases s.len() - i,
{
    if i >= s.len() {
        true
    } else {
        case_fixed(s[i as int]) && case_fixed_from(s, i + 1)
    }
}

pub proof fn lemma_case_fixed_from(s: Seq<char>, i: nat)
    requires
        case_fixed_from(s, i),
    ensures
        forall|k: int| i <= k < s.len() ==> case_fixed(#[trigger] s[k]),
    decreases s.len() - i,
{
    if i < s.len() {
        lemma_case_fixed_from(s, i + 1);
    }
}

/// Calls `str::to_lowercase`. Full Unicode case mapping takes tables to state, so
/// the result is only named: it is `lowercase` of the input. std documents that a
/// character without a lower-case mapping maps to itself, so a text made of such
/// characters alone comes back unchanged.
#[verifier::external_body]
pub(crate) fn to_lowercase(s: &str) -> (r: String)
    ensures
        r@ == lowercase(s@),
        all_case_fixed(s@) ==> r@ == s@,
{
    s.to_lowercase()
}

/// Whether two string slices hold the same characters.
pub fn str_eq(a: &str, b: &str) -> (r: bool)
    ensures
        r == (a@ == b@),
{
    let n = a.unicode_len();
    let m = b.unicode_len();
    if n != m {
        return false;
    }
    let mut i: usize = 0;
    while i < n
        invariant
            n == a@.len(),
            m == b@.len(),
            n == m,
            i <= n,
            forall|k: int| 0 <= k < i ==> a@[k] == b@[k],
        decreases n - i,
    {
        if a.get_char(i) != b.get_char(i) {
            return false;
        }
        i = i + 1;
    }
    assert(a@ =~= b@);
    true
}

/// Whether `s` is empty once leading and trailing whitespace is dropped.
pub fn is_blank(s: &str) -> (r: bool)
    ensures
        r == blank(s@),
        r == (trimmed(s@).len() == 0),
{
    proof {
        lemma_trimmed_empty_iff_blank(s@);
    }
    let t = trim(s);
    t.unicode_len() == 0
}

/// An owned copy of a string slice.
pub fn owned(s: &str) -> (r: String)
    ensures
        r@ == s@,
{
    String::from_str(s)
}

/// The concatenation of two string slices.
pub fn concat(a: &str, b: &str) -> (r: String)
    ensures
        r@ == a@ + b@,
{
    let mut r = String::from_str(a);
    r.append(b);
    r
}

/// The character of the decimal digit `d`.
pub open spec fn digit(d: int) -> char {
    (48 + d) as char
}

/// The decimal digits of `n`, most significant first, with no leading zeros.
pub open spec fn decimal_nat(n: nat) -> Seq<char>
    decreases n,
{
    if n < 10 {
        seq![digit(n as int)]
    } else {
        decimal_nat(n / 10) + seq![digit((n % 10) as int)]
    }
}

/// `n` written in decimal, with a leading `-` when negative.
pub open spec fn decimal(n: int) -> Seq<char> {
    if n < 0 {
        seq!['-'] + decimal_nat((-n) as nat)
    } else {
        decimal_nat(n as nat)
    }
}

fn digit_str(d: u32) -> (r: &'static str)
    requires
        d < 10,
    ensures
        r@ == seq![digit(d as int)],
{
    proof {
        reveal_strlit("0");
        reveal_strlit("1");
        reveal_strlit("2");
        reveal_strlit("3");
        reveal_strlit("4");
        reveal_strlit("5");
        reveal_strlit("6");
        reveal_strlit("7");
        reveal_strlit("8");
        reveal_strlit("9");
    }
    match d {
        0 => "0",
        1 => "1",
        2 => "2",
        3 => "3",
        4 => "4",
        5 => "5",
        6 => "6",
        7 => "7",
        8 => "8",
        _ => "9",
    }
}

fn push_decimal(out: &mut String, n: u32)
    ensures
        final(out)@ == old(out)@ + decimal_nat(n as nat),
    decreases n,
{
    if n >= 10 {
        push_decimal(out, n / 10);
    }
    let d = digit_str(n % 10);
    out.append(d);
    proof {
        if n >= 10 {
            assert(old(out)@ + decimal_nat((n / 10) as nat) + seq![digit((n % 10) as int)] =~= old(out)@ + decimal_nat(
                n as nat,
            ));
        } else {
            assert(old(out)@ + seq![digit((n % 10) as int)] =~= old(out)@ + decimal_nat(n as nat));
        }
    }
}

/// `n` written in decimal.
pub fn decimal_string(n: i32) -> (r: String)
    ensures
        r@ == decimal(n as int),
{
    let mut out = String::new();
    if n < 0 {
        proof {
            reveal_strlit("-");
        }
        out.append("-");
        let m: u32 = (0i64 - (n as i64)) as u32;
        push_decimal(&mut out, m);
        assert(out@ =~= seq!['-'] + decimal_nat((-n) as nat));
    } else {
        push_decimal(&mut out, n as u32);
        assert(out@ =~= decimal_nat(n as nat));
    }
    out
}

} // verus!
