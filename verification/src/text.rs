//! Matching inside strings and writing numbers out in decimal.
use vstd::prelude::*;
use vstd::string::*;

use crate::utf8::text_of;

verus! {

/// `part` occurs in `whole` as a run of neighbouring characters.
pub open spec fn occurs_in(part: Seq<char>, whole: Seq<char>) -> bool {
    exists|i: int|
        0 <= i <= whole.len() - part.len() && #[trigger] whole.subrange(i, i + part.len()) == part
}

/// `whole` begins with `part`.
pub open spec fn begins_with(whole: Seq<char>, part: Seq<char>) -> bool {
    part.len() <= whole.len() && whole.take(part.len() as int) == part
}

/// `whole` ends with `part`.
pub open spec fn finishes_with(whole: Seq<char>, part: Seq<char>) -> bool {
    part.len() <= whole.len() && whole.skip(whole.len() - part.len()) == part
}

/// The decimal digit of value `d`.
pub open spec fn digit(d: nat) -> char {
    (('0' as u32) + d) as char
}

/// `n` written in decimal, without leading zeros.
pub open spec fn decimal(n: nat) -> Seq<char>
    decreases n,
{
    if n < 10 {
        seq![digit(n)]
    } else {
        decimal(n / 10).push(digit(n % 10))
    }
}

/// The characters of `s` in order.
pub fn chars_of(s: &str) -> (v: Vec<char>)
    ensures
        v@ == s@,
{
    let mut v: Vec<char> = Vec::new();
    for c in iter: s.chars()
        invariant
            iter.seq() == s@,
            v@ == iter.seq().take(iter.index() as int),
    {
        v.push(c);
    }
    v
}

/// Whether `part` stands in `whole` at the position `at`.
fn matches_at(whole: &Vec<char>, part: &Vec<char>, at: usize) -> (r: bool)
    requires
        at + part@.len() <= whole@.len(),
    ensures
        r == (whole@.subrange(at as int, at + part@.len()) == part@),
{
    let ghost window = whole@.subrange(at as int, at + part@.len());
    let total: usize = whole.len();
    let mut i: usize = 0;
    while i < part.len()
        invariant
            i <= part@.len(),
            total == whole@.len(),
            at + part@.len() <= total,
            window == whole@.subrange(at as int, at + part@.len()),
            forall|k: int| 0 <= k < i ==> window[k] == part@[k],
        decreases part@.len() - i,
    {
        if whole[at + i] != part[i] {
            assert(window[i as int] != part@[i as int]);
            return false;
        }
        i = i + 1;
    }
    assert(window =~= part@);
    true
}

/// Whether `part` occurs anywhere in `whole`.
pub fn contains(whole: &str, part: &str) -> (r: bool)
    ensures
        r == occurs_in(part@, whole@),
{
    let w = chars_of(whole);
    let p = chars_of(part);
    if p.len() > w.len() {
        return false;
    }
    let last: usize = w.len() - p.len();
    let mut i: usize = 0;
    while i <= last
        invariant
            w@ == whole@,
            p@ == part@,
            i <= last + 1,
            last == w@.len() - p@.len(),
            forall|k: int| 0 <= k < i ==> #[trigger] whole@.subrange(k, k + part@.len()) != part@,
        decreases last + 1 - i,
    {
        if matches_at(&w, &p, i) {
            return true;
        }
        if i == last {
            return false;
        }
        i = i + 1;
    }
    false
}

/// Whether `whole` begins with `part`.
pub fn starts_with(whole: &str, part: &str) -> (r: bool)
    ensures
        r == begins_with(whole@, part@),
{
    let w = chars_of(whole);
    let p = chars_of(part);
    assert(p@.len() <= w@.len() ==> w@.take(p@.len() as int) =~= w@.subrange(0, p@.len() as int));
    p.len() <= w.len() && matches_at(&w, &p, 0)
}

/// Whether `whole` ends with `part`.
pub fn ends_with(whole: &str, part: &str) -> (r: bool)
    ensures
        r == finishes_with(whole@, part@),
{
    let w = chars_of(whole);
    let p = chars_of(part);
    assert(p@.len() <= w@.len() ==> w@.skip(w@.len() - p@.len()) =~= w@.subrange(
        w@.len() - p@.len(),
        w@.len() as int,
    ));
    p.len() <= w.len() && matches_at(&w, &p, w.len() - p.len())
}

/// Whether the two strings hold the same characters.
pub fn same_text(a: &str, b: &str) -> (r: bool)
    ensures
        r == (a@ == b@),
{
    let x = chars_of(a);
    let y = chars_of(b);
    assert(x@.len() == y@.len() ==> x@.subrange(0, y@.len() as int) =~= x@);
    x.len() == y.len() && matches_at(&x, &y, 0)
}

/// The one-character string for a digit.
fn digit_text(d: u64) -> (s: &'static str)
    requires
        d < 10,
    ensures
        s@ == seq![digit(d as nat)],
{
    proof {
        reveal_strlit("0");
        reveal_strlit("1");
        reveal_strlit("2");
        reveal_strlit("3");
        reveal_strlit("4");
        reveal_strlit("5");
        reveal_strlit("6");
        reveal_strlit("7");
        reveal_strlit("8");
        reveal_strlit("9");
    }
    let s: &'static str = match d {
        0 => "0",
        1 => "1",
        2 => "2",
        3 => "3",
        4 => "4",
        5 => "5",
        6 => "6",
        7 => "7",
        8 => "8",
        _ => "9",
    };
    assert(s@ =~= seq![digit(d as nat)]);
    s
}

/// `n` in decimal.
pub fn decimal_text(n: u64) -> (s: String)
    ensures
        s@ == decimal(n as nat),
    decreases n,
{
    let mut s: String = if n < 10 {
        String::new()
    } else {
        decimal_text(n / 10)
    };
    s.append(digit_text(n % 10));
    assert(s@ =~= decimal(n as nat));
    s
}

/// The characters that Unicode counts as white space.
pub open spec fn is_white(c: char) -> bool {
    let u = c as u32;
    ||| 0x9 <= u <= 0xD
    ||| u == 0x20
    ||| u == 0x85
    ||| u == 0xA0
    ||| u == 0x1680
    ||| 0x2000 <= u <= 0x200A
    ||| u == 0x2028
    ||| u == 0x2029
    ||| u == 0x202F
    ||| u == 0x205F
    ||| u == 0x3000
}

/// `s` without the white space at both ends.
pub open spec fn trimmed(s: Seq<char>) -> Seq<char>
    decreases s.len(),
{
    if s.len() == 0 {
        s
    } else if is_white(s.first()) {
        trimmed(s.drop_first())
    } else if is_white(s.last()) {
        trimmed(s.drop_last())
    } else {
        s
    }
}

fn white(c: char) -> (b: bool)
    ensures
        b == is_white(c),
{
    let u: u32 = c as u32;
    (0x9 <= u && u <= 0xD) || u == 0x20 || u == 0x85 || u == 0xA0 || u == 0x1680 || (0x2000 <= u
        && u <= 0x200A) || u == 0x2028 || u == 0x2029 || u == 0x202F || u == 0x205F || u == 0x3000
}

/// `s` without the white space at both ends.
pub fn trim(s: &str) -> (r: String)
    ensures
        r@ == trimmed(s@),
{
    let chars = chars_of(s);
    let mut start: usize = 0;
    let mut end: usize = chars.len();
    assert(chars@.subrange(0, end as int) =~= s@);
    while start < end && white(chars[start])
        invariant
            start <= end <= chars@.len(),
            trimmed(chars@.subrange(start as int, end as int)) == trimmed(s@),
        decreases end - start,
    {
        assert(chars@.subrange(start as int, end as int).drop_first() =~= chars@.subrange(
            start + 1,
            end as int,
        ));
        start = start + 1;
    }
    while start < end && white(chars[end - 1])
        invariant
            start <= end <= chars@.len(),
            start < end ==> !is_white(chars@[start as int]),
            trimmed(chars@.subrange(start as int, end as int)) == trimmed(s@),
        decreases end - start,
    {
        assert(chars@.subrange(start as int, end as int).drop_last() =~= chars@.subrange(
            start as int,
            end - 1,
        ));
        end = end - 1;
    }
    let mut kept: Vec<char> = Vec::new();
    let mut i: usize = start;
    while i < end
        invariant
            start <= i <= end <= chars@.len(),
            kept@ == chars@.subrange(start as int, i as int),
        decreases end - i,
    {
        kept.push(chars[i]);
        i = i + 1;
        assert(kept@ =~= chars@.subrange(start as int, i as int));
    }
    text_of(kept.as_slice())
}

/// Trimming twice is trimming once.
pub proof fn law_trimming_settles(s: Seq<char>)
    ensures
        trimmed(trimmed(s)) == trimmed(s),
    decreases s.len(),
{
    if s.len() > 0 {
        if is_white(s.first()) {
            law_trimming_settles(s.drop_first());
        } else if is_white(s.last()) {
            law_trimming_settles(s.drop_last());
        }
    }
}

/// A text occurs in another exactly where the other is made of something, the text,
/// and something again; it begins or ends the other where nothing stands before or
/// behind it.
pub proof fn law_parts_make_up_the_whole(
    whole: &str,
    part: &str,
    anywhere: bool,
    front: bool,
    back: bool,
    same: bool,
)
    requires
        call_ensures(contains, (whole, part), anywhere),
        call_ensures(starts_with, (whole, part), front),
        call_ensures(ends_with, (whole, part), back),
        call_ensures(same_text, (whole, part), same),
    ensures
        anywhere <==> exists|a: Seq<char>, b: Seq<char>| whole@ == #[trigger] (a + part@ + b),
        front <==> exists|b: Seq<char>| whole@ == #[trigger] (part@ + b),
        back <==> exists|a: Seq<char>| whole@ == #[trigger] (a + part@),
        same <==> whole@ == part@,
{
    let n = part@.len() as int;
    if anywhere {
        let i = choose|i: int|
            0 <= i <= whole@.len() - n && #[trigger] whole@.subrange(i, i + n) == part@;
        assert(whole@ =~= whole@.take(i) + part@ + whole@.skip(i + n));
    }
    if exists|a: Seq<char>, b: Seq<char>| whole@ == #[trigger] (a + part@ + b) {
        let (a, b) = choose|a: Seq<char>, b: Seq<char>| whole@ == #[trigger] (a + part@ + b);
        let i = a.len() as int;
        assert(whole@.subrange(i, i + n) =~= part@);
    }
    if front {
        assert(whole@ =~= part@ + whole@.skip(n));
    }
    if exists|b: Seq<char>| whole@ == #[trigger] (part@ + b) {
        let b = choose|b: Seq<char>| whole@ == #[trigger] (part@ + b);
        assert(whole@.take(n) =~= part@);
    }
    if back {
        assert(whole@ =~= whole@.take(whole@.len() - n) + part@);
    }
    if exists|a: Seq<char>| whole@ == #[trigger] (a + part@) {
        let a = choose|a: Seq<char>| whole@ == #[trigger] (a + part@);
        assert(whole@.skip(whole@.len() - n) =~= part@);
    }
}

/// The number that a run of digits stands for.
pub open spec fn read_decimal(digits: Seq<char>) -> nat
    decreases digits.len(),
{
    if digits.len() == 0 {
        0
    } else {
        (read_decimal(digits.drop_last()) * 10 + (digits.last() as int - '0' as int)) as nat
    }
}

/// A number is written in digits that read back as the number, the first of them
/// not a zero unless it stands alone.
pub proof fn law_numbers_read_back(n: u64, s: String)
    requires
        call_ensures(decimal_text, (n,), s),
    ensures
        read_decimal(s@) == n,
        s@.len() > 0,
        s@.len() > 1 ==> s@[0] != '0',
        forall|i: int| 0 <= i < s@.len() ==> '0' <= #[trigger] s@[i] <= '9',
{
    lemma_decimal_reads_back(n as nat);
}

proof fn lemma_decimal_reads_back(n: nat)
    ensures
        read_decimal(decimal(n)) == n,
        decimal(n).len() > 0,
        n > 0 ==> decimal(n)[0] != '0',
        n < 10 ==> decimal(n).len() == 1,
        forall|i: int| 0 <= i < decimal(n).len() ==> '0' <= #[trigger] decimal(n)[i] <= '9',
    decreases n,
{
    reveal_with_fuel(read_decimal, 2);
    if n < 10 {
        assert(decimal(n).drop_last() =~= Seq::<char>::empty());
    } else {
        lemma_decimal_reads_back(n / 10);
        assert(decimal(n).drop_last() =~= decimal(n / 10));
    }
}

proof fn lemma_trimmed_is_the_middle(s: Seq<char>) -> (ends: (int, int))
    ensures
        0 <= ends.0 <= ends.1 <= s.len(),
        trimmed(s) == s.subrange(ends.0, ends.1),
        forall|i: int| 0 <= i < ends.0 || ends.1 <= i < s.len() ==> is_white(#[trigger] s[i]),
        trimmed(s).len() > 0 ==> !is_white(trimmed(s).first()) && !is_white(trimmed(s).last()),
    decreases s.len(),
{
    if s.len() == 0 {
        assert(s =~= s.subrange(0, 0));
        (0, 0)
    } else if is_white(s.first()) {
        let rest = s.drop_first();
        let (a, b) = lemma_trimmed_is_the_middle(rest);
        assert(rest.subrange(a, b) =~= s.subrange(a + 1, b + 1));
        assert forall|i: int| 0 <= i < a + 1 || b + 1 <= i < s.len() implies is_white(
            #[trigger] s[i],
        ) by {
            if i > 0 {
                assert(s[i] == rest[i - 1]);
            }
        }
        (a + 1, b + 1)
    } else if is_white(s.last()) {
        let rest = s.drop_last();
        let (a, b) = lemma_trimmed_is_the_middle(rest);
        assert(rest.subrange(a, b) =~= s.subrange(a, b));
        assert forall|i: int| 0 <= i < a || b <= i < s.len() implies is_white(#[trigger] s[i]) by {
            if i < rest.len() {
                assert(s[i] == rest[i]);
            }
        }
        (a, b)
    } else {
        assert(s =~= s.subrange(0, s.len() as int));
        (0, s.len() as int)
    }
}

/// Trimming takes nothing but white space off, at both ends, and leaves none there:
/// blanks, tabs and line ends among it, but no letter, digit or punctuation mark of
/// ASCII.
pub proof fn law_trimming_takes_white_space_off(s: &str, r: String)
    requires
        call_ensures(trim, (s,), r),
    ensures
        exists|a: Seq<char>, b: Seq<char>|
            s@ == #[trigger] (a + r@ + b) && (forall|i: int|
                0 <= i < a.len() ==> is_white(#[trigger] a[i])) && (forall|i: int|
                0 <= i < b.len() ==> is_white(#[trigger] b[i])),
        r@.len() > 0 ==> !is_white(r@.first()) && !is_white(r@.last()),
        is_white(' ') && is_white('\t') && is_white('\n') && is_white('\r'),
        forall|c: char| '!' <= c <= '~' ==> !#[trigger] is_white(c),
{
    let (i, j) = lemma_trimmed_is_the_middle(s@);
    let a = s@.take(i);
    let b = s@.skip(j);
    assert(s@ =~= a + r@ + b);
    assert forall|k: int| 0 <= k < a.len() implies is_white(#[trigger] a[k]) by {
        assert(a[k] == s@[k]);
    }
    assert forall|k: int| 0 <= k < b.len() implies is_white(#[trigger] b[k]) by {
        assert(b[k] == s@[j + k]);
    }
}

} // verus!
