//! Text helpers: case folding, substring search and decimal numbers.
use vstd::prelude::*;
use vstd::string::*;

verus! {

/// What `str::to_lowercase` makes of a text.
pub uninterp spec fn lower_of(s: Seq<char>) -> Seq<char>;

/// Relies on `str::to_lowercase`: the result depends on the characters alone.
#[verifier::external_body]
pub(crate) fn lowercase(s: &str) -> (r: String)
    ensures
        r@ == lower_of(s@),
{
    s.to_lowercase()
}

/// The characters of `s`, in order.
pub fn chars_of(s: &str) -> (r: Vec<char>)
    ensures
        r@ == s@,
{
    let n = s.unicode_len();
    let mut r: Vec<char> = Vec::new();
    let mut i: usize = 0;
    while i < n
        invariant
            n == s@.len(),
            i <= n,
            r@ == s@.subrange(0, i as int),
        decreases n - i,
    {
        r.push(s.get_char(i));
        assert(s@.subrange(0, i + 1) == s@.subrange(0, i as int).push(s@[i as int]));
        i = i + 1;
    }
    assert(s@.subrange(0, n as int) == s@);
    r
}

/// `needle` occurs in `hay` at position `i`.
pub open spec fn occurs_at(hay: Seq<char>, needle: Seq<char>, i: int) -> bool {
    0 <= i && i + needle.len() <= hay.len() && hay.subrange(i, i + needle.len()) == needle
}

/// `needle` occurs somewhere in `hay`, as `str::contains` finds it.
pub open spec fn contains_text(hay: Seq<char>, needle: Seq<char>) -> bool {
    exists|i: int| occurs_at(hay, needle, i)
}

fn occurs_at_exec(hay: &Vec<char>, needle: &Vec<char>, i: usize) -> (r: bool)
    requires
        i + needle@.len() <= hay@.len(),
    ensures
        r == occurs_at(hay@, needle@, i as int),
{
    let hlen = hay.len();
    let mut j: usize = 0;
    while j < needle.len()
        invariant
            hlen == hay@.len(),
            i + needle@.len() <= hay@.len(),
            j <= needle@.len(),
            forall|k: int| 0 <= k < j ==> hay@[i + k] == needle@[k],
        decreases needle@.len() - j,
    {
        if hay[i + j] != needle[j] {
            assert(hay@.subrange(i as int, i + needle@.len())[j as int] != needle@[j as int]);
            return false;
        }
        j = j + 1;
    }
    assert(hay@.subrange(i as int, i + needle@.len()) =~= needle@);
    true
}

/// Whether `needle` occurs in `hay`.
pub fn contains(hay: &str, needle: &str) -> (r: bool)
    ensures
        r == contains_text(hay@, needle@),
{
    let h = chars_of(hay);
    let n = chars_of(needle);
    if n.len() == 0 {
        assert(hay@.subrange(0, 0) =~= needle@);
        assert(occurs_at(hay@, needle@, 0));
        return true;
    }
    if n.len() > h.len() {
        assert forall|i: int| !occurs_at(hay@, needle@, i) by {}
        return false;
    }
    let last = h.len() - n.len();
    let mut i: usize = 0;
    while i <= last
        invariant
            h@ == hay@,
            n@ == needle@,
            n@.len() > 0,
            h@.len() <= usize::MAX,
            last == h@.len() - n@.len(),
            i <= last + 1,
            forall|k: int| 0 <= k < i ==> !occurs_at(hay@, needle@, k),
        decreases h@.len() - i,
    {
        if occurs_at_exec(&h, &n, i) {
            return true;
        }
        i = i + 1;
    }
    assert forall|k: int| !occurs_at(hay@, needle@, k) by {
        if 0 <= k < i {
        }
    }
    false
}

/// The position of the first of `names` that contains `filter`.
pub open spec fn first_containing(names: Seq<Seq<char>>, filter: Seq<char>) -> Option<int> {
    if exists|i: int| 0 <= i < names.len() && contains_text(names[i], filter) {
        Some(
            choose|i: int|
                0 <= i < names.len() && contains_text(names[i], filter) && forall|j: int|
                    0 <= j < i ==> !contains_text(names[j], filter),
        )
    } else {
        None
    }
}

/// Case-folded views of `names`.
pub open spec fn lowered_all(names: Seq<String>) -> Seq<Seq<char>> {
    names.map_values(|s: String| lower_of(s@))
}

pub open spec fn views_of(names: Seq<String>) -> Seq<Seq<char>> {
    names.map_values(|s: String| s@)
}

/// The position of the first of `names` that contains `filter`, both already
/// case-folded.
pub fn first_match_folded(names: &Vec<String>, filter: &str) -> (r: Option<usize>)
    ensures
        r matches Some(i) ==> first_containing(views_of(names@), filter@) == Some(i as int),
        r is None ==> first_containing(views_of(names@), filter@) is None,
{
    let ghost v = views_of(names@);
    let mut i: usize = 0;
    while i < names.len()
        invariant
            v == views_of(names@),
            i <= names@.len(),
            forall|j: int| 0 <= j < i ==> !contains_text(v[j], filter@),
        decreases names@.len() - i,
    {
        if contains(names[i].as_str(), filter) {
            proof {
                assert(0 <= i < v.len() && contains_text(v[i as int], filter@));
                let c = choose|k: int|
                    0 <= k < v.len() && contains_text(v[k], filter@) && forall|j: int|
                        0 <= j < k ==> !contains_text(v[j], filter@);
                assert(c == i);
            }
            return Some(i);
        }
        i = i + 1;
    }
    None
}

/// The position of the first of `names` whose lower-case form contains the
/// lower-case form of `filter`.
pub fn find_by_name(names: &Vec<String>, filter: &str) -> (r: Option<usize>)
    ensures
        r matches Some(i) ==> first_containing(lowered_all(names@), lower_of(filter@)) == Some(
            i as int,
        ),
        r is None ==> first_containing(lowered_all(names@), lower_of(filter@)) is None,
{
    let mut lowered: Vec<String> = Vec::new();
    let mut i: usize = 0;
    while i < names.len()
        invariant
            i <= names@.len(),
            views_of(lowered@) == lowered_all(names@.subrange(0, i as int)),
        decreases names@.len() - i,
    {
        let ghost before = lowered@;
        lowered.push(lowercase(names[i].as_str()));
        proof {
            let prefix = names@.subrange(0, i as int);
            assert(names@.subrange(0, i + 1) == prefix.push(names@[i as int]));
            assert(views_of(lowered@) =~= views_of(before).push(lower_of(names@[i as int]@)));
            assert(lowered_all(prefix.push(names@[i as int])) =~= lowered_all(prefix).push(
                lower_of(names@[i as int]@),
            ));
        }
        i = i + 1;
    }
    assert(names@.subrange(0, names@.len() as int) == names@);
    let f = lowercase(filter);
    first_match_folded(&lowered, f.as_str())
}

/// Whether `c` is an ASCII decimal digit.
pub open spec fn is_digit(c: char) -> bool {
    '0' <= c && c <= '9'
}

pub open spec fn all_digits(s: Seq<char>) -> bool {
    forall|i: int| 0 <= i < s.len() ==> is_digit(#[trigger] s[i])
}

/// The number that a string of decimal digits writes.
pub open spec fn digits_value(s: Seq<char>) -> nat
    decreases s.len(),
{
    if s.len() == 0 {
        0
    } else {
        digits_value(s.drop_last()) * 10 + (s.last() as nat - '0' as nat) as nat
    }
}

/// `s` without a leading `+`.
pub open spec fn unsigned_digits(s: Seq<char>) -> Seq<char> {
    if s.len() > 0 && s[0] == '+' {
        s.drop_first()
    } else {
        s
    }
}

/// What `u8::from_str` makes of `s`: an optional `+`, then at least one digit,
/// worth at most 255.
pub open spec fn u8_of(s: Seq<char>) -> Option<u8> {
    let digits = unsigned_digits(s);
    if digits.len() > 0 && all_digits(digits) && digits_value(digits) <= 255 {
        Some(digits_value(digits) as u8)
    } else {
        None
    }
}

proof fn lemma_digits_value_grows(s: Seq<char>, i: int)
    requires
        0 <= i <= s.len(),
        all_digits(s),
    ensures
        digits_value(s.subrange(0, i)) <= digits_value(s),
    decreases s.len() - i,
{
    if i < s.len() {
        lemma_digits_value_grows(s, i + 1);
        let p = s.subrange(0, i + 1);
        assert(p.drop_last() == s.subrange(0, i));
        assert(is_digit(s[i]));
    } else {
        assert(s.subrange(0, i) == s);
    }
}

/// Parse an unsigned byte in decimal, as `u8::from_str` does.
pub fn parse_u8(s: &str) -> (r: Option<u8>)
    ensures
        r == u8_of(s@),
{
    let cs = chars_of(s);
    let start: usize = if cs.len() > 0 && cs[0] == '+' {
        1
    } else {
        0
    };
    let ghost digits = unsigned_digits(s@);
    assert(digits == s@.subrange(start as int, s@.len() as int));
    if start >= cs.len() {
        assert(digits.len() == 0);
        return None;
    }
    let mut i: usize = start;
    while i < cs.len()
        invariant
            cs@ == s@,
            start <= i <= cs@.len(),
            digits == s@.subrange(start as int, s@.len() as int),
            digits == unsigned_digits(s@),
            forall|k: int| start <= k < i ==> is_digit(cs@[k]),
        decreases cs@.len() - i,
    {
        if !('0' <= cs[i] && cs[i] <= '9') {
            assert(!is_digit(digits[i - start]));
            assert(!all_digits(digits));
            return None;
        }
        i = i + 1;
    }
    assert(all_digits(digits));
    let mut value: u32 = 0;
    let mut i: usize = start;
    while i < cs.len()
        invariant
            cs@ == s@,
            start <= i <= cs@.len(),
            digits == s@.subrange(start as int, s@.len() as int),
            digits == unsigned_digits(s@),
            all_digits(digits),
            value as nat == digits_value(digits.subrange(0, i - start)),
            value <= 255,
        decreases cs@.len() - i,
    {
        assert(is_digit(digits[i - start]));
        assert(digits[i - start] == cs@[i as int]);
        let d = cs[i] as u32 - '0' as u32;
        proof {
            let p = digits.subrange(0, i + 1 - start);
            assert(p.drop_last() == digits.subrange(0, i - start));
            assert(p.last() == cs@[i as int]);
            assert(is_digit(digits[i - start]));
        }
        value = value * 10 + d;
        assert(value as nat == digits_value(digits.subrange(0, i + 1 - start)));
        if value > 255 {
            proof {
                lemma_digits_value_grows(digits, i + 1 - start);
            }
            assert(digits_value(digits) > 255);
            return None;
        }
        i = i + 1;
    }
    assert(digits.subrange(0, i - start) == digits);
    Some(value as u8)
}

/// The decimal digits of `n`, without leading zeros ("0" for zero).
pub open spec fn decimal_of(n: nat) -> Seq<char>
    decreases n,
{
    if n < 10 {
        seq![digit_char(n)]
    } else {
        decimal_of(n / 10) + seq![digit_char(n % 10)]
    }
}

pub open spec fn digit_char(d: nat) -> char {
    if d < 10 {
        ((d + '0' as nat) as u8) as char
    } else {
        '0'
    }
}

/// The decimal digits of `n`.
pub fn decimal(n: u32) -> (r: String)
    ensures
        r@ == decimal_of(n as nat),
    decreases n,
{
    proof {
        reveal_strlit("0123456789");
    }
    let digits = "0123456789";
    let d: usize = (n % 10) as usize;
    let digit = digits.substring_char(d, d + 1);
    assert(digit@ == seq![digit_char(d as nat)]) by {
        assert(digit@.len() == 1);
        assert(digit@[0] == digits@[d as int]);
    }
    if n < 10 {
        String::from_str(digit)
    } else {
        let mut r = decimal(n / 10);
        r.append(digit);
        r
    }
}

} // verus!
