//! Text building: joining, decimal numerals and identifier checks.
use vstd::prelude::*;
use vstd::string::StringExecFns;

verus! {

/// `String::push` of std: the character is put behind the text.
pub assume_specification[ String::push ](s: &mut String, c: char)
    ensures
        final(s)@ == old(s)@.push(c),
;

/// Whether the two texts hold the same characters.
pub fn same_text(a: &str, b: &str) -> (same: bool)
    ensures
        same == (a@ == b@),
{
    a.to_owned() == b.to_owned()
}

/// The characters of `s` as a vector.
pub fn characters(s: &str) -> (chars: Vec<char>)
    ensures
        chars@ == s@,
{
    let mut chars: Vec<char> = Vec::new();
    for c in it: s.chars()
        invariant
            it.seq() == s@,
            chars@ == s@.take(it.index() as int),
    {
        chars.push(c);
    }
    assert(s@.take(s@.len() as int) == s@);
    chars
}

// ---------------------------------------------------------------------------
// Identifiers
// ---------------------------------------------------------------------------

/// An ASCII letter, an ASCII digit or an underscore.
pub open spec fn identifier_char(c: char) -> bool {
    ('a' <= c && c <= 'z') || ('A' <= c && c <= 'Z') || ('0' <= c && c <= '9') || c == '_'
}

/// A non-empty text of identifier characters.
pub open spec fn safe_identifier(s: Seq<char>) -> bool {
    s.len() > 0 && forall|i: int| 0 <= i < s.len() ==> identifier_char(#[trigger] s[i])
}

/// Whether `s` can be embedded in a statement as a name: filter keys, facet
/// fields, sort fields and highlight fields cannot be bound as parameters.
pub fn is_safe_identifier(s: &str) -> (safe: bool)
    ensures
        safe == safe_identifier(s@),
{
    let mut safe: bool = !s.is_empty();
    for c in it: s.chars()
        invariant
            it.seq() == s@,
            safe == (s@.len() > 0 && forall|i: int|
                0 <= i < it.index() ==> identifier_char(#[trigger] s@[i])),
    {
        let letter: bool = ('a' <= c && c <= 'z') || ('A' <= c && c <= 'Z');
        let digit: bool = '0' <= c && c <= '9';
        if !(letter || digit || c == '_') {
            safe = false;
        }
    }
    safe
}

// ---------------------------------------------------------------------------
// Joining
// ---------------------------------------------------------------------------

/// The texts behind each other, with `separator` between neighbours.
pub open spec fn joined(texts: Seq<Seq<char>>, separator: Seq<char>) -> Seq<char>
    decreases texts.len(),
{
    if texts.len() == 0 {
        Seq::empty()
    } else if texts.len() == 1 {
        texts[0]
    } else {
        joined(texts.drop_last(), separator) + separator + texts.last()
    }
}

/// The characters of each text.
pub open spec fn views(texts: Seq<String>) -> Seq<Seq<char>> {
    Seq::new(texts.len(), |i: int| texts[i]@)
}

/// The characters of a text, where there is one.
pub open spec fn optional_view(text: Option<String>) -> Option<Seq<char>> {
    match text {
        Some(t) => Some(t@),
        None => None,
    }
}

/// Puts `separator` between the texts.
pub fn join(texts: &Vec<String>, separator: &str) -> (text: String)
    ensures
        text@ == joined(views(texts@), separator@),
{
    let mut text: String = String::new();
    let mut i: usize = 0;
    while i < texts.len()
        invariant
            i <= texts.len(),
            text@ == joined(views(texts@).take(i as int), separator@),
        decreases texts.len() - i,
    {
        proof {
            let shorter = views(texts@).take(i as int);
            let longer = views(texts@).take(i + 1);
            assert(longer.drop_last() == shorter);
            assert(longer.last() == texts@[i as int]@);
        }
        if i > 0 {
            text.append(separator);
        }
        text.append(texts[i].as_str());
        i += 1;
    }
    proof {
        assert(views(texts@).take(texts.len() as int) == views(texts@));
    }
    text
}

/// Joining one more text puts the separator and the text behind the rest.
pub proof fn lemma_joined_push(texts: Seq<Seq<char>>, last: Seq<char>, separator: Seq<char>)
    ensures
        texts.len() > 0 ==> joined(texts.push(last), separator) == joined(texts, separator)
            + separator + last,
        texts.len() == 0 ==> joined(texts.push(last), separator) == last,
{
    assert(texts.push(last).drop_last() == texts);
}

// ---------------------------------------------------------------------------
// Decimal numerals
// ---------------------------------------------------------------------------

/// The character of a digit.
pub open spec fn digit(d: nat) -> char
    recommends
        d < 10,
{
    (('0' as nat) + d) as char
}

/// The decimal numeral of a natural number, without leading zeros.
pub open spec fn decimal(n: nat) -> Seq<char>
    decreases n,
{
    if n < 10 {
        seq![digit(n)]
    } else {
        decimal(n / 10).push(digit(n % 10))
    }
}

/// The decimal numeral of an integer, with a minus sign below zero.
pub open spec fn signed_decimal(n: int) -> Seq<char> {
    if n < 0 {
        seq!['-'] + decimal((-n) as nat)
    } else {
        decimal(n as nat)
    }
}

/// Puts the decimal numeral of `n` behind `text`.
pub fn push_decimal(text: &mut String, n: u64)
    ensures
        final(text)@ == old(text)@ + decimal(n as nat),
    decreases n,
{
    if n >= 10 {
        push_decimal(text, n / 10);
    }
    let d: u8 = (n % 10) as u8;
    text.push((48u8 + d) as char);
    proof {
        assert(text@ == old(text)@ + decimal(n as nat));
    }
}

/// The decimal numeral of `n`.
pub fn signed_numeral(n: i64) -> (text: String)
    ensures
        text@ == signed_decimal(n as int),
{
    let mut text: String = String::new();
    if n < 0 {
        text.push('-');
        let magnitude: u64 = if n == i64::MIN { 9223372036854775808u64 } else { (-n) as u64 };
        push_decimal(&mut text, magnitude);
    } else {
        push_decimal(&mut text, n as u64);
    }
    text
}

// ---------------------------------------------------------------------------
// Reading integers
// ---------------------------------------------------------------------------

/// A decimal digit.
pub open spec fn is_digit(c: char) -> bool {
    '0' <= c && c <= '9'
}

/// A non-empty text of decimal digits.
pub open spec fn all_digits(s: Seq<char>) -> bool {
    s.len() > 0 && forall|i: int| 0 <= i < s.len() ==> is_digit(#[trigger] s[i])
}

/// The number that a text of decimal digits denotes.
pub open spec fn digits_value(s: Seq<char>) -> nat
    decreases s.len(),
{
    if s.len() == 0 {
        0
    } else {
        (digits_value(s.drop_last()) * 10 + (s.last() as nat - '0' as nat)) as nat
    }
}

/// The integer that a text denotes: an optional sign and then digits only.
pub open spec fn denoted_integer(s: Seq<char>) -> Option<int> {
    if s.len() > 0 && s[0] == '-' {
        if all_digits(s.skip(1)) {
            Some(-(digits_value(s.skip(1)) as int))
        } else {
            None
        }
    } else if s.len() > 0 && s[0] == '+' {
        if all_digits(s.skip(1)) {
            Some(digits_value(s.skip(1)) as int)
        } else {
            None
        }
    } else if all_digits(s) {
        Some(digits_value(s) as int)
    } else {
        None
    }
}

/// The integer that a text denotes, where it is an `i64`.
pub open spec fn denoted_i64(s: Seq<char>) -> Option<i64> {
    match denoted_integer(s) {
        Some(n) => if i64::MIN <= n <= i64::MAX {
            Some(n as i64)
        } else {
            None
        },
        None => None,
    }
}

/// The value of the digits from `start` on, `None` where one of them is no
/// digit, where there is none, or where the value is above `2^63`.
fn read_digits(chars: &Vec<char>, start: usize) -> (value: Option<u64>)
    requires
        start <= chars@.len(),
    ensures
        match value {
            Some(v) => all_digits(chars@.skip(start as int)) && v == digits_value(
                chars@.skip(start as int),
            ) && v <= 0x8000_0000_0000_0000,
            None => !all_digits(chars@.skip(start as int)) || digits_value(
                chars@.skip(start as int),
            ) > 0x8000_0000_0000_0000,
        },
{
    let ghost digits = chars@.skip(start as int);
    if start == chars.len() {
        return None;
    }
    let mut value: u64 = 0;
    let mut above: bool = false;
    let mut i: usize = start;
    while i < chars.len()
        invariant
            start <= i <= chars@.len(),
            digits == chars@.skip(start as int),
            forall|k: int| 0 <= k < i - start ==> is_digit(#[trigger] digits[k]),
            above ==> digits_value(digits.take(i - start)) > 0x8000_0000_0000_0000,
            !above ==> value == digits_value(digits.take(i - start)) && value
                <= 0x8000_0000_0000_0000,
        decreases chars.len() - i,
    {
        let c: char = chars[i];
        assert(digits[i - start] == c);
        if !('0' <= c && c <= '9') {
            assert(!is_digit(digits[i - start]));
            return None;
        }
        proof {
            assert(digits.take(i - start + 1).drop_last() == digits.take(i - start));
            assert(digits.take(i - start + 1).last() == c);
        }
        if !above {
            let next: u128 = (value as u128) * 10 + ((c as u32) - 48) as u128;
            if next > 0x8000_0000_0000_0000 {
                above = true;
            } else {
                value = next as u64;
            }
        }
        i += 1;
    }
    assert(digits.take(digits.len() as int) == digits);
    if above {
        None
    } else {
        Some(value)
    }
}

/// Reads an `i64`: an optional `+` or `-` and then decimal digits only.
pub fn parse_i64(s: &str) -> (n: Option<i64>)
    ensures
        n == denoted_i64(s@),
{
    let chars: Vec<char> = characters(s);
    if chars.len() == 0 {
        return None;
    }
    assert(chars@.skip(0) == chars@);
    if chars[0] == '-' {
        match read_digits(&chars, 1) {
            Some(v) => if v == 0x8000_0000_0000_0000 {
                Some(i64::MIN)
            } else {
                Some(-(v as i64))
            },
            None => None,
        }
    } else {
        let start: usize = if chars[0] == '+' { 1 } else { 0 };
        match read_digits(&chars, start) {
            Some(v) => if v == 0x8000_0000_0000_0000 {
                None
            } else {
                Some(v as i64)
            },
            None => None,
        }
    }
}

proof fn lemma_decimal_digits(n: nat)
    ensures
        all_digits(decimal(n)),
        digits_value(decimal(n)) == n,
    decreases n,
{
    reveal_with_fuel(digits_value, 2);
    if n < 10 {
        assert(decimal(n).drop_last().len() == 0);
    } else {
        lemma_decimal_digits(n / 10);
        assert(decimal(n).drop_last() == decimal(n / 10));
        assert(n == (n / 10) * 10 + n % 10);
    }
}

/// Reading a numeral gives back the number that it was written for.
pub proof fn lemma_numeral_reads_back(n: i64)
    ensures
        denoted_i64(signed_decimal(n as int)) == Some(n),
{
    if n < 0 {
        lemma_decimal_digits((-n) as nat);
        assert(signed_decimal(n as int).skip(1) == decimal((-n) as nat));
    } else {
        lemma_decimal_digits(n as nat);
        let s = decimal(n as nat);
        assert(is_digit(s[0]));
    }
}

/// No two natural numbers have the same numeral.
pub proof fn lemma_decimal_injective(m: nat, n: nat)
    requires
        decimal(m) == decimal(n),
    ensures
        m == n,
{
    lemma_decimal_digits(m);
    lemma_decimal_digits(n);
}

// ---------------------------------------------------------------------------
// Laws
// ---------------------------------------------------------------------------

/// What can be embedded holds letters, digits and underscores of the basic Latin alphabet and
/// nothing else: no quote, no space and no sign ends it. A text of such characters can be
/// embedded, unless it is empty.
pub proof fn lemma_what_can_be_embedded(s: Seq<char>)
    ensures
        safe_identifier(s) ==> s.len() > 0 && forall|i: int|
            0 <= i < s.len() ==> {
                let c = #[trigger] s[i];
                &&& c != '\'' && c != '"' && c != ' ' && c != ';' && c != '-' && c != '(' && c != ')'
                &&& 48 <= c as int <= 57 || 65 <= c as int <= 90 || c as int == 95 || 97 <= c as int
                    <= 122
            },
        s.len() > 0 && (forall|i: int|
            0 <= i < s.len() ==> {
                let c = #[trigger] s[i];
                48 <= c as int <= 57 || 65 <= c as int <= 90 || c as int == 95 || 97 <= c as int
                    <= 122
            }) ==> safe_identifier(s),
{
    if s.len() > 0 && (forall|i: int|
        0 <= i < s.len() ==> {
            let c = #[trigger] s[i];
            48 <= c as int <= 57 || 65 <= c as int <= 90 || c as int == 95 || 97 <= c as int <= 122
        }) {
        assert forall|i: int| 0 <= i < s.len() implies identifier_char(#[trigger] s[i]) by {
            let c = s[i];
            assert(48 <= c as int <= 57 || 65 <= c as int <= 90 || c as int == 95 || 97 <= c as int
                <= 122);
        }
    }
}

/// Two texts that can be embedded can be embedded as one, and only such.
pub proof fn lemma_embedded_parts(a: Seq<char>, b: Seq<char>)
    requires
        a.len() > 0,
        b.len() > 0,
    ensures
        safe_identifier(a + b) <==> safe_identifier(a) && safe_identifier(b),
{
    if safe_identifier(a + b) {
        assert forall|i: int| 0 <= i < a.len() implies identifier_char(#[trigger] a[i]) by {
            assert((a + b)[i] == a[i]);
        }
        assert forall|i: int| 0 <= i < b.len() implies identifier_char(#[trigger] b[i]) by {
            assert((a + b)[a.len() + i] == b[i]);
        }
    }
}

/// No texts are joined to the empty text, and one text to itself.
pub proof fn lemma_joined_few(text: Seq<char>, separator: Seq<char>)
    ensures
        joined(Seq::<Seq<char>>::empty(), separator).len() == 0,
        joined(seq![text], separator) == text,
{
}

/// Joining two lists of texts is joining what each is joined to.
pub proof fn lemma_joined_lists(a: Seq<Seq<char>>, b: Seq<Seq<char>>, separator: Seq<char>)
    requires
        a.len() > 0,
        b.len() > 0,
    ensures
        joined(a + b, separator) == joined(a, separator) + separator + joined(b, separator),
    decreases b.len(),
{
    let last = b.last();
    if b.len() == 1 {
        assert(a + b =~= a.push(b[0]));
        lemma_joined_push(a, b[0], separator);
    } else {
        let shorter = b.drop_last();
        lemma_joined_lists(a, shorter, separator);
        assert(a + b =~= (a + shorter).push(last));
        lemma_joined_push(a + shorter, last, separator);
        assert(b =~= shorter.push(last));
        lemma_joined_push(shorter, last, separator);
        assert(joined(a + b, separator) =~= joined(a, separator) + separator + joined(b, separator));
    }
}

/// The numeral of a digit is that digit, and one more digit behind a number stands behind its
/// numeral.
pub proof fn lemma_numeral_by_digit(n: nat, d: nat)
    requires
        d < 10,
    ensures
        decimal(d).len() == 1,
        decimal(d)[0] as int == 48 + d,
        n > 0 ==> decimal(10 * n + d) == decimal(n) + decimal(d),
{
    if n > 0 {
        assert((10 * n + d) / 10 == n);
        assert((10 * n + d) % 10 == d);
        assert(decimal(10 * n + d) =~= decimal(n) + decimal(d));
    }
}

/// A sign in front is read: a plus changes nothing, and a minus turns the number round.
pub proof fn lemma_sign_is_read(n: nat)
    requires
        n <= i64::MAX,
    ensures
        denoted_i64(decimal(n)) == Some(n as i64),
        denoted_i64(seq!['+'] + decimal(n)) == Some(n as i64),
        denoted_i64(seq!['-'] + decimal(n)) == Some((-n) as i64),
{
    lemma_decimal_digits(n);
    assert((seq!['+'] + decimal(n)).skip(1) =~= decimal(n));
    assert((seq!['-'] + decimal(n)).skip(1) =~= decimal(n));
    assert(is_digit(decimal(n)[0]));
}

/// A text with anything but digits behind its sign, or without a digit, denotes no number;
/// nor does one that is too large.
pub proof fn lemma_no_number_read(s: Seq<char>, i: int)
    ensures
        s.len() == 0 ==> denoted_i64(s) is None,
        s.len() == 1 && (s[0] == '+' || s[0] == '-') ==> denoted_i64(s) is None,
        0 <= i < s.len() && !('0' <= s[i] && s[i] <= '9') && (i > 0 || (s[0] != '+' && s[0] != '-'))
            ==> denoted_i64(s) is None,
        denoted_i64(decimal(9223372036854775808)) is None,
        denoted_i64(seq!['-'] + decimal(9223372036854775808)) == Some(i64::MIN),
{
    if 0 < i < s.len() && !('0' <= s[i] && s[i] <= '9') {
        assert(s.skip(1)[i - 1] == s[i]);
    }
    let n: nat = 9223372036854775808;
    lemma_decimal_digits(n);
    assert(is_digit(decimal(n)[0]));
    assert((seq!['-'] + decimal(n)).skip(1) =~= decimal(n));
}

/// One more digit behind the digits of a number is read: the number counts ten times, and the
/// digit is added. A digit alone denotes itself, so zeros in front do not count.
pub proof fn lemma_one_more_digit_read(s: Seq<char>, c: char)
    requires
        s.len() > 0,
        '0' <= s[0] && s[0] <= '9',
        denoted_i64(s) is Some,
        '0' <= c && c <= '9',
    ensures
        denoted_i64(s)->0 >= 0,
        10 * denoted_i64(s)->0 + (c as int - 48) <= i64::MAX ==> denoted_i64(s.push(c)) == Some(
            (10 * denoted_i64(s)->0 + (c as int - 48)) as i64,
        ),
        10 * denoted_i64(s)->0 + (c as int - 48) > i64::MAX ==> denoted_i64(s.push(c)) is None,
        denoted_i64(seq![c]) == Some((c as int - 48) as i64),
{
    let longer = s.push(c);
    assert(longer.drop_last() =~= s);
    assert(longer[0] == s[0]);
    assert(all_digits(longer)) by {
        assert forall|i: int| 0 <= i < longer.len() implies is_digit(#[trigger] longer[i]) by {
            if i < s.len() {
                assert(longer[i] == s[i]);
            }
        }
    }
    reveal_with_fuel(digits_value, 2);
    assert(seq![c].drop_last().len() == 0);
    assert(all_digits(seq![c]));
}

} // verus!
