//! Named parameters: a statement is written with `:name`, and sent with `$1`,
//! `$2`, ... in the order in which the names first appear.
use vstd::prelude::*;

use crate::search::placeholder;
use crate::text::{
    characters, decimal, identifier_char, push_decimal, safe_identifier, same_text, views,
};

verus! {

/// Whether a parameter starts at position `i`: a colon before an identifier. A
/// colon after another one belongs to a cast.
pub open spec fn starts_parameter(s: Seq<char>, i: int) -> bool {
    &&& 0 <= i
    &&& i + 1 < s.len()
    &&& s[i] == ':'
    &&& i == 0 || s[i - 1] != ':'
    &&& identifier_char(s[i + 1])
}

/// Where the identifier ends that position `i` is in.
pub open spec fn name_end(s: Seq<char>, i: int) -> int
    decreases s.len() - i,
{
    if 0 <= i < s.len() && identifier_char(s[i]) {
        name_end(s, i + 1)
    } else {
        i
    }
}

/// An identifier ends at the first character that is none, at the latest where the text
/// does.
pub proof fn lemma_name_end(s: Seq<char>, i: int)
    requires
        0 <= i <= s.len(),
    ensures
        i <= name_end(s, i) <= s.len(),
        forall|k: int| i <= k < name_end(s, i) ==> identifier_char(#[trigger] s[k]),
        name_end(s, i) < s.len() ==> !identifier_char(s[name_end(s, i)]),
    decreases s.len() - i,
{
    if i < s.len() && identifier_char(s[i]) {
        lemma_name_end(s, i + 1);
    }
}

/// The name of the parameter that starts at position `i`.
pub open spec fn parameter_name(s: Seq<char>, i: int) -> Seq<char> {
    s.subrange(i + 1, name_end(s, i + 1))
}

/// The names with one more, where it is new.
pub open spec fn with_name(names: Seq<Seq<char>>, name: Seq<char>) -> Seq<Seq<char>> {
    if names.contains(name) {
        names
    } else {
        names.push(name)
    }
}

/// The names of the parameters from position `i` on, in the order of their first
/// appearance, after those that are known.
pub open spec fn names_from(s: Seq<char>, i: int, known: Seq<Seq<char>>) -> Seq<Seq<char>>
    decreases s.len() - i,
{
    if i < 0 || i >= s.len() {
        known
    } else if starts_parameter(s, i) {
        proof {
            lemma_name_end(s, i + 1);
        }
        names_from(s, name_end(s, i + 1), with_name(known, parameter_name(s, i)))
    } else {
        names_from(s, i + 1, known)
    }
}

/// The text from position `i` on, with each parameter by the place of its name, after
/// the names that are known.
pub open spec fn numbered_from(s: Seq<char>, i: int, known: Seq<Seq<char>>) -> Seq<char>
    decreases s.len() - i,
{
    if i < 0 || i >= s.len() {
        seq![]
    } else if starts_parameter(s, i) {
        proof {
            lemma_name_end(s, i + 1);
        }
        let name = parameter_name(s, i);
        let names = with_name(known, name);
        placeholder((names.index_of(name) + 1) as nat) + numbered_from(
            s,
            name_end(s, i + 1),
            names,
        )
    } else {
        seq![s[i]] + numbered_from(s, i + 1, known)
    }
}

/// The names of the parameters of a statement, in the order in which their values
/// are bound.
pub open spec fn parameter_names(sql: Seq<char>) -> Seq<Seq<char>> {
    names_from(sql, 0, seq![])
}

/// The statement with each parameter by its place in that order, from one.
pub open spec fn numbered(sql: Seq<char>) -> Seq<char> {
    numbered_from(sql, 0, seq![])
}

/// Whether a letter, a digit or an underscore of the basic Latin alphabet.
fn is_identifier_char(c: char) -> (yes: bool)
    ensures
        yes == identifier_char(c),
{
    ('a' <= c && c <= 'z') || ('A' <= c && c <= 'Z') || ('0' <= c && c <= '9') || c == '_'
}

/// Where the name is among the names.
fn find_name(names: &Vec<String>, name: &str) -> (place: Option<usize>)
    ensures
        match place {
            Some(i) => i < names@.len() && views(names@)[i as int] == name@ && forall|k: int|
                0 <= k < i ==> views(names@)[k] != name@,
            None => !views(names@).contains(name@),
        },
{
    let mut i: usize = 0;
    while i < names.len()
        invariant
            i <= names@.len(),
            forall|k: int| 0 <= k < i ==> views(names@)[k] != name@,
        decreases names.len() - i,
    {
        if same_text(names[i].as_str(), name) {
            return Some(i);
        }
        i += 1;
    }
    None
}

/// The text of the identifier from `start` on, and where it ends.
fn read_name(chars: &Vec<char>, start: usize) -> (read: (String, usize))
    requires
        start <= chars@.len(),
    ensures
        read.1 == name_end(chars@, start as int),
        start <= read.1 <= chars@.len(),
        read.0@ == chars@.subrange(start as int, read.1 as int),
{
    let mut name: String = String::new();
    let mut end: usize = start;
    while end < chars.len() && is_identifier_char(chars[end])
        invariant
            start <= end <= chars@.len(),
            name@ == chars@.subrange(start as int, end as int),
            name_end(chars@, start as int) == name_end(chars@, end as int),
        decreases chars.len() - end,
    {
        name.push(chars[end]);
        end += 1;
    }
    (name, end)
}

/// Whether a parameter starts at position `i`.
fn is_parameter_start(chars: &Vec<char>, i: usize) -> (yes: bool)
    requires
        i < chars@.len(),
    ensures
        yes == starts_parameter(chars@, i as int),
{
    chars[i] == ':' && chars.len() - i > 1 && (i == 0 || chars[i - 1] != ':')
        && is_identifier_char(chars[i + 1])
}

/// A statement with numbered parameters.
#[derive(Debug)]
pub struct NumberedStatement {
    /// The text of the statement.
    pub sql: String,
    /// The names of the parameters, in the order of their numbers.
    pub names: Vec<String>,
}

/// Numbers the parameters of a statement in the order in which they first appear.
pub fn number_parameters(sql: &str) -> (statement: NumberedStatement)
    ensures
        statement.sql@ == numbered(sql@),
        views(statement.names@) == parameter_names(sql@),
{
    let chars: Vec<char> = characters(sql);
    let mut names: Vec<String> = Vec::new();
    let mut text: String = String::new();
    let mut i: usize = 0;
    assert(views(names@) == Seq::<Seq<char>>::empty());
    assert(text@ + numbered(sql@) == numbered(sql@));
    while i < chars.len()
        invariant
            i <= chars@.len(),
            chars@ == sql@,
            views(names@).no_duplicates(),
            names_from(sql@, i as int, views(names@)) == parameter_names(sql@),
            text@ + numbered_from(sql@, i as int, views(names@)) == numbered(sql@),
        decreases chars.len() - i,
    {
        let ghost before = names@;
        let ghost done = text@;
        if is_parameter_start(&chars, i) {
            let (name, end): (String, usize) = read_name(&chars, i + 1);
            let ghost word = name@;
            text.push('$');
            let place: usize = match find_name(&names, name.as_str()) {
                Some(place) => place,
                None => {
                    names.push(name);
                    assert(views(names@) == views(before).push(word));
                    names.len() - 1
                },
            };
            assert(views(names@) == with_name(views(before), word));
            assert(views(names@)[place as int] == word);
            assert(views(names@).index_of(word) == place);
            assert(place < names.len());
            push_decimal(&mut text, place as u64 + 1);
            proof {
                reveal_strlit("$");
                assert(text@ == done + placeholder((place + 1) as nat));
                assert(done + numbered_from(sql@, i as int, views(before)) == text@ + numbered_from(
                    sql@,
                    end as int,
                    views(names@),
                ));
            }
            i = end;
        } else {
            text.push(chars[i]);
            proof {
                assert(done + numbered_from(sql@, i as int, views(before)) == text@ + numbered_from(
                    sql@,
                    i + 1,
                    views(names@),
                ));
            }
            i += 1;
        }
    }
    assert(text@ == numbered(sql@));
    NumberedStatement { sql: text, names }
}

// ---------------------------------------------------------------------------
// Laws
// ---------------------------------------------------------------------------

/// Each name stands once among the names, and those known before stay in front.
proof fn lemma_names_extend(s: Seq<char>, i: int, known: Seq<Seq<char>>)
    requires
        known.no_duplicates(),
    ensures
        names_from(s, i, known).no_duplicates(),
        known.is_prefix_of(names_from(s, i, known)),
    decreases s.len() - i,
{
    if 0 <= i < s.len() {
        if starts_parameter(s, i) {
            lemma_name_end(s, i + 1);
            lemma_names_extend(s, name_end(s, i + 1), with_name(known, parameter_name(s, i)));
        } else {
            lemma_names_extend(s, i + 1, known);
        }
    }
}

/// No value is bound twice: the names of the parameters are distinct.
pub proof fn lemma_names_distinct(sql: Seq<char>)
    ensures
        parameter_names(sql).no_duplicates(),
{
    lemma_names_extend(sql, 0, seq![]);
}

/// The text from position `i` on, with each parameter by the place of its name among all
/// the names.
pub open spec fn numbered_by(s: Seq<char>, i: int, names: Seq<Seq<char>>) -> Seq<char>
    decreases s.len() - i,
{
    if i < 0 || i >= s.len() {
        seq![]
    } else if starts_parameter(s, i) {
        proof {
            lemma_name_end(s, i + 1);
        }
        placeholder((names.index_of(parameter_name(s, i)) + 1) as nat) + numbered_by(
            s,
            name_end(s, i + 1),
            names,
        )
    } else {
        seq![s[i]] + numbered_by(s, i + 1, names)
    }
}

proof fn lemma_place_stays(names: Seq<Seq<char>>, all: Seq<Seq<char>>, name: Seq<char>)
    requires
        names.is_prefix_of(all),
        all.no_duplicates(),
        names.contains(name),
    ensures
        all.index_of(name) == names.index_of(name),
{
    let k = names.index_of(name);
    assert(0 <= k < names.len() && names[k] == name);
    assert(all[k] == name);
}

proof fn lemma_numbers_are_final(s: Seq<char>, i: int, known: Seq<Seq<char>>)
    requires
        known.no_duplicates(),
    ensures
        numbered_from(s, i, known) == numbered_by(s, i, names_from(s, i, known)),
    decreases s.len() - i,
{
    if 0 <= i < s.len() {
        if starts_parameter(s, i) {
            lemma_name_end(s, i + 1);
            let name = parameter_name(s, i);
            let names = with_name(known, name);
            let all = names_from(s, i, known);
            assert(names.contains(name)) by {
                if !known.contains(name) {
                    assert(names[known.len() as int] == name);
                }
            }
            lemma_names_extend(s, name_end(s, i + 1), names);
            lemma_place_stays(names, all, name);
            lemma_numbers_are_final(s, name_end(s, i + 1), names);
        } else {
            lemma_numbers_are_final(s, i + 1, known);
        }
    }
}

/// Each parameter is sent as the place, from one, of its name in the order of binding.
pub proof fn lemma_numbers_are_places(sql: Seq<char>)
    ensures
        numbered(sql) == numbered_by(sql, 0, parameter_names(sql)),
{
    lemma_numbers_are_final(sql, 0, seq![]);
}

proof fn lemma_unnamed_from(s: Seq<char>, i: int, known: Seq<Seq<char>>)
    requires
        0 <= i <= s.len(),
        forall|k: int| i <= k < s.len() ==> !#[trigger] starts_parameter(s, k),
    ensures
        names_from(s, i, known) == known,
        numbered_from(s, i, known) == s.skip(i),
    decreases s.len() - i,
{
    if i < s.len() {
        assert(!starts_parameter(s, i));
        lemma_unnamed_from(s, i + 1, known);
        assert(s.skip(i) == seq![s[i]] + s.skip(i + 1));
    } else {
        assert(s.skip(i) == Seq::<char>::empty());
    }
}

/// A statement without named parameters is sent as it is written, with nothing
/// bound by name.
pub proof fn lemma_unnamed_unchanged(sql: Seq<char>)
    requires
        forall|k: int| !#[trigger] starts_parameter(sql, k),
    ensures
        numbered(sql) == sql,
        parameter_names(sql) == Seq::<Seq<char>>::empty(),
{
    lemma_unnamed_from(sql, 0, seq![]);
    assert(sql.skip(0) == sql);
}

proof fn lemma_skip_plain(s: Seq<char>, i: int, j: int, known: Seq<Seq<char>>)
    requires
        0 <= i <= j <= s.len(),
        forall|k: int| i <= k < j ==> #[trigger] s[k] != ':',
    ensures
        names_from(s, i, known) == names_from(s, j, known),
        numbered_from(s, i, known) == s.subrange(i, j) + numbered_from(s, j, known),
    decreases j - i,
{
    if i < j {
        assert(s[i] != ':');
        lemma_skip_plain(s, i + 1, j, known);
        assert(s.subrange(i, j) + numbered_from(s, j, known) =~= seq![s[i]] + (s.subrange(i + 1, j)
            + numbered_from(s, j, known)));
    } else {
        assert(s.subrange(i, j) + numbered_from(s, j, known) =~= numbered_from(s, j, known));
    }
}

proof fn lemma_name_ends(s: Seq<char>, i: int, j: int)
    requires
        0 <= i <= j <= s.len(),
        forall|k: int| i <= k < j ==> identifier_char(#[trigger] s[k]),
        j < s.len() ==> !identifier_char(s[j]),
    ensures
        name_end(s, i) == j,
    decreases j - i,
{
    if i < j {
        assert(identifier_char(s[i]));
        lemma_name_ends(s, i + 1, j);
    }
}

proof fn lemma_take_parameter(s: Seq<char>, i: int, name: Seq<char>, known: Seq<Seq<char>>)
    requires
        0 <= i,
        i + 1 + name.len() <= s.len(),
        s[i] == ':',
        i == 0 || s[i - 1] != ':',
        s.subrange(i + 1, i + 1 + name.len()) == name,
        safe_identifier(name),
        i + 1 + name.len() < s.len() ==> !identifier_char(s[i + 1 + name.len()]),
    ensures
        ({
            let names = with_name(known, name);
            let end = i + 1 + name.len();
            &&& names_from(s, i, known) == names_from(s, end, names)
            &&& numbered_from(s, i, known) == placeholder((names.index_of(name) + 1) as nat)
                + numbered_from(s, end, names)
        }),
{
    let end = i + 1 + name.len();
    assert forall|k: int| i + 1 <= k < end implies identifier_char(#[trigger] s[k]) by {
        assert(name[k - i - 1] == s[k]);
    }
    assert(identifier_char(s[i + 1]));
    lemma_name_ends(s, i + 1, end);
    assert(parameter_name(s, i) == name);
}

/// The parameters of a statement are numbered from one in the order of their names, and the
/// text around them stays as it is. Another name gets another number; the same name gets the
/// same number, and is bound once.
pub proof fn lemma_two_parameters(
    a: Seq<char>,
    x: Seq<char>,
    b: Seq<char>,
    y: Seq<char>,
    c: Seq<char>,
)
    requires
        safe_identifier(x),
        safe_identifier(y),
        forall|k: int| 0 <= k < a.len() ==> #[trigger] a[k] != ':',
        forall|k: int| 0 <= k < b.len() ==> #[trigger] b[k] != ':',
        forall|k: int| 0 <= k < c.len() ==> #[trigger] c[k] != ':',
        b.len() > 0,
        !identifier_char(b[0]),
        c.len() > 0 ==> !identifier_char(c[0]),
    ensures
        ({
            let sql = a + seq![':'] + x + b + seq![':'] + y + c;
            &&& x != y ==> parameter_names(sql) == seq![x, y] && numbered(sql) == a + "$"@ + decimal(
                1,
            ) + b + "$"@ + decimal(2) + c
            &&& x == y ==> parameter_names(sql) == seq![x] && numbered(sql) == a + "$"@ + decimal(1)
                + b + "$"@ + decimal(1) + c
        }),
{
    let s = a + seq![':'] + x + b + seq![':'] + y + c;
    let none = Seq::<Seq<char>>::empty();
    let i = a.len() as int;
    let j = i + 1 + x.len();
    let k = j + b.len();
    let l = k + 1 + y.len();
    assert forall|n: int| 0 <= n < i implies #[trigger] s[n] != ':' by {
        assert(s[n] == a[n]);
    }
    lemma_skip_plain(s, 0, i, none);
    assert(s.subrange(0, i) =~= a);
    assert(s.subrange(i + 1, j) =~= x);
    assert(s[j] == b[0]);
    assert(i > 0 ==> s[i - 1] == a[i - 1]);
    lemma_take_parameter(s, i, x, none);
    let first = with_name(none, x);
    assert(first =~= seq![x]);
    assert(first[0] == x);
    assert(first.index_of(x) == 0) by {
        assert(first.contains(x));
    }
    assert forall|n: int| j <= n < k implies #[trigger] s[n] != ':' by {
        assert(s[n] == b[n - j]);
    }
    lemma_skip_plain(s, j, k, first);
    assert(s.subrange(j, k) =~= b);
    assert(s.subrange(k + 1, l) =~= y);
    assert(s[k - 1] == b[b.len() - 1]);
    assert(l < s.len() ==> s[l] == c[0]);
    lemma_take_parameter(s, k, y, first);
    let second = with_name(first, y);
    if x == y {
        assert(first[0] == y);
        assert(second == first);
        assert(second.index_of(y) == 0);
    } else {
        assert(!first.contains(y)) by {
            if first.contains(y) {
                let n = choose|n: int| 0 <= n < first.len() && first[n] == y;
                assert(first[n] == x);
            }
        }
        assert(second =~= seq![x, y]);
        assert(second.index_of(y) == 1) by {
            assert(second[1] == y);
            assert(second.contains(y));
            let n = second.index_of(y);
            assert(0 <= n < second.len() && second[n] == y);
            assert(second[0] == x);
        }
    }
    assert forall|n: int| l <= n < s.len() implies #[trigger] s[n] != ':' by {
        assert(s[n] == c[n - l]);
    }
    lemma_skip_plain(s, l, s.len() as int, second);
    assert(s.subrange(l, s.len() as int) =~= c);
    assert(numbered_from(s, s.len() as int, second) =~= Seq::<char>::empty());
    let one = placeholder(1);
    let other = placeholder((second.index_of(y) + 1) as nat);
    assert(numbered(s) =~= a + (one + (b + (other + (c + Seq::<char>::empty())))));
    assert(numbered(s) =~= a + "$"@ + decimal(1) + b + "$"@ + decimal(
        (second.index_of(y) + 1) as nat,
    ) + c);
}

} // verus!
