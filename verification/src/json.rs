//! JSON text and JSON errors.
use crate::tenant_id::{hex_digit, lemma_hex_digit_is_unique};
use serde::de::Error;
use vstd::prelude::*;

verus! {

/// The error of the `serde_json` crate, carried through unread.
#[verifier::external_type_specification]
#[verifier::external_body]
pub struct ExJsonError(serde_json::Error);

/// How a character of a string is written inside the quotes of a JSON string.
pub open spec fn escape(c: char) -> Seq<char> {
    if c == '"' {
        seq!['\\', '"']
    } else if c == '\\' {
        seq!['\\', '\\']
    } else if c == '\x08' {
        seq!['\\', 'b']
    } else if c == '\t' {
        seq!['\\', 't']
    } else if c == '\n' {
        seq!['\\', 'n']
    } else if c == '\x0c' {
        seq!['\\', 'f']
    } else if c == '\r' {
        seq!['\\', 'r']
    } else if (c as int) < 32 {
        seq!['\\', 'u', '0', '0', hex_digit(c as int / 16), hex_digit(c as int % 16)]
    } else {
        seq![c]
    }
}

/// How a string is written inside the quotes of a JSON string.
pub open spec fn escaped(text: Seq<char>) -> Seq<char>
    decreases text.len(),
{
    if text.len() == 0 {
        Seq::empty()
    } else {
        escape(text[0]) + escaped(text.drop_first())
    }
}

/// A JSON string.
pub open spec fn json_string(text: Seq<char>) -> Seq<char> {
    seq!['"'] + escaped(text) + seq!['"']
}

/// A string or null.
pub open spec fn json_string_or_null(text: Option<String>) -> Seq<char> {
    match text {
        Some(text) => json_string(text@),
        None => "null"@,
    }
}

/// A truth value.
pub open spec fn json_bool(value: bool) -> Seq<char> {
    if value {
        "true"@
    } else {
        "false"@
    }
}

/// A line break and the indentation at a depth, two spaces for each level.
pub open spec fn new_line(depth: nat) -> Seq<char> {
    seq!['\n'] + Seq::new(2 * depth, |i: int| ' ')
}

/// Some values, each on a line of its own at a depth, with commas between them.
pub open spec fn json_lines(values: Seq<Seq<char>>, depth: nat) -> Seq<char>
    decreases values.len(),
{
    if values.len() == 0 {
        Seq::empty()
    } else if values.len() == 1 {
        new_line(depth) + values[0]
    } else {
        json_lines(values.drop_last(), depth) + seq![','] + new_line(depth) + values.last()
    }
}

/// A list that begins at a depth.
pub open spec fn json_list(values: Seq<Seq<char>>, depth: nat) -> Seq<char> {
    if values.len() == 0 {
        seq!['[', ']']
    } else {
        seq!['['] + json_lines(values, depth + 1) + new_line(depth) + seq![']']
    }
}

/// A member of an object.
pub open spec fn json_member(key: Seq<char>, value: Seq<char>) -> Seq<char> {
    json_string(key) + seq![':', ' '] + value
}

/// An object that begins at a depth.
pub open spec fn json_object(members: Seq<Seq<char>>, depth: nat) -> Seq<char> {
    if members.len() == 0 {
        seq!['{', '}']
    } else {
        seq!['{'] + json_lines(members, depth + 1) + new_line(depth) + seq!['}']
    }
}

/// Calls `serde_json::to_string_pretty` on an object with the single string member `key`.
///
/// Claimed of `serde_json`: such an object is always serialised, with the member on a line of its own
/// and an indentation of two spaces, and a string is quoted with a backslash escape for the quote,
/// the backslash and each control character below the space.
#[verifier::external_body]
pub(crate) fn pretty_object(key: &str, value: &str) -> (text: Result<String, serde_json::Error>)
    ensures
        text is Ok,
        text->Ok_0@ == json_object(seq![json_member(key@, json_string(value@))], 0),
{
    let member = serde_json::Value::String(value.to_string());
    let object: serde_json::Value = [(key.to_string(), member)].into_iter().collect();
    serde_json::to_string_pretty(&object)
}

/// The error that `serde_json` makes of a message of its caller's.
pub uninterp spec fn custom_json_error(message: Seq<char>) -> serde_json::Error;

/// Calls `custom` of `serde::de::Error`, as `serde_json::Error` implements it.
///
/// Claimed of `serde_json`: the error is determined by the message. What is displayed of the error
/// is left unsaid: a message that ends in a line and a column is taken apart into these.
#[verifier::external_body]
pub(crate) fn custom_error(message: String) -> (error: serde_json::Error)
    ensures
        error == custom_json_error(message@),
{
    serde_json::Error::custom(message)
}

/// An escaped control character has six characters, and any other character one or two.
proof fn lemma_escape_shape(c: char)
    ensures
        escape(c).len() == 1 || escape(c).len() == 2 || escape(c).len() == 6,
        escape(c).len() == 1 ==> escape(c)[0] == c && c != '\\',
        escape(c).len() == 2 ==> escape(c)[0] == '\\' && escape(c)[1] != 'u',
        escape(c).len() == 6 ==> {
            &&& escape(c)[0] == '\\'
            &&& escape(c)[1] == 'u'
            &&& (c as int) < 32
            &&& escape(c)[4] == hex_digit(c as int / 16)
            &&& escape(c)[5] == hex_digit(c as int % 16)
        },
{
}

/// What two different characters are written as differs before either ends.
proof fn lemma_escapes_differ_early(c: char, d: char)
    requires
        forall|i: int|
            0 <= i < escape(c).len() && i < escape(d).len() ==> escape(c)[i] == escape(d)[i],
    ensures
        c == d,
{
    let x = escape(c);
    let y = escape(d);
    lemma_escape_shape(c);
    lemma_escape_shape(d);
    assert(x[0] == y[0]);
    if x.len() > 1 && y.len() > 1 {
        assert(x[1] == y[1]);
        if x.len() == 6 {
            assert(x[4] == y[4] && x[5] == y[5]);
            lemma_hex_digit_is_unique(c as int / 16, d as int / 16);
            lemma_hex_digit_is_unique(c as int % 16, d as int % 16);
        }
    }
}

/// Whether two texts differ somewhere before either ends.
pub open spec fn apart(a: Seq<char>, b: Seq<char>) -> bool {
    exists|i: int| 0 <= i < a.len() && i < b.len() && a[i] != b[i]
}

/// Whether neither of two texts goes on where the other ends: they are equal, or differ before.
pub open spec fn delimited(a: Seq<char>, b: Seq<char>) -> bool {
    a == b || apart(a, b)
}

/// Texts that are put together from delimited texts are delimited, and equal only where these are.
proof fn lemma_delimited_concat(a: Seq<char>, b: Seq<char>, c: Seq<char>, d: Seq<char>)
    requires
        delimited(a, b),
    ensures
        delimited(c, d) ==> delimited(a + c, b + d),
        a + c == b + d ==> a == b && c == d,
{
    if a == b {
        assert(c =~= (a + c).subrange(a.len() as int, (a + c).len() as int));
        assert(d =~= (b + d).subrange(b.len() as int, (b + d).len() as int));
        if delimited(c, d) && c != d {
            let i = choose|i: int| 0 <= i < c.len() && i < d.len() && c[i] != d[i];
            assert((a + c)[a.len() + i] != (b + d)[a.len() + i]);
        }
    } else {
        let i = choose|i: int| 0 <= i < a.len() && i < b.len() && a[i] != b[i];
        assert((a + c)[i] != (b + d)[i]);
    }
}

/// Texts with a common beginning are delimited where their ends are.
proof fn lemma_delimited_suffix(p: Seq<char>, a: Seq<char>, b: Seq<char>)
    ensures
        delimited(a, b) ==> delimited(p + a, p + b),
        p + a == p + b ==> a == b,
{
    lemma_delimited_concat(p, p, a, b);
}

/// Two JSON strings are delimited, and equal only where they stand for the same text.
proof fn lemma_quoted_is_delimited(a: Seq<char>, b: Seq<char>)
    ensures
        delimited(escaped(a) + seq!['"'], escaped(b) + seq!['"']),
        escaped(a) + seq!['"'] == escaped(b) + seq!['"'] ==> a == b,
    decreases a.len(),
{
    let x = escaped(a) + seq!['"'];
    let y = escaped(b) + seq!['"'];
    if a.len() == 0 || b.len() == 0 {
        if a.len() == 0 && b.len() == 0 {
            assert(a =~= b);
        } else if a.len() == 0 {
            lemma_escape_shape(b[0]);
            assert(x[0] == '"' && y[0] == escape(b[0])[0]);
            assert(x[0] != y[0]);
        } else {
            lemma_escape_shape(a[0]);
            assert(y[0] == '"' && x[0] == escape(a[0])[0]);
            assert(x[0] != y[0]);
        }
    } else {
        let (u, v) = (escaped(a.drop_first()) + seq!['"'], escaped(b.drop_first()) + seq!['"']);
        assert(x =~= escape(a[0]) + u);
        assert(y =~= escape(b[0]) + v);
        lemma_escapes_are_delimited(a[0], b[0]);
        lemma_delimited_concat(escape(a[0]), escape(b[0]), u, v);
        lemma_quoted_is_delimited(a.drop_first(), b.drop_first());
        assert(a =~= seq![a[0]] + a.drop_first());
        assert(b =~= seq![b[0]] + b.drop_first());
    }
}

/// What two characters are written as is delimited, and equal only for the same character.
proof fn lemma_escapes_are_delimited(c: char, d: char)
    ensures
        delimited(escape(c), escape(d)),
        escape(c) == escape(d) ==> c == d,
{
    if c != d && !apart(escape(c), escape(d)) {
        lemma_escapes_differ_early(c, d);
    }
}

/// Two JSON strings are delimited, and equal only where they stand for the same text.
proof fn lemma_strings_are_delimited(a: Seq<char>, b: Seq<char>)
    ensures
        delimited(json_string(a), json_string(b)),
        json_string(a) == json_string(b) ==> a == b,
{
    lemma_quoted_is_delimited(a, b);
    let (x, y) = (escaped(a) + seq!['"'], escaped(b) + seq!['"']);
    assert(json_string(a) =~= seq!['"'] + x);
    assert(json_string(b) =~= seq!['"'] + y);
    lemma_delimited_suffix(seq!['"'], x, y);
}

/// The text of a value that may be missing.
pub open spec fn optional_text(text: Option<String>) -> Option<Seq<char>> {
    match text {
        Some(text) => Some(text@),
        None => None,
    }
}

/// Two JSON values that are strings or null are delimited, and equal only for the same text.
proof fn lemma_optional_strings_are_delimited(a: Option<String>, b: Option<String>)
    ensures
        delimited(json_string_or_null(a), json_string_or_null(b)),
        json_string_or_null(a) == json_string_or_null(b) ==> optional_text(a) == optional_text(b),
{
    reveal_strlit("null");
    if a is Some && b is Some {
        lemma_strings_are_delimited(a->0@, b->0@);
    } else if a is Some {
        assert(json_string(a->0@)[0] == '"');
        assert("null"@[0] == 'n');
    } else if b is Some {
        assert(json_string(b->0@)[0] == '"');
        assert("null"@[0] == 'n');
    }
}

/// Two members with the same key are delimited where their values are.
pub(crate) proof fn lemma_members_are_delimited(key: Seq<char>, a: Seq<char>, b: Seq<char>)
    requires
        delimited(a, b),
    ensures
        delimited(json_member(key, a), json_member(key, b)),
        json_member(key, a) == json_member(key, b) ==> a == b,
{
    lemma_delimited_suffix(json_string(key) + seq![':', ' '], a, b);
}

/// Two string members with the same key are delimited, and equal only for the same text.
pub(crate) proof fn lemma_string_members(key: Seq<char>, a: Seq<char>, b: Seq<char>)
    ensures
        delimited(json_member(key, json_string(a)), json_member(key, json_string(b))),
        json_member(key, json_string(a)) == json_member(key, json_string(b)) ==> a == b,
{
    lemma_strings_are_delimited(a, b);
    lemma_members_are_delimited(key, json_string(a), json_string(b));
}

/// Two members with the same key that are strings or null are delimited, and equal only for the
/// same text.
pub(crate) proof fn lemma_optional_members(key: Seq<char>, a: Option<String>, b: Option<String>)
    ensures
        delimited(
            json_member(key, json_string_or_null(a)),
            json_member(key, json_string_or_null(b)),
        ),
        json_member(key, json_string_or_null(a)) == json_member(key, json_string_or_null(b))
            ==> optional_text(a) == optional_text(b),
{
    lemma_optional_strings_are_delimited(a, b);
    lemma_members_are_delimited(key, json_string_or_null(a), json_string_or_null(b));
}

/// As many lines with delimited values are delimited, and equal only for the same values.
proof fn lemma_lines_are_delimited(a: Seq<Seq<char>>, b: Seq<Seq<char>>, depth: nat)
    requires
        a.len() == b.len(),
        forall|i: int| 0 <= i < a.len() ==> delimited(#[trigger] a[i], b[i]),
    ensures
        delimited(json_lines(a, depth), json_lines(b, depth)),
        json_lines(a, depth) == json_lines(b, depth) ==> a == b,
    decreases a.len(),
{
    let line = new_line(depth);
    if a.len() == 0 {
        assert(a =~= b);
    } else if a.len() == 1 {
        assert(delimited(a[0], b[0]));
        lemma_delimited_suffix(line, a[0], b[0]);
        if json_lines(a, depth) == json_lines(b, depth) {
            assert(a =~= b);
        }
    } else {
        let (u, v) = (a.drop_last(), b.drop_last());
        assert forall|i: int| 0 <= i < u.len() implies delimited(#[trigger] u[i], v[i]) by {
            assert(delimited(a[i], b[i]));
        }
        lemma_lines_are_delimited(u, v, depth);
        assert(delimited(a[a.len() - 1], b[b.len() - 1]));
        let separator = seq![','] + line;
        lemma_delimited_suffix(separator, a.last(), b.last());
        lemma_delimited_concat(
            json_lines(u, depth),
            json_lines(v, depth),
            separator + a.last(),
            separator + b.last(),
        );
        assert(json_lines(a, depth) =~= json_lines(u, depth) + (separator + a.last()));
        assert(json_lines(b, depth) =~= json_lines(v, depth) + (separator + b.last()));
        if json_lines(a, depth) == json_lines(b, depth) {
            assert(a =~= u.push(a.last()));
            assert(b =~= v.push(b.last()));
        }
    }
}

/// More lines begin with fewer of them and a comma.
proof fn lemma_lines_go_on(values: Seq<Seq<char>>, n: nat, depth: nat)
    requires
        0 < n < values.len(),
    ensures
        json_lines(values, depth).len() > json_lines(values.take(n as int), depth).len(),
        json_lines(values, depth).take(json_lines(values.take(n as int), depth).len() + 1int)
            == json_lines(values.take(n as int), depth) + seq![','],
    decreases values.len(),
{
    let lines = json_lines(values, depth);
    let fewer = json_lines(values.take(n as int), depth);
    let shorter = values.drop_last();
    let rest = seq![','] + new_line(depth) + values.last();
    assert(lines =~= json_lines(shorter, depth) + rest);
    if n == shorter.len() {
        assert(values.take(n as int) =~= shorter);
    } else {
        lemma_lines_go_on(shorter, n, depth);
        assert(shorter.take(n as int) =~= values.take(n as int));
        assert(json_lines(shorter, depth).take(fewer.len() + 1int) == fewer + seq![',']);
    }
    assert(lines.take(fewer.len() + 1int) =~= fewer + seq![',']);
}

/// Fewer and more lines, closed alike, differ before either ends.
proof fn lemma_lengths_are_told_apart(a: Seq<Seq<char>>, b: Seq<Seq<char>>, depth: nat, end: Seq<char>)
    requires
        0 < a.len() < b.len(),
        end.len() > 0 && end[0] == '\n',
        forall|i: int| 0 <= i < a.len() ==> delimited(#[trigger] a[i], b[i]),
    ensures
        apart(json_lines(a, depth) + end, json_lines(b, depth) + end),
{
    let n = a.len();
    let c = b.take(n as int);
    let (x, y, z) = (json_lines(a, depth), json_lines(b, depth), json_lines(c, depth));
    assert forall|i: int| 0 <= i < n implies delimited(#[trigger] a[i], c[i]) by {
        assert(delimited(a[i], b[i]));
    }
    lemma_lines_are_delimited(a, c, depth);
    lemma_lines_go_on(b, n, depth);
    let shared = y.take(z.len() + 1int);
    if x == z {
        assert((x + end)[x.len() as int] == '\n');
        assert(shared[z.len() as int] == ',');
        assert((y + end)[x.len() as int] == ',');
    } else {
        let i = choose|i: int| 0 <= i < x.len() && i < z.len() && x[i] != z[i];
        assert(shared[i] == z[i]);
        assert((x + end)[i] != (y + end)[i]);
    }
}

/// Two lists of delimited values are delimited, and equal only for the same values.
pub(crate) proof fn lemma_lists_are_delimited(a: Seq<Seq<char>>, b: Seq<Seq<char>>, depth: nat)
    requires
        forall|i: int| 0 <= i < a.len() && i < b.len() ==> delimited(#[trigger] a[i], b[i]),
    ensures
        delimited(json_list(a, depth), json_list(b, depth)),
        json_list(a, depth) == json_list(b, depth) ==> a == b,
{
    let end = new_line(depth) + seq![']'];
    let (x, y) = (json_lines(a, depth + 1), json_lines(b, depth + 1));
    if a.len() > 0 {
        lemma_lines_begin_with_a_break(a, depth + 1);
        assert(json_list(a, depth) =~= seq!['['] + (x + end));
    }
    if b.len() > 0 {
        lemma_lines_begin_with_a_break(b, depth + 1);
        assert(json_list(b, depth) =~= seq!['['] + (y + end));
    }
    if a.len() == 0 && b.len() == 0 {
        assert(a =~= b);
    } else if a.len() == 0 || b.len() == 0 {
        assert(json_list(a, depth)[1] != json_list(b, depth)[1]);
    } else {
        if a.len() == b.len() {
            lemma_lines_are_delimited(a, b, depth + 1);
            lemma_delimited_concat(x, y, end, end);
        } else if a.len() < b.len() {
            lemma_lengths_are_told_apart(a, b, depth + 1, end);
        } else {
            assert forall|i: int| 0 <= i < b.len() implies delimited(#[trigger] b[i], a[i]) by {
                assert(delimited(a[i], b[i]));
            }
            lemma_lengths_are_told_apart(b, a, depth + 1, end);
        }
        lemma_delimited_suffix(seq!['['], x + end, y + end);
    }
}

/// Lines begin with a line break.
proof fn lemma_lines_begin_with_a_break(values: Seq<Seq<char>>, depth: nat)
    requires
        values.len() > 0,
    ensures
        json_lines(values, depth).len() > 0,
        json_lines(values, depth)[0] == '\n',
    decreases values.len(),
{
    if values.len() > 1 {
        lemma_lines_begin_with_a_break(values.drop_last(), depth);
    }
}

/// Two objects with as many delimited members are delimited, and equal only for the same members.
pub(crate) proof fn lemma_objects_are_delimited(a: Seq<Seq<char>>, b: Seq<Seq<char>>, depth: nat)
    requires
        a.len() == b.len(),
        forall|i: int| 0 <= i < a.len() ==> delimited(#[trigger] a[i], b[i]),
    ensures
        delimited(json_object(a, depth), json_object(b, depth)),
        json_object(a, depth) == json_object(b, depth) ==> a == b,
{
    if a.len() > 0 {
        let end = new_line(depth) + seq!['}'];
        let (x, y) = (json_lines(a, depth + 1), json_lines(b, depth + 1));
        lemma_lines_are_delimited(a, b, depth + 1);
        lemma_delimited_concat(x, y, end, end);
        lemma_delimited_suffix(seq!['{'], x + end, y + end);
        assert(json_object(a, depth) =~= seq!['{'] + (x + end));
        assert(json_object(b, depth) =~= seq!['{'] + (y + end));
    } else {
        assert(a =~= b);
    }
}

/// Whether a document holds a text on a line that is indented to a depth.
pub open spec fn has_line(document: Seq<char>, depth: nat, text: Seq<char>) -> bool {
    exists|before: Seq<char>, after: Seq<char>|
        document == #[trigger] (before + (new_line(depth) + text) + after)
}

/// A document that holds another holds its lines.
pub(crate) proof fn lemma_lines_are_kept(
    outer: Seq<char>,
    head: Seq<char>,
    inner: Seq<char>,
    tail: Seq<char>,
    depth: nat,
    text: Seq<char>,
)
    requires
        outer == head + inner + tail,
        has_line(inner, depth, text),
    ensures
        has_line(outer, depth, text),
{
    let (before, after) = choose|before: Seq<char>, after: Seq<char>|
        inner == #[trigger] (before + (new_line(depth) + text) + after);
    assert(outer =~= (head + before) + (new_line(depth) + text) + (after + tail));
}

/// Lines hold each of their values.
proof fn lemma_lines_hold_values(values: Seq<Seq<char>>, depth: nat, i: int)
    requires
        0 <= i < values.len(),
    ensures
        has_line(json_lines(values, depth), depth, values[i]),
    decreases values.len(),
{
    let lines = json_lines(values, depth);
    if values.len() == 1 {
        assert(lines =~= Seq::empty() + (new_line(depth) + values[i]) + Seq::empty());
    } else {
        let shorter = values.drop_last();
        let first = json_lines(shorter, depth);
        if i == values.len() - 1 {
            assert(lines =~= (first + seq![',']) + (new_line(depth) + values[i]) + Seq::empty());
        } else {
            lemma_lines_hold_values(shorter, depth, i);
            let rest = seq![','] + new_line(depth) + values.last();
            assert(lines =~= Seq::empty() + first + rest);
            lemma_lines_are_kept(lines, Seq::empty(), first, rest, depth, values[i]);
        }
    }
}

/// An object holds each of its members on a line of its own.
pub(crate) proof fn lemma_object_holds_members(members: Seq<Seq<char>>, depth: nat)
    ensures
        forall|i: int|
            0 <= i < members.len() ==> has_line(
                json_object(members, depth),
                depth + 1,
                #[trigger] members[i],
            ),
{
    assert forall|i: int| 0 <= i < members.len() implies has_line(
        json_object(members, depth),
        depth + 1,
        #[trigger] members[i],
    ) by {
        lemma_lines_hold_values(members, depth + 1, i);
        let tail = new_line(depth) + seq!['}'];
        let lines = json_lines(members, depth + 1);
        assert(json_object(members, depth) =~= seq!['{'] + lines + tail);
        lemma_lines_are_kept(
            json_object(members, depth),
            seq!['{'],
            lines,
            tail,
            depth + 1,
            members[i],
        );
    }
}

/// A list holds each of its values on a line of its own.
pub(crate) proof fn lemma_list_holds_values(values: Seq<Seq<char>>, depth: nat)
    ensures
        forall|i: int|
            0 <= i < values.len() ==> has_line(
                json_list(values, depth),
                depth + 1,
                #[trigger] values[i],
            ),
{
    assert forall|i: int| 0 <= i < values.len() implies has_line(
        json_list(values, depth),
        depth + 1,
        #[trigger] values[i],
    ) by {
        lemma_lines_hold_values(values, depth + 1, i);
        let tail = new_line(depth) + seq![']'];
        let lines = json_lines(values, depth + 1);
        assert(json_list(values, depth) =~= seq!['['] + lines + tail);
        lemma_lines_are_kept(json_list(values, depth), seq!['['], lines, tail, depth + 1, values[i]);
    }
}

/// A line of an object that holds a member with a list holds the lines of that list.
pub(crate) proof fn lemma_listed_lines(
    document: Seq<char>,
    key: Seq<char>,
    value: Seq<char>,
    depth: nat,
    text: Seq<char>,
)
    requires
        has_line(document, 1, json_member(key, value)),
        has_line(value, depth, text),
    ensures
        has_line(document, depth, text),
{
    let member = json_member(key, value);
    let (before, after) = choose|before: Seq<char>, after: Seq<char>|
        document == #[trigger] (before + (new_line(1) + member) + after);
    let head = before + new_line(1) + json_string(key) + seq![':', ' '];
    assert(document =~= head + value + after);
    lemma_lines_are_kept(document, head, value, after, depth, text);
}

/// A list with a value more is the list with that value put in before its end.
pub(crate) proof fn lemma_list_grows(values: Seq<Seq<char>>, value: Seq<char>, depth: nat) -> (body:
    Seq<char>)
    requires
        values.len() > 0,
    ensures
        json_list(values, depth) == body + (new_line(depth) + seq![']']),
        json_list(values.push(value), depth) == body + (seq![','] + new_line(depth + 1) + value) + (
        new_line(depth) + seq![']']),
{
    let body = seq!['['] + json_lines(values, depth + 1);
    assert(values.push(value).drop_last() =~= values);
    assert(json_list(values, depth) =~= body + (new_line(depth) + seq![']']));
    assert(json_list(values.push(value), depth) =~= body + (seq![','] + new_line(depth + 1) + value)
        + (new_line(depth) + seq![']']));
    body
}

} // verus!
