//! JSON values as they stand in the messages sent to browsers: strings, string arrays and
//! booleans, without insignificant white space.
use vstd::prelude::*;
use vstd::string::*;

verus! {

/// The error type of `serde_json`, carried through unopened.
#[verifier::external_type_specification]
#[verifier::external_body]
pub struct ExJsonError(serde_json::Error);

/// The lower-case hexadecimal digit of a value below 16.
pub open spec fn lower_hex_digit(n: int) -> char {
    if n < 10 {
        (48 + n) as char
    } else {
        (87 + n) as char
    }
}

/// One character inside a JSON string. Quotes, backslashes and control characters are
/// escaped, everything else stands for itself.
pub open spec fn json_escape(c: char) -> Seq<char> {
    if c == '"' {
        seq!['\\', '"']
    } else if c == '\\' {
        seq!['\\', '\\']
    } else if c == '\u{8}' {
        seq!['\\', 'b']
    } else if c == '\t' {
        seq!['\\', 't']
    } else if c == '\n' {
        seq!['\\', 'n']
    } else if c == '\u{c}' {
        seq!['\\', 'f']
    } else if c == '\r' {
        seq!['\\', 'r']
    } else if (c as int) < 32 {
        seq!['\\', 'u', '0', '0', lower_hex_digit(c as int / 16), lower_hex_digit(c as int % 16)]
    } else {
        seq![c]
    }
}

/// The characters of `s`, each escaped for use inside a JSON string.
pub open spec fn json_escaped(s: Seq<char>) -> Seq<char>
    decreases s.len(),
{
    if s.len() == 0 {
        seq![]
    } else {
        json_escape(s[0]) + json_escaped(s.drop_first())
    }
}

/// The JSON string with the given contents.
pub open spec fn json_string(s: Seq<char>) -> Seq<char> {
    seq!['"'] + json_escaped(s) + seq!['"']
}

/// The elements of a JSON array from the second one on, each behind a comma.
pub open spec fn json_further_strings(items: Seq<Seq<char>>) -> Seq<char>
    decreases items.len(),
{
    if items.len() == 0 {
        seq![]
    } else {
        seq![','] + json_string(items[0]) + json_further_strings(items.drop_first())
    }
}

/// The JSON array of the given strings.
pub open spec fn json_string_array(items: Seq<Seq<char>>) -> Seq<char> {
    if items.len() == 0 {
        seq!['[', ']']
    } else {
        seq!['['] + json_string(items[0]) + json_further_strings(items.drop_first()) + seq![']']
    }
}

/// The JSON literal for a truth value.
pub open spec fn json_bool(b: bool) -> Seq<char> {
    if b {
        "true"@
    } else {
        "false"@
    }
}

/// Calls `serde_json::to_string` on a string slice. The call always succeeds; its result is
/// the quoted string with quotes, backslashes and control characters escaped.
#[verifier::external_body]
fn string_to_json(value: &str) -> (r: Result<String, serde_json::Error>)
    ensures
        r is Ok,
        r->Ok_0@ == json_string(value@),
{
    serde_json::to_string(value)
}

/// Appends the JSON form of a string.
pub fn push_string(out: &mut String, value: &str) -> (r: Result<(), serde_json::Error>)
    ensures
        r is Ok,
        final(out)@ == old(out)@ + json_string(value@),
{
    match string_to_json(value) {
        Ok(text) => {
            out.append(text.as_str());
            Ok(())
        },
        Err(e) => Err(e),
    }
}

/// Appends the JSON form of an array of strings.
pub fn push_string_array(out: &mut String, items: &Vec<String>) -> (r: Result<
    (),
    serde_json::Error,
>)
    ensures
        r is Ok,
        final(out)@ == old(out)@ + json_string_array(items@.map_values(|s: String| s@)),
{
    let ghost texts = items@.map_values(|s: String| s@);
    let ghost start = out@;
    out.push('[');
    if items.len() > 0 {
        let first = push_string(out, items[0].as_str());
        if first.is_err() {
            return first;
        }
        let mut i: usize = 1;
        assert(texts.skip(1) =~= texts.drop_first());
        assert(out@ + json_further_strings(texts.skip(1)) + seq![']'] =~= start + json_string_array(
            texts,
        ));
        while i < items.len()
            invariant
                1 <= i <= items@.len(),
                texts == items@.map_values(|s: String| s@),
                out@ + json_further_strings(texts.skip(i as int)) + seq![']'] == start
                    + json_string_array(texts),
            decreases items@.len() - i,
        {
            let ghost before = out@;
            assert(texts.skip(i as int).drop_first() =~= texts.skip(i + 1));
            assert(texts.skip(i as int)[0] == items[i as int]@);
            out.push(',');
            let next = push_string(out, items[i].as_str());
            if next.is_err() {
                return next;
            }
            assert(out@ + json_further_strings(texts.skip(i + 1)) =~= before
                + json_further_strings(texts.skip(i as int)));
            i = i + 1;
        }
        assert(out@ + json_further_strings(texts.skip(i as int)) =~= out@);
    }
    out.push(']');
    assert(out@ =~= start + json_string_array(texts));
    Ok(())
}

/// Appends the JSON form of a truth value.
pub fn push_bool(out: &mut String, value: bool)
    ensures
        final(out)@ == old(out)@ + json_bool(value),
{
    if value {
        out.append("true");
    } else {
        out.append("false");
    }
}

/// Whether a character stands for itself inside a JSON string.
pub open spec fn is_plain(c: char) -> bool {
    c as int >= 32 && c != '"' && c != '\\'
}

/// Text without quotes, backslashes and control characters is merely quoted.
pub proof fn lemma_plain_string(s: Seq<char>)
    requires
        forall|i: int| 0 <= i < s.len() ==> is_plain(#[trigger] s[i]),
    ensures
        json_string(s) == seq!['"'] + s + seq!['"'],
{
    lemma_plain_escaped(s);
}

proof fn lemma_plain_escaped(s: Seq<char>)
    requires
        forall|i: int| 0 <= i < s.len() ==> is_plain(#[trigger] s[i]),
    ensures
        json_escaped(s) == s,
    decreases s.len(),
{
    if s.len() > 0 {
        assert(is_plain(s[0]));
        assert forall|i: int| 0 <= i < s.drop_first().len() implies is_plain(
            #[trigger] s.drop_first()[i],
        ) by {
            assert(is_plain(s[i + 1]));
        }
        lemma_plain_escaped(s.drop_first());
        assert(json_escaped(s) =~= s);
    }
}

/// Text that begins with the same sequence twice goes on with the same rest.
pub proof fn lemma_strip_prefix(prefix: Seq<char>, a: Seq<char>, b: Seq<char>)
    requires
        prefix + a == prefix + b,
    ensures
        a == b,
{
    assert((prefix + a).skip(prefix.len() as int) =~= a);
    assert((prefix + b).skip(prefix.len() as int) =~= b);
}

proof fn lemma_escape_unique(c: char, d: char, a: Seq<char>, b: Seq<char>)
    requires
        json_escape(c) + a == json_escape(d) + b,
    ensures
        c == d,
        a == b,
{
    let x = json_escape(c) + a;
    let y = json_escape(d) + b;
    assert(x[0] == json_escape(c)[0] && y[0] == json_escape(d)[0]);
    if x[0] == '\\' {
        assert(x[1] == json_escape(c)[1] && y[1] == json_escape(d)[1]);
        if x[1] == 'u' {
            assert(x[4] == json_escape(c)[4] && y[4] == json_escape(d)[4]);
            assert(x[5] == json_escape(c)[5] && y[5] == json_escape(d)[5]);
            assert(c as int / 16 == d as int / 16);
            assert(c as int % 16 == d as int % 16);
        }
    }
    assert(c == d);
    lemma_strip_prefix(json_escape(c), a, b);
}

proof fn lemma_escaped_unique(s: Seq<char>, t: Seq<char>, a: Seq<char>, b: Seq<char>)
    requires
        json_escaped(s) + seq!['"'] + a == json_escaped(t) + seq!['"'] + b,
    ensures
        s == t,
        a == b,
    decreases s.len(),
{
    let x = json_escaped(s) + seq!['"'] + a;
    let y = json_escaped(t) + seq!['"'] + b;
    if s.len() == 0 || t.len() == 0 {
        if s.len() > 0 {
            assert(x[0] == json_escape(s[0])[0]);
        }
        if t.len() > 0 {
            assert(y[0] == json_escape(t[0])[0]);
        }
        assert(s.len() == 0 && t.len() == 0);
        assert(s =~= t);
        assert(x =~= seq!['"'] + a);
        assert(y =~= seq!['"'] + b);
        lemma_strip_prefix(seq!['"'], a, b);
    } else {
        let s_rest = json_escaped(s.drop_first()) + seq!['"'] + a;
        let t_rest = json_escaped(t.drop_first()) + seq!['"'] + b;
        assert(x =~= json_escape(s[0]) + s_rest);
        assert(y =~= json_escape(t[0]) + t_rest);
        lemma_escape_unique(s[0], t[0], s_rest, t_rest);
        lemma_escaped_unique(s.drop_first(), t.drop_first(), a, b);
        assert(s =~= seq![s[0]] + s.drop_first());
        assert(t =~= seq![t[0]] + t.drop_first());
    }
}

/// A JSON string at the start of a text can be read back: its contents and what follows it
/// are determined by the text.
pub proof fn lemma_string_unique(s: Seq<char>, t: Seq<char>, a: Seq<char>, b: Seq<char>)
    requires
        json_string(s) + a == json_string(t) + b,
    ensures
        s == t,
        a == b,
{
    let x = json_escaped(s) + seq!['"'] + a;
    let y = json_escaped(t) + seq!['"'] + b;
    assert(json_string(s) + a =~= seq!['"'] + x);
    assert(json_string(t) + b =~= seq!['"'] + y);
    lemma_strip_prefix(seq!['"'], x, y);
    lemma_escaped_unique(s, t, a, b);
}

proof fn lemma_further_strings_unique(
    s: Seq<Seq<char>>,
    t: Seq<Seq<char>>,
    a: Seq<char>,
    b: Seq<char>,
)
    requires
        json_further_strings(s) + seq![']'] + a == json_further_strings(t) + seq![']'] + b,
    ensures
        s == t,
        a == b,
    decreases s.len(),
{
    let x = json_further_strings(s) + seq![']'] + a;
    let y = json_further_strings(t) + seq![']'] + b;
    if s.len() > 0 {
        assert(x[0] == ',');
    } else {
        assert(x[0] == ']');
    }
    if t.len() > 0 {
        assert(y[0] == ',');
    } else {
        assert(y[0] == ']');
    }
    if s.len() == 0 {
        assert(s =~= t);
        assert(x =~= seq![']'] + a);
        assert(y =~= seq![']'] + b);
        lemma_strip_prefix(seq![']'], a, b);
    } else {
        let s_rest = json_further_strings(s.drop_first()) + seq![']'] + a;
        let t_rest = json_further_strings(t.drop_first()) + seq![']'] + b;
        assert(x =~= seq![','] + (json_string(s[0]) + s_rest));
        assert(y =~= seq![','] + (json_string(t[0]) + t_rest));
        lemma_strip_prefix(seq![','], json_string(s[0]) + s_rest, json_string(t[0]) + t_rest);
        lemma_string_unique(s[0], t[0], s_rest, t_rest);
        lemma_further_strings_unique(s.drop_first(), t.drop_first(), a, b);
        assert(s =~= seq![s[0]] + s.drop_first());
        assert(t =~= seq![t[0]] + t.drop_first());
    }
}

/// A JSON array of strings at the start of a text can be read back: its elements and what
/// follows it are determined by the text.
pub proof fn lemma_string_array_unique(
    s: Seq<Seq<char>>,
    t: Seq<Seq<char>>,
    a: Seq<char>,
    b: Seq<char>,
)
    requires
        json_string_array(s) + a == json_string_array(t) + b,
    ensures
        s == t,
        a == b,
{
    let x = json_string_array(s) + a;
    let y = json_string_array(t) + b;
    if s.len() > 0 {
        assert(x[1] == '"');
    } else {
        assert(x[1] == ']');
    }
    if t.len() > 0 {
        assert(y[1] == '"');
    } else {
        assert(y[1] == ']');
    }
    if s.len() == 0 {
        assert(s =~= t);
        lemma_strip_prefix(seq!['[', ']'], a, b);
    } else {
        let s_rest = json_further_strings(s.drop_first()) + seq![']'] + a;
        let t_rest = json_further_strings(t.drop_first()) + seq![']'] + b;
        assert(x =~= seq!['['] + (json_string(s[0]) + s_rest));
        assert(y =~= seq!['['] + (json_string(t[0]) + t_rest));
        lemma_strip_prefix(seq!['['], json_string(s[0]) + s_rest, json_string(t[0]) + t_rest);
        lemma_string_unique(s[0], t[0], s_rest, t_rest);
        lemma_further_strings_unique(s.drop_first(), t.drop_first(), a, b);
        assert(s =~= seq![s[0]] + s.drop_first());
        assert(t =~= seq![t[0]] + t.drop_first());
    }
}

proof fn lemma_further_strings_grow(items: Seq<Seq<char>>, item: Seq<char>)
    ensures
        json_further_strings(items.push(item)) == json_further_strings(items) + (seq![',']
            + json_string(item)),
    decreases items.len(),
{
    let more = items.push(item);
    if items.len() == 0 {
        assert(more.drop_first() =~= items);
        assert(json_further_strings(more) =~= json_further_strings(items) + (seq![',']
            + json_string(item)));
    } else {
        assert(more.drop_first() =~= items.drop_first().push(item));
        lemma_further_strings_grow(items.drop_first(), item);
        assert(json_further_strings(more) =~= json_further_strings(items) + (seq![',']
            + json_string(item)));
    }
}

/// A JSON array holds its elements in order, between brackets and separated by commas: one more
/// element goes in front of the closing bracket, behind a comma unless it is the first.
pub proof fn law_array_grows_at_the_end(items: Seq<Seq<char>>, item: Seq<char>)
    ensures
        json_string_array(Seq::empty()) == "[]"@,
        items.len() == 0 ==> json_string_array(items.push(item)) == "["@ + json_string(item) + "]"@,
        items.len() > 0 ==> json_string_array(items.push(item)) == json_string_array(
            items,
        ).drop_last() + ","@ + json_string(item) + "]"@,
{
    reveal_strlit("[]");
    reveal_strlit("[");
    reveal_strlit("]");
    reveal_strlit(",");
    assert(json_string_array(Seq::empty()) =~= "[]"@);
    let more = items.push(item);
    if items.len() == 0 {
        assert(more.drop_first() =~= items);
        assert(json_string_array(more) =~= "["@ + json_string(item) + "]"@);
    } else {
        assert(more.drop_first() =~= items.drop_first().push(item));
        lemma_further_strings_grow(items.drop_first(), item);
        assert(json_string_array(items).drop_last() =~= seq!['['] + json_string(items[0])
            + json_further_strings(items.drop_first()));
        assert(json_string_array(more) =~= json_string_array(items).drop_last() + ","@
            + json_string(item) + "]"@);
    }
}

} // verus!
