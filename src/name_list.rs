//! The stored text of a list of symbol names. Each name is written with `|` and
//! `\` escaped by a preceding `\`, and is followed by `|`. So the empty list is
//! the empty text, a list of one empty name is `|`, and any name, whatever it
//! holds, comes back unchanged.

use vstd::prelude::*;

use crate::path_codec::CorruptRecordError;

verus! {

pub open spec fn is_special(c: char) -> bool {
    c == '|' || c == '\\'
}

/// The text of one name, with its special characters escaped.
pub open spec fn escape_name(n: Seq<char>) -> Seq<char>
    decreases n.len(),
{
    if n.len() == 0 {
        Seq::empty()
    } else {
        let head = if is_special(n[0]) {
            seq!['\\', n[0]]
        } else {
            seq![n[0]]
        };
        head + escape_name(n.drop_first())
    }
}

/// The text of a list of names.
pub open spec fn encode_names(l: Seq<Seq<char>>) -> Seq<char>
    decreases l.len(),
{
    if l.len() == 0 {
        Seq::empty()
    } else {
        escape_name(l[0]) + seq!['|'] + encode_names(l.drop_first())
    }
}

/// Reads `s` on from a state in which `cur` is the name read so far and `acc`
/// the names already closed. `None` where the text is not a name list.
pub open spec fn decode_from(s: Seq<char>, cur: Seq<char>, acc: Seq<Seq<char>>) -> Option<
    Seq<Seq<char>>,
>
    decreases s.len(),
{
    if s.len() == 0 {
        if cur.len() == 0 {
            Some(acc)
        } else {
            None
        }
    } else if s[0] == '\\' {
        if s.len() >= 2 && is_special(s[1]) {
            decode_from(s.subrange(2, s.len() as int), cur.push(s[1]), acc)
        } else {
            None
        }
    } else if s[0] == '|' {
        decode_from(s.drop_first(), Seq::empty(), acc.push(cur))
    } else {
        decode_from(s.drop_first(), cur.push(s[0]), acc)
    }
}

/// The list of names that a text holds, or `None` where it holds none.
pub open spec fn decode_names(s: Seq<char>) -> Option<Seq<Seq<char>>> {
    decode_from(s, Seq::empty(), Seq::empty())
}

/// The names of a vector of strings, as sequences of characters.
pub open spec fn names_view(v: Seq<String>) -> Seq<Seq<char>> {
    v.map_values(|s: String| s@)
}

proof fn lemma_decode_escaped(n: Seq<char>, rest: Seq<char>, cur: Seq<char>, acc: Seq<Seq<char>>)
    ensures
        decode_from(escape_name(n) + rest, cur, acc) == decode_from(rest, cur + n, acc),
    decreases n.len(),
{
    if n.len() == 0 {
        assert(escape_name(n) + rest =~= rest);
        assert(cur + n =~= cur);
    } else {
        let c = n[0];
        let tail = n.drop_first();
        let s = escape_name(n) + rest;
        lemma_decode_escaped(tail, rest, cur.push(c), acc);
        assert(cur.push(c) + tail =~= cur + n);
        if is_special(c) {
            assert(s.subrange(2, s.len() as int) =~= escape_name(tail) + rest);
        } else {
            assert(s.drop_first() =~= escape_name(tail) + rest);
        }
    }
}

proof fn lemma_decode_encoded(l: Seq<Seq<char>>, acc: Seq<Seq<char>>)
    ensures
        decode_from(encode_names(l), Seq::empty(), acc) == Some(acc + l),
    decreases l.len(),
{
    if l.len() == 0 {
        assert(acc + l =~= acc);
    } else {
        let rest = seq!['|'] + encode_names(l.drop_first());
        assert(encode_names(l) =~= escape_name(l[0]) + rest);
        lemma_decode_escaped(l[0], rest, Seq::empty(), acc);
        assert(Seq::<char>::empty() + l[0] =~= l[0]);
        assert(rest.drop_first() =~= encode_names(l.drop_first()));
        lemma_decode_encoded(l.drop_first(), acc.push(l[0]));
        assert(acc.push(l[0]) + l.drop_first() =~= acc + l);
    }
}

/// Every list of names, the empty list and names that hold `|` or `\` included,
/// is read back unchanged from its stored text.
pub proof fn lemma_names_round_trip(l: Seq<Seq<char>>)
    ensures
        decode_names(encode_names(l)) == Some(l),
{
    lemma_decode_encoded(l, Seq::empty());
    assert(Seq::<Seq<char>>::empty() + l =~= l);
}

/// Two lists of names with the same stored text are the same list.
pub proof fn lemma_encode_names_injective(a: Seq<Seq<char>>, b: Seq<Seq<char>>)
    requires
        encode_names(a) == encode_names(b),
    ensures
        a == b,
{
    lemma_names_round_trip(a);
    lemma_names_round_trip(b);
}

/// Relies on `str::chars`, collected into a vector: the characters of `s` in order.
#[verifier::external_body]
pub(crate) fn chars_of(s: &str) -> (r: Vec<char>)
    ensures
        r@ == s@,
{
    s.chars().collect()
}

/// Relies on `String::push`: appends one character.
#[verifier::external_body]
fn push_char(s: &mut String, c: char)
    ensures
        final(s)@ == old(s)@.push(c),
{
    s.push(c)
}

proof fn lemma_escape_push(n: Seq<char>, c: char)
    ensures
        escape_name(n.push(c)) == escape_name(n) + (if is_special(c) {
            seq!['\\', c]
        } else {
            seq![c]
        }),
    decreases n.len(),
{
    if n.len() == 0 {
        assert(n.push(c).drop_first() =~= Seq::<char>::empty());
        assert(escape_name(Seq::<char>::empty()) =~= Seq::<char>::empty());
        let h = if is_special(c) { seq!['\\', c] } else { seq![c] };
        assert(h + Seq::<char>::empty() =~= h);
        assert(Seq::<char>::empty() + h =~= h);
    } else {
        lemma_escape_push(n.drop_first(), c);
        assert(n.push(c).drop_first() =~= n.drop_first().push(c));
        assert(n.push(c)[0] == n[0]);
        let h0 = if is_special(n[0]) { seq!['\\', n[0]] } else { seq![n[0]] };
        let h = if is_special(c) { seq!['\\', c] } else { seq![c] };
        assert(h0 + (escape_name(n.drop_first()) + h) =~= (h0 + escape_name(n.drop_first())) + h);
    }
}

proof fn lemma_encode_push(l: Seq<Seq<char>>, n: Seq<char>)
    ensures
        encode_names(l.push(n)) == encode_names(l) + escape_name(n) + seq!['|'],
    decreases l.len(),
{
    if l.len() == 0 {
        assert(l.push(n).drop_first() =~= Seq::<Seq<char>>::empty());
        assert(l.push(n)[0] == n);
        assert(encode_names(Seq::<Seq<char>>::empty()) == Seq::<char>::empty());
        assert(escape_name(n) + seq!['|'] + Seq::<char>::empty() =~= escape_name(n) + seq!['|']);
        assert(encode_names(l) + escape_name(n) + seq!['|'] =~= escape_name(n) + seq!['|']);
    } else {
        lemma_encode_push(l.drop_first(), n);
        assert(l.push(n).drop_first() =~= l.drop_first().push(n));
        assert(l.push(n)[0] == l[0]);
        assert(encode_names(l.push(n)) =~= encode_names(l) + escape_name(n) + seq!['|']);
    }
}

/// Appends the escaped text of `name` to `out`.
fn append_escaped(out: &mut String, name: &String)
    ensures
        final(out)@ == old(out)@ + escape_name(name@),
{
    let chars = chars_of(name.as_str());
    let ghost start = out@;
    let mut i: usize = 0;
    assert(chars@.subrange(0, 0) =~= Seq::<char>::empty());
    assert(start + escape_name(Seq::<char>::empty()) =~= start);
    while i < chars.len()
        invariant
            0 <= i <= chars.len(),
            chars@ == name@,
            out@ == start + escape_name(chars@.subrange(0, i as int)),
        decreases chars.len() - i,
    {
        let c = chars[i];
        proof {
            lemma_escape_push(chars@.subrange(0, i as int), c);
            assert(chars@.subrange(0, i as int).push(c) =~= chars@.subrange(0, i + 1));
        }
        if c == '|' || c == '\\' {
            push_char(out, '\\');
            push_char(out, c);
            assert(out@ =~= start + escape_name(chars@.subrange(0, i + 1)));
        } else {
            push_char(out, c);
            assert(out@ =~= start + escape_name(chars@.subrange(0, i + 1)));
        }
        i = i + 1;
    }
    assert(chars@.subrange(0, i as int) =~= name@);
}

/// The stored text of a list of names.
pub fn serialize_names(names: &Vec<String>) -> (r: String)
    ensures
        r@ == encode_names(names_view(names@)),
{
    let mut out = String::new();
    let mut i: usize = 0;
    assert(names_view(names@.subrange(0, 0)) =~= Seq::<Seq<char>>::empty());
    while i < names.len()
        invariant
            0 <= i <= names.len(),
            out@ == encode_names(names_view(names@.subrange(0, i as int))),
        decreases names.len() - i,
    {
        append_escaped(&mut out, &names[i]);
        push_char(&mut out, '|');
        proof {
            lemma_encode_push(names_view(names@.subrange(0, i as int)), names@[i as int]@);
            assert(names_view(names@.subrange(0, i as int)).push(names@[i as int]@)
                =~= names_view(names@.subrange(0, i + 1)));
        }
        i = i + 1;
    }
    assert(names@.subrange(0, i as int) =~= names@);
    out
}

/// The list of names that a stored text holds; a text that is no such list is a
/// corrupt record.
pub fn deserialize_names(text: &String) -> (r: Result<Vec<String>, CorruptRecordError>)
    ensures
        match decode_names(text@) {
            Some(l) => r is Ok && names_view(r->Ok_0@) == l,
            None => r == Err::<Vec<String>, CorruptRecordError>(
                CorruptRecordError::MalformedNameList,
            ),
        },
{
    let chars = chars_of(text.as_str());
    let n = chars.len();
    let mut cur = String::new();
    let mut acc: Vec<String> = Vec::new();
    let mut i: usize = 0;
    assert(chars@.subrange(0, n as int) =~= chars@);
    assert(names_view(acc@) =~= Seq::<Seq<char>>::empty());
    while i < n
        invariant
            0 <= i <= n,
            n == chars.len(),
            chars@ == text@,
            decode_names(text@) == decode_from(
                chars@.subrange(i as int, n as int),
                cur@,
                names_view(acc@),
            ),
        decreases n - i,
    {
        let ghost s = chars@.subrange(i as int, n as int);
        let c = chars[i];
        assert(s[0] == c);
        if c == '\\' {
            if i + 1 < n && (chars[i + 1] == '|' || chars[i + 1] == '\\') {
                let d = chars[i + 1];
                assert(s[1] == d);
                assert(s.subrange(2, s.len() as int) =~= chars@.subrange(i + 2, n as int));
                push_char(&mut cur, d);
                i = i + 2;
            } else {
                return Err(CorruptRecordError::MalformedNameList);
            }
        } else if c == '|' {
            assert(s.drop_first() =~= chars@.subrange(i + 1, n as int));
            let ghost before = names_view(acc@);
            let ghost name = cur@;
            acc.push(cur);
            cur = String::new();
            assert(names_view(acc@) =~= before.push(name));
            assert(cur@ =~= Seq::<char>::empty());
            i = i + 1;
        } else {
            assert(s.drop_first() =~= chars@.subrange(i + 1, n as int));
            push_char(&mut cur, c);
            i = i + 1;
        }
    }
    assert(chars@.subrange(n as int, n as int) =~= Seq::<char>::empty());
    if cur.as_str().is_empty() {
        Ok(acc)
    } else {
        Err(CorruptRecordError::MalformedNameList)
    }
}

} // verus!
