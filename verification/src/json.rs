//! The JSON body of the search endpoint: `{"results":[...]}` with one
//! object per record, each opening with its kind tag. The whole body is
//! assembled here, character by character, against a spec of the exact text.

use vstd::prelude::*;
use crate::model::{Record, RecordView};

verus! {

/// The hexadecimal digit for `n`.
pub open spec fn hex_char(n: nat) -> char
    recommends
        n < 16,
{
    if n == 0 {
        '0'
    } else if n == 1 {
        '1'
    } else if n == 2 {
        '2'
    } else if n == 3 {
        '3'
    } else if n == 4 {
        '4'
    } else if n == 5 {
        '5'
    } else if n == 6 {
        '6'
    } else if n == 7 {
        '7'
    } else if n == 8 {
        '8'
    } else if n == 9 {
        '9'
    } else if n == 10 {
        'a'
    } else if n == 11 {
        'b'
    } else if n == 12 {
        'c'
    } else if n == 13 {
        'd'
    } else if n == 14 {
        'e'
    } else {
        'f'
    }
}

/// The escape of one character inside a JSON string: the quote and the
/// backslash take a backslash, control characters become `\u00XY`, and
/// everything else stands for itself.
pub open spec fn json_escaped_char(c: char) -> Seq<char> {
    if c == '"' {
        seq!['\\', '"']
    } else if c == '\\' {
        seq!['\\', '\\']
    } else if (c as u32) < 32 {
        seq!['\\', 'u', '0', '0', hex_char((c as u32 / 16) as nat), hex_char((c as u32 % 16) as nat)]
    } else {
        seq![c]
    }
}

/// The escaped form of a whole character sequence.
pub open spec fn json_escaped(s: Seq<char>) -> Seq<char>
    decreases s.len(),
{
    if s.len() == 0 {
        Seq::empty()
    } else {
        json_escaped(s.drop_last()) + json_escaped_char(s.last())
    }
}

/// A JSON string: the escaped characters between quotes.
pub open spec fn json_str(s: Seq<char>) -> Seq<char> {
    seq!['"'] + json_escaped(s) + seq!['"']
}

/// The decimal digit for `n`.
pub open spec fn digit_char(n: nat) -> char
    recommends
        n < 10,
{
    hex_char(n)
}

/// The decimal digits of `n`, most significant first, no leading zeros.
pub open spec fn digits_u8(n: u8) -> Seq<char>
    decreases n,
{
    if n < 10 {
        seq![digit_char(n as nat)]
    } else {
        digits_u8(n / 10).push(digit_char((n % 10) as nat))
    }
}

/// The kind tag a record carries in its serialised form.
pub open spec fn kind_tag(r: RecordView) -> Seq<char> {
    match r {
        RecordView::Composition(_) => "Composition"@,
        RecordView::Person(_) => "Person"@,
        RecordView::Text(_) => "Text"@,
        RecordView::Publication(_) => "Publication"@,
        RecordView::Mode(_) => "Mode"@,
    }
}

/// The fields of one record, after its kind tag.
pub open spec fn record_fields(r: RecordView) -> Seq<char> {
    match r {
        RecordView::Composition(c) => ",\"id\":"@ + json_str(c.id) + ",\"title\":"@ + json_str(
            c.title,
        ),
        RecordView::Person(p) => ",\"id\":"@ + json_str(p.id) + ",\"name\":"@ + json_str(p.name)
            + ",\"compositions\":["@ + strings_json(p.compositions) + "]"@,
        RecordView::Text(t) => ",\"id\":"@ + json_str(t.id) + ",\"title\":"@ + json_str(t.title),
        RecordView::Publication(p) => ",\"id\":"@ + json_str(p.id) + ",\"title\":"@ + json_str(
            p.title,
        ),
        RecordView::Mode(m) => ",\"key\":"@ + digits_u8(m.key) + ",\"name\":"@ + json_str(m.name),
    }
}

/// One record as a JSON object: it opens with its kind tag, so a client can
/// dispatch on the discriminator.
pub open spec fn record_json(r: RecordView) -> Seq<char> {
    "{\"kind\":\""@ + kind_tag(r) + "\""@ + record_fields(r) + "}"@
}

/// A comma-joined array body of JSON strings.
pub open spec fn strings_json(ss: Seq<Seq<char>>) -> Seq<char>
    decreases ss.len(),
{
    if ss.len() == 0 {
        Seq::empty()
    } else if ss.len() == 1 {
        json_str(ss[0])
    } else {
        strings_json(ss.drop_last()) + seq![','] + json_str(ss.last())
    }
}

/// A comma-joined array body of record objects.
pub open spec fn records_json(rs: Seq<RecordView>) -> Seq<char>
    decreases rs.len(),
{
    if rs.len() == 0 {
        Seq::empty()
    } else if rs.len() == 1 {
        record_json(rs[0])
    } else {
        records_json(rs.drop_last()) + seq![','] + record_json(rs.last())
    }
}

/// The whole search body: one object with the single field `results`.
pub open spec fn search_body_spec(rs: Seq<RecordView>) -> Seq<char> {
    "{\"results\":["@ + records_json(rs) + "]}"@
}

/// Relies on `<String as FromIterator<char>>::from_iter` (through
/// `Iterator::collect`): collecting characters yields the string of exactly
/// those characters, in order.
#[verifier::external_body]
fn chars_to_string(v: Vec<char>) -> (r: String)
    ensures
        r@ == v@,
{
    v.into_iter().collect()
}

/// Appends the characters of `s` to `out`.
fn push_str_chars(out: &mut Vec<char>, s: &str)
    ensures
        final(out)@ == old(out)@ + s@,
{
    let n = s.unicode_len();
    let mut i: usize = 0;
    while i < n
        invariant
            n == s@.len(),
            i <= n,
            out@ == old(out)@ + s@.take(i as int),
        decreases n - i,
    {
        let c = s.get_char(i);
        out.push(c);
        i = i + 1;
        proof {
            assert(out@ =~= old(out)@ + s@.take(i as int));
        }
    }
    proof {
        assert(out@ =~= old(out)@ + s@);
    }
}

/// Appends the escape of one character to `out`.
fn push_escaped_char(out: &mut Vec<char>, c: char)
    ensures
        final(out)@ == old(out)@ + json_escaped_char(c),
{
    let cv = c as u32;
    if c == '"' {
        out.push('\\');
        out.push('"');
    } else if c == '\\' {
        out.push('\\');
        out.push('\\');
    } else if cv < 32 {
        out.push('\\');
        out.push('u');
        out.push('0');
        out.push('0');
        out.push(hex_char_of(cv / 16));
        out.push(hex_char_of(cv % 16));
    } else {
        out.push(c);
    }
    proof {
        assert(out@ =~= old(out)@ + json_escaped_char(c));
    }
}

/// The hexadecimal digit for `n`, executably.
fn hex_char_of(n: u32) -> (r: char)
    requires
        n < 16,
    ensures
        r == hex_char(n as nat),
{
    if n == 0 {
        '0'
    } else if n == 1 {
        '1'
    } else if n == 2 {
        '2'
    } else if n == 3 {
        '3'
    } else if n == 4 {
        '4'
    } else if n == 5 {
        '5'
    } else if n == 6 {
        '6'
    } else if n == 7 {
        '7'
    } else if n == 8 {
        '8'
    } else if n == 9 {
        '9'
    } else if n == 10 {
        'a'
    } else if n == 11 {
        'b'
    } else if n == 12 {
        'c'
    } else if n == 13 {
        'd'
    } else if n == 14 {
        'e'
    } else {
        'f'
    }
}

/// Appends a JSON string made of `s` to `out`.
fn push_json_str(out: &mut Vec<char>, s: &str)
    ensures
        final(out)@ == old(out)@ + json_str(s@),
{
    out.push('"');
    let n = s.unicode_len();
    let mut i: usize = 0;
    while i < n
        invariant
            n == s@.len(),
            i <= n,
            out@ == old(out)@ + seq!['"'] + json_escaped(s@.take(i as int)),
        decreases n - i,
    {
        let c = s.get_char(i);
        proof {
            assert(s@.take(i as int + 1).drop_last() =~= s@.take(i as int));
            assert(s@.take(i as int + 1).last() == s@[i as int]);
        }
        push_escaped_char(out, c);
        i = i + 1;
    }
    proof {
        assert(s@.take(n as int) =~= s@);
    }
    out.push('"');
    proof {
        assert(out@ =~= old(out)@ + json_str(s@));
    }
}

/// Appends the decimal digits of `n` to `out`.
fn push_digits_u8(out: &mut Vec<char>, n: u8)
    ensures
        final(out)@ == old(out)@ + digits_u8(n),
    decreases n,
{
    if n < 10 {
        out.push(hex_char_of(n as u32));
    } else {
        push_digits_u8(out, n / 10);
        out.push(hex_char_of((n % 10) as u32));
    }
    proof {
        assert(out@ =~= old(out)@ + digits_u8(n));
    }
}

/// Appends the comma-joined JSON strings of `ss` to `out`.
fn push_strings_json(out: &mut Vec<char>, ss: &Vec<String>)
    ensures
        final(out)@ == old(out)@ + strings_json(ss.deep_view()),
{
    let mut i: usize = 0;
    while i < ss.len()
        invariant
            i <= ss@.len(),
            ss.deep_view().len() == ss@.len(),
            forall|j: int| 0 <= j < ss@.len() ==> ss.deep_view()[j] == (#[trigger] ss@[j])@,
            out@ == old(out)@ + strings_json(ss.deep_view().take(i as int)),
        decreases ss@.len() - i,
    {
        if i > 0 {
            out.push(',');
        }
        push_json_str(out, ss[i].as_str());
        proof {
            let d = ss.deep_view();
            assert(d.take(i as int + 1).drop_last() =~= d.take(i as int));
            assert(d.take(i as int + 1).last() == d[i as int]);
            if i == 0 {
                assert(strings_json(d.take(1)) == json_str(d[0]));
                assert(out@ =~= old(out)@ + strings_json(d.take(i as int + 1)));
            } else {
                assert(out@ =~= old(out)@ + strings_json(d.take(i as int + 1)));
            }
        }
        i = i + 1;
    }
    proof {
        assert(ss.deep_view().take(ss@.len() as int) =~= ss.deep_view());
    }
}

/// Appends one record object to `out`.
fn push_record_json(out: &mut Vec<char>, r: &Record)
    ensures
        final(out)@ == old(out)@ + record_json(r@),
{
    push_str_chars(out, "{\"kind\":\"");
    match r {
        Record::Composition(c) => {
            push_str_chars(out, "Composition");
            push_str_chars(out, "\"");
            push_str_chars(out, ",\"id\":");
            push_json_str(out, c.id.as_str());
            push_str_chars(out, ",\"title\":");
            push_json_str(out, c.title.as_str());
        },
        Record::Person(p) => {
            push_str_chars(out, "Person");
            push_str_chars(out, "\"");
            push_str_chars(out, ",\"id\":");
            push_json_str(out, p.id.as_str());
            push_str_chars(out, ",\"name\":");
            push_json_str(out, p.name.as_str());
            push_str_chars(out, ",\"compositions\":[");
            push_strings_json(out, &p.compositions);
            push_str_chars(out, "]");
        },
        Record::Text(t) => {
            push_str_chars(out, "Text");
            push_str_chars(out, "\"");
            push_str_chars(out, ",\"id\":");
            push_json_str(out, t.id.as_str());
            push_str_chars(out, ",\"title\":");
            push_json_str(out, t.title.as_str());
        },
        Record::Publication(p) => {
            push_str_chars(out, "Publication");
            push_str_chars(out, "\"");
            push_str_chars(out, ",\"id\":");
            push_json_str(out, p.id.as_str());
            push_str_chars(out, ",\"title\":");
            push_json_str(out, p.title.as_str());
        },
        Record::Mode(m) => {
            push_str_chars(out, "Mode");
            push_str_chars(out, "\"");
            push_str_chars(out, ",\"key\":");
            push_digits_u8(out, m.key);
            push_str_chars(out, ",\"name\":");
            push_json_str(out, m.name.as_str());
        },
    }
    push_str_chars(out, "}");
    proof {
        assert(out@ =~= old(out)@ + record_json(r@));
    }
}

/// Builds the UTF-8 search body for `results`: exactly the text of
/// `search_body_spec`.
pub fn search_body(results: &Vec<Record>) -> (r: String)
    ensures
        r@ == search_body_spec(results.deep_view()),
{
    let mut out: Vec<char> = Vec::new();
    push_str_chars(&mut out, "{\"results\":[");
    let mut i: usize = 0;
    while i < results.len()
        invariant
            i <= results@.len(),
            results.deep_view().len() == results@.len(),
            forall|j: int|
                0 <= j < results@.len() ==> results.deep_view()[j] == (#[trigger] results@[j])@,
            out@ == "{\"results\":["@ + records_json(results.deep_view().take(i as int)),
        decreases results@.len() - i,
    {
        if i > 0 {
            out.push(',');
        }
        push_record_json(&mut out, &results[i]);
        proof {
            let d = results.deep_view();
            assert(d.take(i as int + 1).drop_last() =~= d.take(i as int));
            assert(d.take(i as int + 1).last() == d[i as int]);
            assert(out@ =~= "{\"results\":["@ + records_json(d.take(i as int + 1)));
        }
        i = i + 1;
    }
    push_str_chars(&mut out, "]}");
    proof {
        assert(results.deep_view().take(results@.len() as int) =~= results.deep_view());
        assert(out@ =~= search_body_spec(results.deep_view()));
    }
    chars_to_string(out)
}

/// The search body is one JSON object with the single field `results`: an
/// array that joins its member objects with commas, each member opening with
/// a kind tag drawn from the five record kinds.
pub proof fn lemma_search_body_shape(rs: Seq<RecordView>)
    ensures
        search_body_spec(rs) == "{\"results\":["@ + records_json(rs) + "]}"@,
        rs.len() == 0 ==> records_json(rs) == Seq::<char>::empty(),
        rs.len() > 0 ==> records_json(rs) == records_json(rs.drop_last()) + (if rs.len() == 1 {
            Seq::<char>::empty()
        } else {
            seq![',']
        }) + record_json(rs.last()),
        forall|i: int|
            0 <= i < rs.len() ==> (#[trigger] record_json(rs[i])) == "{\"kind\":\""@ + kind_tag(
                rs[i],
            ) + "\""@ + record_fields(rs[i]) + "}"@,
        forall|i: int|
            0 <= i < rs.len() ==> kind_tag(#[trigger] rs[i]) == "Composition"@ || kind_tag(rs[i])
                == "Person"@ || kind_tag(rs[i]) == "Text"@ || kind_tag(rs[i]) == "Publication"@
                || kind_tag(rs[i]) == "Mode"@,
{
    if rs.len() == 1 {
        assert(rs.drop_last() =~= Seq::<RecordView>::empty());
        assert(records_json(rs.drop_last()) + Seq::<char>::empty() + record_json(rs.last())
            =~= record_json(rs[0]));
    }
}

} // verus!
