//! The wire body of the outbound request: a webhook payload rendered as one
//! JSON document, `{"content":...,"embeds":[...]}`. Strings are escaped as
//! JSON requires: quote and backslash get a backslash escape, control
//! characters a `\u00XX` escape, every other character stands as it is.

use vstd::prelude::*;
use vstd::string::StringExecFns;
use vstd::string::StrSliceExecFns;
use crate::discord::{Embed, EmbedView, FieldView, PayloadView, WebhookPayload};

verus! {

/// Relies on String::push: appends exactly the given character.
pub assume_specification[ String::push ](s: &mut String, ch: char)
    ensures
        final(s)@ == old(s)@.push(ch),
;

/// The lower-case hex digit for a value below sixteen.
pub open spec fn spec_hex_digit(n: int) -> char {
    if n == 0 { '0' } else if n == 1 { '1' } else if n == 2 { '2' } else if n == 3 { '3' }
    else if n == 4 { '4' } else if n == 5 { '5' } else if n == 6 { '6' } else if n == 7 { '7' }
    else if n == 8 { '8' } else if n == 9 { '9' } else if n == 10 { 'a' } else if n == 11 { 'b' }
    else if n == 12 { 'c' } else if n == 13 { 'd' } else if n == 14 { 'e' } else { 'f' }
}

/// How one character is written inside a JSON string literal.
pub open spec fn spec_escape_char(c: char) -> Seq<char> {
    if c == '"' {
        seq!['\\', '"']
    } else if c == '\\' {
        seq!['\\', '\\']
    } else if (c as u32) < 0x20 {
        seq!['\\', 'u', '0', '0', spec_hex_digit(c as u32 as int / 16), spec_hex_digit(
            c as u32 as int % 16,
        )]
    } else {
        seq![c]
    }
}

/// A whole character sequence escaped for a JSON string literal.
pub open spec fn spec_escape(s: Seq<char>) -> Seq<char>
    decreases s.len(),
{
    if s.len() == 0 {
        Seq::empty()
    } else {
        spec_escape_char(s[0]) + spec_escape(s.drop_first())
    }
}

/// A JSON string literal: the escaped characters between double quotes.
pub open spec fn spec_json_string(s: Seq<char>) -> Seq<char> {
    seq!['"'] + spec_escape(s) + seq!['"']
}

/// The decimal digits of a number, most significant first.
pub open spec fn spec_decimal(n: nat) -> Seq<char>
    decreases n,
{
    if n < 10 {
        seq![spec_hex_digit(n as int)]
    } else {
        spec_decimal(n / 10) + seq![spec_hex_digit(n as int % 10)]
    }
}

/// One field object: `{"name":...,"value":...}`.
pub open spec fn spec_json_field(f: FieldView) -> Seq<char> {
    "{\"name\":"@ + spec_json_string(f.name) + ",\"value\":"@ + spec_json_string(f.value) + "}"@
}

/// A comma-separated list of field objects.
pub open spec fn spec_json_fields(fs: Seq<FieldView>) -> Seq<char>
    decreases fs.len(),
{
    if fs.len() == 0 {
        Seq::empty()
    } else if fs.len() == 1 {
        spec_json_field(fs[0])
    } else {
        spec_json_field(fs[0]) + ","@ + spec_json_fields(fs.drop_first())
    }
}

/// One embed object: a title (or null), a color, and the field list.
pub open spec fn spec_json_embed(e: EmbedView) -> Seq<char> {
    "{\"title\":"@ + (match e.title {
        Some(t) => spec_json_string(t),
        None => "null"@,
    }) + ",\"color\":"@ + spec_decimal(e.color as nat) + ",\"fields\":["@ + spec_json_fields(
        e.fields,
    ) + "]}"@
}

/// A comma-separated list of embed objects.
pub open spec fn spec_json_embeds(es: Seq<EmbedView>) -> Seq<char>
    decreases es.len(),
{
    if es.len() == 0 {
        Seq::empty()
    } else if es.len() == 1 {
        spec_json_embed(es[0])
    } else {
        spec_json_embed(es[0]) + ","@ + spec_json_embeds(es.drop_first())
    }
}

/// The whole JSON document for a payload.
pub open spec fn spec_json_payload(p: PayloadView) -> Seq<char> {
    "{\"content\":"@ + spec_json_string(p.content) + ",\"embeds\":["@ + spec_json_embeds(p.embeds)
        + "]}"@
}

proof fn lemma_escape_snoc(s: Seq<char>, c: char)
    ensures
        spec_escape(s.push(c)) == spec_escape(s) + spec_escape_char(c),
    decreases s.len(),
{
    if s.len() == 0 {
        let t = s.push(c);
        assert(t[0] == c);
        assert(t.drop_first() =~= Seq::<char>::empty());
        assert(spec_escape(t.drop_first()) == Seq::<char>::empty());
        assert(spec_escape(t) == spec_escape_char(c) + Seq::<char>::empty());
        assert(spec_escape(s) == Seq::<char>::empty());
        assert(spec_escape_char(c) + Seq::<char>::empty() =~= Seq::<char>::empty()
            + spec_escape_char(c));
    } else {
        lemma_escape_snoc(s.drop_first(), c);
        assert(s.push(c).drop_first() =~= s.drop_first().push(c));
        assert(spec_escape(s.push(c)) =~= spec_escape(s) + spec_escape_char(c));
    }
}

proof fn lemma_fields_snoc(fs: Seq<FieldView>, f: FieldView)
    ensures
        fs.len() == 0 ==> spec_json_fields(fs.push(f)) == spec_json_field(f),
        fs.len() > 0 ==> spec_json_fields(fs.push(f)) == spec_json_fields(fs) + ","@
            + spec_json_field(f),
    decreases fs.len(),
{
    if fs.len() == 0 {
        assert(fs.push(f)[0] == f);
    } else {
        lemma_fields_snoc(fs.drop_first(), f);
        assert(fs.push(f).drop_first() =~= fs.drop_first().push(f));
        assert(spec_json_fields(fs.push(f)) =~= spec_json_fields(fs) + ","@
            + spec_json_field(f));
    }
}

proof fn lemma_embeds_snoc(es: Seq<EmbedView>, e: EmbedView)
    ensures
        es.len() == 0 ==> spec_json_embeds(es.push(e)) == spec_json_embed(e),
        es.len() > 0 ==> spec_json_embeds(es.push(e)) == spec_json_embeds(es) + ","@
            + spec_json_embed(e),
    decreases es.len(),
{
    if es.len() == 0 {
        assert(es.push(e)[0] == e);
    } else {
        lemma_embeds_snoc(es.drop_first(), e);
        assert(es.push(e).drop_first() =~= es.drop_first().push(e));
        assert(spec_json_embeds(es.push(e)) =~= spec_json_embeds(es) + ","@
            + spec_json_embed(e));
    }
}

fn hex_digit(n: u32) -> (r: char)
    requires
        n < 16,
    ensures
        r == spec_hex_digit(n as int),
{
    match n {
        0 => '0',
        1 => '1',
        2 => '2',
        3 => '3',
        4 => '4',
        5 => '5',
        6 => '6',
        7 => '7',
        8 => '8',
        9 => '9',
        10 => 'a',
        11 => 'b',
        12 => 'c',
        13 => 'd',
        14 => 'e',
        _ => 'f',
    }
}

/// Appends the escaped form of `s` to `out`.
fn push_escaped(out: &mut String, s: &str)
    ensures
        final(out)@ == old(out)@ + spec_escape(s@),
{
    let n = s.unicode_len();
    let mut i: usize = 0;
    while i < n
        invariant
            n == s@.len(),
            i <= n,
            out@ == old(out)@ + spec_escape(s@.take(i as int)),
        decreases n - i,
    {
        let c = s.get_char(i);
        if c == '"' {
            out.append("\\\"");
        } else if c == '\\' {
            out.append("\\\\");
        } else if (c as u32) < 0x20 {
            out.append("\\u00");
            out.push(hex_digit((c as u32) / 16));
            out.push(hex_digit((c as u32) % 16));
        } else {
            out.push(c);
        }
        proof {
            lemma_escape_snoc(s@.take(i as int), s@[i as int]);
            assert(s@.take(i + 1 as int) =~= s@.take(i as int).push(s@[i as int]));
            reveal_strlit("\\\"");
            reveal_strlit("\\\\");
            reveal_strlit("\\u00");
            assert(out@ =~= old(out)@ + spec_escape(s@.take(i + 1 as int)));
        }
        i = i + 1;
    }
    proof {
        assert(s@.take(n as int) =~= s@);
    }
}

/// Appends `s` as a JSON string literal to `out`.
fn push_json_string(out: &mut String, s: &str)
    ensures
        final(out)@ == old(out)@ + spec_json_string(s@),
{
    out.push('"');
    push_escaped(out, s);
    out.push('"');
    proof {
        assert(out@ =~= old(out)@ + spec_json_string(s@));
    }
}

/// Appends the decimal digits of `n` to `out`.
fn push_decimal(out: &mut String, n: u32)
    ensures
        final(out)@ == old(out)@ + spec_decimal(n as nat),
    decreases n,
{
    if n < 10 {
        out.push(hex_digit(n));
    } else {
        push_decimal(out, n / 10);
        out.push(hex_digit(n % 10));
    }
}

/// Appends one embed object to `out`.
fn push_embed(out: &mut String, e: &Embed)
    ensures
        final(out)@ == old(out)@ + spec_json_embed(e@),
{
    out.append("{\"title\":");
    match &e.title {
        Some(t) => push_json_string(out, t.as_str()),
        None => out.append("null"),
    }
    out.append(",\"color\":");
    push_decimal(out, e.color);
    out.append(",\"fields\":[");
    let ghost fields_start: Seq<char> = out@;
    let mut i: usize = 0;
    while i < e.fields.len()
        invariant
            i <= e.fields@.len(),
            e.fields.deep_view().len() == e.fields@.len(),
            forall|j: int|
                0 <= j < e.fields@.len() ==> e.fields.deep_view()[j] == #[trigger] e.fields@[j]@,
            out@ == fields_start + spec_json_fields(e.fields.deep_view().take(i as int)),
        decreases e.fields@.len() - i,
    {
        if i > 0 {
            out.append(",");
        }
        out.append("{\"name\":");
        push_json_string(out, e.fields[i].name.as_str());
        out.append(",\"value\":");
        push_json_string(out, e.fields[i].value.as_str());
        out.append("}");
        proof {
            lemma_fields_snoc(e.fields.deep_view().take(i as int), e.fields@[i as int]@);
            assert(e.fields.deep_view().take(i + 1 as int) =~= e.fields.deep_view().take(
                i as int,
            ).push(e.fields@[i as int]@));
            assert(out@ =~= fields_start + spec_json_fields(
                e.fields.deep_view().take(i + 1 as int),
            ));
        }
        i = i + 1;
    }
    out.append("]}");
    proof {
        assert(e.fields.deep_view().take(e.fields@.len() as int) =~= e.fields.deep_view());
        assert(out@ =~= old(out)@ + spec_json_embed(e@));
    }
}

/// Renders a payload as the JSON body of the outbound request.
pub fn to_json(p: &WebhookPayload) -> (r: String)
    ensures
        r@ == spec_json_payload(p@),
{
    let mut out = String::new();
    out.append("{\"content\":");
    push_json_string(&mut out, p.content.as_str());
    out.append(",\"embeds\":[");
    let ghost embeds_start: Seq<char> = out@;
    let mut i: usize = 0;
    while i < p.embeds.len()
        invariant
            i <= p.embeds@.len(),
            p.embeds.deep_view().len() == p.embeds@.len(),
            forall|j: int|
                0 <= j < p.embeds@.len() ==> p.embeds.deep_view()[j] == #[trigger] p.embeds@[j]@,
            out@ == embeds_start + spec_json_embeds(p.embeds.deep_view().take(i as int)),
        decreases p.embeds@.len() - i,
    {
        if i > 0 {
            out.append(",");
        }
        push_embed(&mut out, &p.embeds[i]);
        proof {
            lemma_embeds_snoc(p.embeds.deep_view().take(i as int), p.embeds@[i as int]@);
            assert(p.embeds.deep_view().take(i + 1 as int) =~= p.embeds.deep_view().take(
                i as int,
            ).push(p.embeds@[i as int]@));
            assert(out@ =~= embeds_start + spec_json_embeds(
                p.embeds.deep_view().take(i + 1 as int),
            ));
        }
        i = i + 1;
    }
    out.append("]}");
    proof {
        assert(p.embeds.deep_view().take(p.embeds@.len() as int) =~= p.embeds.deep_view());
        assert(out@ =~= spec_json_payload(p@));
    }
    out
}

} // verus!
