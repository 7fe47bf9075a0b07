//! Serialization of the standard-json-input source document.
//!
//! The target explorer accepts source code only in the multi-file
//! standard-json-input shape, so the library frames that document itself:
//! JSON string escaping, the `sources` object mapping file names to
//! `{"content": ...}` entries, and the full document with `language` and
//! compiler `settings`. Escaping is lossless: an unescaping function is
//! defined and proved to recover the original text exactly.

use vstd::prelude::*;

verus! {

use crate::text::{
    spec_decimal,
    spec_hex_digit,
    str_to_chars,
    chars_to_string,
    hex_digit_char,
    u64_to_decimal,
};

/// The escaped form of one character inside a JSON string literal: quote and
/// backslash get a backslash prefix, control characters become `\u00XX`, and
/// every other character stands for itself.
pub open spec fn spec_escape_char(c: char) -> Seq<char> {
    if c == '"' {
        seq!['\\', '"']
    } else if c == '\\' {
        seq!['\\', '\\']
    } else if (c as u32) < 32 {
        seq![
            '\\',
            'u',
            '0',
            '0',
            spec_hex_digit((c as u32) as int / 16),
            spec_hex_digit((c as u32) as int % 16),
        ]
    } else {
        seq![c]
    }
}

/// The escaped form of a character sequence.
pub open spec fn spec_escape(s: Seq<char>) -> Seq<char>
    decreases s.len(),
{
    if s.len() == 0 {
        Seq::empty()
    } else {
        spec_escape(s.drop_last()) + spec_escape_char(s.last())
    }
}

/// A JSON string literal: the escaped text between double quotes.
pub open spec fn spec_quoted(s: Seq<char>) -> Seq<char> {
    seq!['"'] + spec_escape(s) + seq!['"']
}

/// The numeric value of a lower-case hex digit character.
pub open spec fn spec_hex_val(c: char) -> int {
    if c == '1' {
        1
    } else if c == '2' {
        2
    } else if c == '3' {
        3
    } else if c == '4' {
        4
    } else if c == '5' {
        5
    } else if c == '6' {
        6
    } else if c == '7' {
        7
    } else if c == '8' {
        8
    } else if c == '9' {
        9
    } else if c == 'a' {
        10
    } else if c == 'b' {
        11
    } else if c == 'c' {
        12
    } else if c == 'd' {
        13
    } else if c == 'e' {
        14
    } else if c == 'f' {
        15
    } else {
        0
    }
}

/// The inverse of [`spec_escape`]: backslash escapes are folded back into
/// the characters they stand for.
pub open spec fn spec_unescape(s: Seq<char>) -> Seq<char>
    decreases s.len(),
{
    if s.len() == 0 {
        Seq::empty()
    } else if s[0] == '\\' {
        if s.len() >= 2 && (s[1] == '"' || s[1] == '\\') {
            seq![s[1]] + spec_unescape(s.skip(2))
        } else if s.len() >= 6 && s[1] == 'u' {
            seq![(((16 * spec_hex_val(s[4]) + spec_hex_val(s[5])) as u32) as char)]
                + spec_unescape(s.skip(6))
        } else {
            spec_unescape(s.skip(1))
        }
    } else {
        seq![s[0]] + spec_unescape(s.skip(1))
    }
}

/// Escaping distributes over concatenation.
pub proof fn lemma_escape_app(a: Seq<char>, b: Seq<char>)
    ensures
        spec_escape(a + b) == spec_escape(a) + spec_escape(b),
    decreases b.len(),
{
    if b.len() == 0 {
        assert(a + b =~= a);
        assert(spec_escape(a) + spec_escape(b) =~= spec_escape(a));
    } else {
        lemma_escape_app(a, b.drop_last());
        assert((a + b).drop_last() =~= a + b.drop_last());
        assert((a + b).last() == b.last());
        assert(spec_escape(a) + spec_escape(b.drop_last()) + spec_escape_char(b.last()) =~= spec_escape(
            a,
        ) + (spec_escape(b.drop_last()) + spec_escape_char(b.last())));
    }
}

/// Escaping a one-character sequence gives that character's escape.
pub proof fn lemma_escape_single(c: char)
    ensures
        spec_escape(seq![c]) == spec_escape_char(c),
{
    let s = seq![c];
    assert(s.len() == 1);
    assert(s.last() == c);
    assert(s.drop_last() =~= Seq::<char>::empty());
    assert(spec_escape(s) == spec_escape(s.drop_last()) + spec_escape_char(s.last()));
    assert(spec_escape(s.drop_last()) =~= Seq::<char>::empty());
    assert(Seq::<char>::empty() + spec_escape_char(c) =~= spec_escape_char(c));
}

/// The hex digit characters decode back to their values.
proof fn lemma_hex_digit_val(d: int)
    requires
        0 <= d < 16,
    ensures
        spec_hex_val(spec_hex_digit(d)) == d,
{
}

/// Unescaping folds one leading character escape back off.
proof fn lemma_unescape_escape_char(c: char, t: Seq<char>)
    ensures
        spec_unescape(spec_escape_char(c) + t) == seq![c] + spec_unescape(t),
{
    let s = spec_escape_char(c) + t;
    if c == '"' {
        assert(s.skip(2) =~= t);
        assert(seq![s[1]] =~= seq![c]);
    } else if c == '\\' {
        assert(s.skip(2) =~= t);
        assert(seq![s[1]] =~= seq![c]);
    } else if (c as u32) < 32 {
        let u = (c as u32) as int;
        assert(s.len() >= 6);
        assert(s[0] == '\\' && s[1] == 'u');
        assert(s.skip(6) =~= t);
        lemma_hex_digit_val(u / 16);
        lemma_hex_digit_val(u % 16);
        assert(16 * spec_hex_val(s[4]) + spec_hex_val(s[5]) == u);
        vstd::utf8::char_u32_cast(c, c as u32);
        assert(seq![(((16 * spec_hex_val(s[4]) + spec_hex_val(s[5])) as u32) as char)] =~= seq![c]);
    } else {
        assert(s[0] == c && c != '\\');
        assert(s.skip(1) =~= t);
        assert(seq![s[0]] =~= seq![c]);
    }
}

/// Escaping is lossless: unescaping the escaped form of any text recovers
/// that text exactly, character for character.
pub proof fn lemma_escape_round_trip(s: Seq<char>)
    ensures
        spec_unescape(spec_escape(s)) == s,
    decreases s.len(),
{
    if s.len() == 0 {
    } else {
        let c = s[0];
        let rest = s.skip(1);
        assert(s =~= seq![c] + rest);
        lemma_escape_app(seq![c], rest);
        lemma_escape_single(c);
        lemma_unescape_escape_char(c, spec_escape(rest));
        lemma_escape_round_trip(rest);
        assert(seq![c] + rest =~= s);
    }
}

/// Append the escape of one character to the output.
fn push_escaped_char(out: &mut Vec<char>, c: char)
    ensures
        final(out)@ == old(out)@ + spec_escape_char(c),
{
    if c == '"' {
        out.push('\\');
        out.push('"');
        proof {
            assert(out@ =~= old(out)@ + spec_escape_char(c));
        }
    } else if c == '\\' {
        out.push('\\');
        out.push('\\');
        proof {
            assert(out@ =~= old(out)@ + spec_escape_char(c));
        }
    } else {
        let u = c as u32;
        if u < 32 {
            out.push('\\');
            out.push('u');
            out.push('0');
            out.push('0');
            out.push(hex_digit_char(u / 16));
            out.push(hex_digit_char(u % 16));
            proof {
                assert(out@ =~= old(out)@ + spec_escape_char(c));
            }
        } else {
            out.push(c);
            proof {
                assert(out@ =~= old(out)@ + spec_escape_char(c));
            }
        }
    }
}

/// Append a string slice to the character output unchanged.
fn append_str(out: &mut Vec<char>, s: &str)
    ensures
        final(out)@ == old(out)@ + s@,
{
    let mut cs = str_to_chars(s);
    out.append(&mut cs);
}

/// Append a JSON string literal holding `s` to the output.
fn append_quoted(out: &mut Vec<char>, s: &str)
    ensures
        final(out)@ == old(out)@ + spec_quoted(s@),
{
    out.push('"');
    let cs = str_to_chars(s);
    let mut i: usize = 0;
    while i < cs.len()
        invariant
            cs@ == s@,
            i <= cs@.len(),
            out@ == old(out)@ + seq!['"'] + spec_escape(s@.take(i as int)),
        decreases cs@.len() - i,
    {
        push_escaped_char(out, cs[i]);
        proof {
            assert(s@.take(i + 1 as int).drop_last() =~= s@.take(i as int));
            assert(s@.take(i + 1 as int).last() == s@[i as int]);
            assert(old(out)@ + seq!['"'] + spec_escape(s@.take(i as int)) + spec_escape_char(
                s@[i as int],
            ) =~= old(out)@ + seq!['"'] + spec_escape(s@.take(i + 1 as int)));
        }
        i += 1;
    }
    out.push('"');
    proof {
        assert(s@.take(s@.len() as int) =~= s@);
        assert(old(out)@ + seq!['"'] + spec_escape(s@) + seq!['"'] =~= old(out)@ + spec_quoted(s@));
    }
}

/// One `sources` entry: a quoted file name mapped to an object holding the
/// file's content.
pub open spec fn spec_sources_entry(path: Seq<char>, content: Seq<char>) -> Seq<char> {
    spec_quoted(path) + ":{\"content\":"@ + spec_quoted(content) + "}"@
}

/// The entries of a `sources` object, joined with commas, in input order.
pub open spec fn spec_entries_join(entries: Seq<(Seq<char>, Seq<char>)>) -> Seq<char>
    decreases entries.len(),
{
    if entries.len() == 0 {
        Seq::empty()
    } else if entries.len() == 1 {
        spec_sources_entry(entries[0].0, entries[0].1)
    } else {
        spec_entries_join(entries.drop_last()) + ","@ + spec_sources_entry(
            entries.last().0,
            entries.last().1,
        )
    }
}

/// The `sources` object: file name to content entries between braces.
pub open spec fn spec_sources_obj(entries: Seq<(Seq<char>, Seq<char>)>) -> Seq<char> {
    "{"@ + spec_entries_join(entries) + "}"@
}

/// The views of a list of name/content pairs.
pub open spec fn spec_views(entries: Seq<(String, String)>) -> Seq<(Seq<char>, Seq<char>)> {
    entries.map_values(|p: (String, String)| (p.0@, p.1@))
}

/// The compiler `settings` object carried by a synthesized document.
pub open spec fn spec_settings_obj(evm: Seq<char>, enabled: bool, runs: nat) -> Seq<char> {
    "{\"evm_version\":"@ + spec_quoted(evm) + ",\"libraries\":{},\"optimizer\":{\"enabled\":"@ + (
    if enabled {
        "true"@
    } else {
        "false"@
    }) + ",\"runs\":"@ + spec_decimal(runs) + "},\"remappings\":[]}"@
}

/// A full standard-json-input document: language, sources and settings.
pub open spec fn spec_standard_json_doc(
    evm: Seq<char>,
    enabled: bool,
    runs: nat,
    entries: Seq<(Seq<char>, Seq<char>)>,
) -> Seq<char> {
    "{\"language\":\"Solidity\",\"sources\":"@ + spec_sources_obj(entries) + ",\"settings\":"@
        + spec_settings_obj(evm, enabled, runs) + "}"@
}

/// Append the `sources` object for the given entries to the output.
fn append_sources_obj(out: &mut Vec<char>, entries: &Vec<(String, String)>)
    ensures
        final(out)@ == old(out)@ + spec_sources_obj(spec_views(entries@)),
{
    append_str(out, "{");
    let mut i: usize = 0;
    while i < entries.len()
        invariant
            i <= entries@.len(),
            out@ == old(out)@ + "{"@ + spec_entries_join(spec_views(entries@).take(i as int)),
        decreases entries@.len() - i,
    {
        if i > 0 {
            append_str(out, ",");
        }
        append_quoted(out, entries[i].0.as_str());
        append_str(out, ":{\"content\":");
        append_quoted(out, entries[i].1.as_str());
        append_str(out, "}");
        proof {
            let vs = spec_views(entries@);
            assert(vs[i as int] == (entries@[i as int].0@, entries@[i as int].1@));
            assert(vs.take(i + 1 as int).drop_last() =~= vs.take(i as int));
            assert(vs.take(i + 1 as int).last() == vs[i as int]);
            if i == 0 {
                assert(out@ =~= old(out)@ + "{"@ + spec_entries_join(vs.take(i + 1 as int)));
            } else {
                assert(out@ =~= old(out)@ + "{"@ + spec_entries_join(vs.take(i + 1 as int)));
            }
        }
        i += 1;
    }
    append_str(out, "}");
    proof {
        let vs = spec_views(entries@);
        assert(vs.take(entries@.len() as int) =~= vs);
        assert(out@ =~= old(out)@ + spec_sources_obj(vs));
    }
}

/// Serialize the map of file names to contents as a bare `sources` object.
pub fn serialize_sources_obj(entries: &Vec<(String, String)>) -> (r: String)
    ensures
        r@ == spec_sources_obj(spec_views(entries@)),
{
    let mut out: Vec<char> = Vec::new();
    append_sources_obj(&mut out, entries);
    proof {
        assert(Seq::<char>::empty() + spec_sources_obj(spec_views(entries@)) =~= spec_sources_obj(
            spec_views(entries@),
        ));
    }
    chars_to_string(&out)
}

/// Serialize a full standard-json-input document for the given compiler
/// settings and sources.
pub fn serialize_standard_json_doc(
    evm: &str,
    enabled: bool,
    runs: u64,
    entries: &Vec<(String, String)>,
) -> (r: String)
    ensures
        r@ == spec_standard_json_doc(evm@, enabled, runs as nat, spec_views(entries@)),
{
    let mut out: Vec<char> = Vec::new();
    append_str(&mut out, "{\"language\":\"Solidity\",\"sources\":");
    append_sources_obj(&mut out, entries);
    append_str(&mut out, ",\"settings\":");
    append_str(&mut out, "{\"evm_version\":");
    append_quoted(&mut out, evm);
    append_str(&mut out, ",\"libraries\":{},\"optimizer\":{\"enabled\":");
    if enabled {
        append_str(&mut out, "true");
    } else {
        append_str(&mut out, "false");
    }
    append_str(&mut out, ",\"runs\":");
    let runs_text = u64_to_decimal(runs);
    append_str(&mut out, runs_text.as_str());
    append_str(&mut out, "},\"remappings\":[]}");
    append_str(&mut out, "}");
    proof {
        assert(out@ =~= spec_standard_json_doc(
            evm@,
            enabled,
            runs as nat,
            spec_views(entries@),
        ));
    }
    chars_to_string(&out)
}

} // verus!
