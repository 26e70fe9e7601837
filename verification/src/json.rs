//! Rendering of the two JSON envelope shapes shipped over the wire: an
//! attributes object and a timeseries frame list, each wrapped in an object
//! whose single key is the originating device name.

use vstd::prelude::*;
use vstd::string::StrSliceExecFns;
use vstd::string::StringExecFns;

use crate::definitions::KvMap;
use crate::definitions::OneTelemetry;
use crate::definitions::TelemetryView;
use crate::text::dec_str_int;
use crate::text::fmt_i64;

verus! {

/// The lowercase hexadecimal digit character for a value below sixteen.
pub open spec fn hex_digit(d: nat) -> char {
    if d < 10 {
        crate::text::dec_digit(d)
    } else if d == 10 {
        'a'
    } else if d == 11 {
        'b'
    } else if d == 12 {
        'c'
    } else if d == 13 {
        'd'
    } else if d == 14 {
        'e'
    } else {
        'f'
    }
}

/// How one character appears inside a JSON string literal: quotes and
/// backslashes are escaped, control characters get their short escape or a
/// \u00XX escape, and everything else stands for itself.
pub open spec fn escape_char(c: char) -> Seq<char> {
    if c == '"' {
        seq!['\\', '"']
    } else if c == '\\' {
        seq!['\\', '\\']
    } else if c == '\u{08}' {
        seq!['\\', 'b']
    } else if c == '\t' {
        seq!['\\', 't']
    } else if c == '\n' {
        seq!['\\', 'n']
    } else if c == '\u{0C}' {
        seq!['\\', 'f']
    } else if c == '\r' {
        seq!['\\', 'r']
    } else if (c as u32) < 0x20 {
        seq!['\\', 'u', '0', '0', hex_digit((c as u32 / 16) as nat), hex_digit(
            (c as u32 % 16) as nat,
        )]
    } else {
        seq![c]
    }
}

/// A whole string escaped character by character.
pub open spec fn escape_str(s: Seq<char>) -> Seq<char>
    decreases s.len(),
{
    if s.len() == 0 {
        Seq::empty()
    } else {
        escape_char(s[0]) + escape_str(s.drop_first())
    }
}

proof fn lemma_escape_push(s: Seq<char>, c: char)
    ensures
        escape_str(s.push(c)) =~= escape_str(s) + escape_char(c),
    decreases s.len(),
{
    if s.len() == 0 {
        assert(s.push(c)[0] == c);
        assert(s.push(c).drop_first() =~= Seq::<char>::empty());
        assert(escape_str(s.push(c)) == escape_char(c) + escape_str(Seq::<char>::empty()));
        assert(escape_str(s.push(c)) =~= escape_str(s) + escape_char(c));
    } else {
        assert(s.push(c)[0] == s[0]);
        assert(s.push(c).drop_first() =~= s.drop_first().push(c));
        assert(escape_str(s.push(c)) == escape_char(s[0]) + escape_str(s.drop_first().push(c)));
        lemma_escape_push(s.drop_first(), c);
        assert(escape_str(s) == escape_char(s[0]) + escape_str(s.drop_first()));
        assert(escape_str(s.push(c)) =~= escape_str(s) + escape_char(c));
    }
}

/// A JSON string literal: the escaped characters between double quotes.
pub open spec fn json_string(s: Seq<char>) -> Seq<char> {
    seq!['"'] + escape_str(s) + seq!['"']
}

fn hex_digit_char(d: u32) -> (c: char)
    requires
        d < 16,
    ensures
        c == hex_digit(d as nat),
{
    match d {
        0 => '0',
        1 => '1',
        2 => '2',
        3 => '3',
        4 => '4',
        5 => '5',
        6 => '6',
        7 => '7',
        8 => '8',
        9 => '9',
        10 => 'a',
        11 => 'b',
        12 => 'c',
        13 => 'd',
        14 => 'e',
        _ => 'f',
    }
}

/// Appends one JSON string literal rendering the given text.
pub fn append_json_string(out: &mut String, s: &str)
    ensures
        final(out)@ =~= old(out)@ + json_string(s@),
{
    out.push('"');
    let len = s.unicode_len();
    let mut i: usize = 0;
    while i < len
        invariant
            len == s@.len(),
            i <= len,
            out@ =~= old(out)@ + seq!['"'] + escape_str(s@.take(i as int)),
        decreases len - i,
    {
        let c = s.get_char(i);
        proof {
            assert(s@.take(i as int + 1) =~= s@.take(i as int).push(s@[i as int]));
            lemma_escape_push(s@.take(i as int), s@[i as int]);
        }
        if c == '"' {
            out.push('\\');
            out.push('"');
        } else if c == '\\' {
            out.push('\\');
            out.push('\\');
        } else if c == '\u{08}' {
            out.push('\\');
            out.push('b');
        } else if c == '\t' {
            out.push('\\');
            out.push('t');
        } else if c == '\n' {
            out.push('\\');
            out.push('n');
        } else if c == '\u{0C}' {
            out.push('\\');
            out.push('f');
        } else if c == '\r' {
            out.push('\\');
            out.push('r');
        } else if (c as u32) < 0x20 {
            let d = c as u32;
            out.push('\\');
            out.push('u');
            out.push('0');
            out.push('0');
            out.push(hex_digit_char(d / 16));
            out.push(hex_digit_char(d % 16));
        } else {
            out.push(c);
        }
        i += 1;
    }
    out.push('"');
    proof {
        assert(s@.take(len as int) =~= s@);
    }
}

/// One `"key":"value"` member of a JSON object.
pub open spec fn kv_item_text(k: Seq<char>, v: Seq<char>) -> Seq<char> {
    json_string(k) + seq![':'] + json_string(v)
}

pub open spec fn kv_body_rest(pairs: Seq<(Seq<char>, Seq<char>)>) -> Seq<char>
    decreases pairs.len(),
{
    if pairs.len() == 0 {
        Seq::empty()
    } else {
        seq![','] + kv_item_text(pairs[0].0, pairs[0].1) + kv_body_rest(pairs.drop_first())
    }
}

/// The members of a JSON object, separated by commas.
pub open spec fn kv_body(pairs: Seq<(Seq<char>, Seq<char>)>) -> Seq<char> {
    if pairs.len() == 0 {
        Seq::empty()
    } else {
        kv_item_text(pairs[0].0, pairs[0].1) + kv_body_rest(pairs.drop_first())
    }
}

/// A JSON object of string values, in the order the pairs stand in the map.
pub open spec fn json_object(pairs: Seq<(Seq<char>, Seq<char>)>) -> Seq<char> {
    seq!['{'] + kv_body(pairs) + seq!['}']
}

proof fn lemma_kv_body_rest_push(pairs: Seq<(Seq<char>, Seq<char>)>, p: (Seq<char>, Seq<char>))
    ensures
        kv_body_rest(pairs.push(p)) =~= kv_body_rest(pairs) + seq![','] + kv_item_text(p.0, p.1),
    decreases pairs.len(),
{
    if pairs.len() == 0 {
        assert(pairs.push(p)[0] == p);
        assert(pairs.push(p).drop_first() =~= Seq::<(Seq<char>, Seq<char>)>::empty());
        assert(kv_body_rest(pairs.push(p)) == seq![','] + kv_item_text(p.0, p.1) + kv_body_rest(
            Seq::<(Seq<char>, Seq<char>)>::empty(),
        ));
        assert(kv_body_rest(pairs.push(p)) =~= kv_body_rest(pairs) + seq![','] + kv_item_text(
            p.0,
            p.1,
        ));
    } else {
        assert(pairs.push(p)[0] == pairs[0]);
        assert(pairs.push(p).drop_first() =~= pairs.drop_first().push(p));
        assert(kv_body_rest(pairs.push(p)) == seq![','] + kv_item_text(pairs[0].0, pairs[0].1)
            + kv_body_rest(pairs.drop_first().push(p)));
        lemma_kv_body_rest_push(pairs.drop_first(), p);
        assert(kv_body_rest(pairs) == seq![','] + kv_item_text(pairs[0].0, pairs[0].1)
            + kv_body_rest(pairs.drop_first()));
        assert(kv_body_rest(pairs.push(p)) =~= kv_body_rest(pairs) + seq![','] + kv_item_text(
            p.0,
            p.1,
        ));
    }
}

proof fn lemma_kv_body_push(pairs: Seq<(Seq<char>, Seq<char>)>, p: (Seq<char>, Seq<char>))
    ensures
        pairs.len() == 0 ==> kv_body(pairs.push(p)) =~= kv_item_text(p.0, p.1),
        pairs.len() > 0 ==> kv_body(pairs.push(p)) =~= kv_body(pairs) + seq![','] + kv_item_text(
            p.0,
            p.1,
        ),
{
    if pairs.len() == 0 {
        assert(pairs.push(p)[0] == p);
        assert(pairs.push(p).drop_first() =~= Seq::<(Seq<char>, Seq<char>)>::empty());
    } else {
        assert(pairs.push(p)[0] == pairs[0]);
        assert(pairs.push(p).drop_first() =~= pairs.drop_first().push(p));
        lemma_kv_body_rest_push(pairs.drop_first(), p);
    }
}

/// Appends the JSON object holding the map's pairs in order.
pub fn append_kv_object(out: &mut String, m: &KvMap)
    ensures
        final(out)@ =~= old(out)@ + json_object(m@),
{
    out.push('{');
    let n = m.pairs.len();
    let mut i: usize = 0;
    while i < n
        invariant
            n == m.pairs.len(),
            i <= n,
            out@ =~= old(out)@ + seq!['{'] + kv_body(m@.take(i as int)),
        decreases n - i,
    {
        proof {
            assert(m@.take(i as int + 1) =~= m@.take(i as int).push(m@[i as int]));
            lemma_kv_body_push(m@.take(i as int), m@[i as int]);
        }
        if i > 0 {
            out.push(',');
        }
        append_json_string(out, m.pairs[i].0.as_str());
        out.push(':');
        append_json_string(out, m.pairs[i].1.as_str());
        proof {
            assert(m@[i as int].0 == m.pairs@[i as int].0@);
            assert(m@[i as int].1 == m.pairs@[i as int].1@);
        }
        i += 1;
    }
    out.push('}');
    proof {
        assert(m@.take(n as int) =~= m@);
    }
}

/// One telemetry frame as wire JSON: its timestamp and its value map.
pub open spec fn frame_text(f: TelemetryView) -> Seq<char> {
    seq!['{', '"', 't', 's', '"', ':'] + dec_str_int(f.ts) + seq![',', '"', 'v', 'a', 'l', 'u', 'e', 's', '"', ':'] + json_object(f.values) + seq!['}']
}

pub open spec fn frames_body_rest(frames: Seq<TelemetryView>) -> Seq<char>
    decreases frames.len(),
{
    if frames.len() == 0 {
        Seq::empty()
    } else {
        seq![','] + frame_text(frames[0]) + frames_body_rest(frames.drop_first())
    }
}

/// The comma-separated frames of a timeseries message.
pub open spec fn frames_body(frames: Seq<TelemetryView>) -> Seq<char> {
    if frames.len() == 0 {
        Seq::empty()
    } else {
        frame_text(frames[0]) + frames_body_rest(frames.drop_first())
    }
}

/// The mathematical content of a sequence of frames.
pub open spec fn views_of_frames(frames: Seq<OneTelemetry>) -> Seq<TelemetryView> {
    frames.map(|i: int, t: OneTelemetry| t@)
}

proof fn lemma_frames_body_rest_push(frames: Seq<TelemetryView>, f: TelemetryView)
    ensures
        frames_body_rest(frames.push(f)) =~= frames_body_rest(frames) + seq![','] + frame_text(f),
    decreases frames.len(),
{
    if frames.len() == 0 {
        assert(frames.push(f)[0] == f);
        assert(frames.push(f).drop_first() =~= Seq::<TelemetryView>::empty());
        assert(frames_body_rest(frames.push(f)) == seq![','] + frame_text(f) + frames_body_rest(
            Seq::<TelemetryView>::empty(),
        ));
        assert(frames_body_rest(frames.push(f)) =~= frames_body_rest(frames) + seq![',']
            + frame_text(f));
    } else {
        assert(frames.push(f)[0] == frames[0]);
        assert(frames.push(f).drop_first() =~= frames.drop_first().push(f));
        assert(frames_body_rest(frames.push(f)) == seq![','] + frame_text(frames[0])
            + frames_body_rest(frames.drop_first().push(f)));
        lemma_frames_body_rest_push(frames.drop_first(), f);
        assert(frames_body_rest(frames) == seq![','] + frame_text(frames[0]) + frames_body_rest(
            frames.drop_first(),
        ));
        assert(frames_body_rest(frames.push(f)) =~= frames_body_rest(frames) + seq![',']
            + frame_text(f));
    }
}

proof fn lemma_frames_body_push(frames: Seq<TelemetryView>, f: TelemetryView)
    ensures
        frames.len() == 0 ==> frames_body(frames.push(f)) =~= frame_text(f),
        frames.len() > 0 ==> frames_body(frames.push(f)) =~= frames_body(frames) + seq![',']
            + frame_text(f),
{
    if frames.len() == 0 {
        assert(frames.push(f)[0] == f);
        assert(frames.push(f).drop_first() =~= Seq::<TelemetryView>::empty());
    } else {
        assert(frames.push(f)[0] == frames[0]);
        assert(frames.push(f).drop_first() =~= frames.drop_first().push(f));
        lemma_frames_body_rest_push(frames.drop_first(), f);
    }
}

/// Appends one frame's JSON object.
fn append_frame(out: &mut String, f: &OneTelemetry)
    ensures
        final(out)@ =~= old(out)@ + frame_text(f@),
{
    proof {
        reveal_strlit("{\"ts\":");
        reveal_strlit(",\"values\":");
    }
    out.append("{\"ts\":");
    let ts_text = fmt_i64(f.ts);
    out.append(ts_text.as_str());
    out.append(",\"values\":");
    append_kv_object(out, &f.values);
    out.push('}');
    proof {
        assert("{\"ts\":"@ =~= seq!['{', '"', 't', 's', '"', ':']);
        assert(",\"values\":"@ =~= seq![',', '"', 'v', 'a', 'l', 'u', 'e', 's', '"', ':']);
    }
}

/// Appends the JSON array holding the frames in order.
fn append_frames_array(out: &mut String, frames: &Vec<OneTelemetry>)
    ensures
        final(out)@ =~= old(out)@ + seq!['['] + frames_body(views_of_frames(frames@)) + seq![']'],
{
    out.push('[');
    let n = frames.len();
    let mut i: usize = 0;
    while i < n
        invariant
            n == frames@.len(),
            i <= n,
            out@ =~= old(out)@ + seq!['['] + frames_body(views_of_frames(frames@).take(i as int)),
        decreases n - i,
    {
        proof {
            assert(views_of_frames(frames@).take(i as int + 1) =~= views_of_frames(
                frames@,
            ).take(i as int).push(frames@[i as int]@));
            lemma_frames_body_push(views_of_frames(frames@).take(i as int), frames@[i as int]@);
        }
        if i > 0 {
            out.push(',');
        }
        append_frame(out, &frames[i]);
        i += 1;
    }
    out.push(']');
    proof {
        assert(views_of_frames(frames@).take(n as int) =~= views_of_frames(frames@));
    }
}

/// A JSON object with exactly one key: the envelope wrapper that names the
/// originating device and maps it to the message body.
pub open spec fn one_key_object(key: Seq<char>, body: Seq<char>) -> Seq<char> {
    seq!['{'] + json_string(key) + seq![':'] + body + seq!['}']
}

/// The attributes envelope: the device name mapping to its attribute object.
pub open spec fn attributes_envelope(
    device: Seq<char>,
    pairs: Seq<(Seq<char>, Seq<char>)>,
) -> Seq<char> {
    one_key_object(device, json_object(pairs))
}

/// The timeseries envelope: the device name mapping to its frame array.
pub open spec fn timeseries_envelope(device: Seq<char>, frames: Seq<TelemetryView>) -> Seq<char> {
    one_key_object(device, seq!['['] + frames_body(frames) + seq![']'])
}

/// Renders the attributes envelope for one device.
pub fn render_attributes_envelope(device: &String, attrs: &KvMap) -> (r: String)
    ensures
        r@ =~= attributes_envelope(device@, attrs@),
{
    let mut out = String::new();
    out.push('{');
    append_json_string(&mut out, device.as_str());
    out.push(':');
    append_kv_object(&mut out, attrs);
    out.push('}');
    out
}

/// Renders the timeseries envelope for one device.
pub fn render_timeseries_envelope(device: &String, frames: &Vec<OneTelemetry>) -> (r: String)
    ensures
        r@ =~= timeseries_envelope(device@, views_of_frames(frames@)),
{
    let mut out = String::new();
    out.push('{');
    append_json_string(&mut out, device.as_str());
    out.push(':');
    append_frames_array(&mut out, frames);
    out.push('}');
    out
}

/// Envelope keying: every emitted envelope is the rendering of a JSON object
/// with exactly one top-level key, and that key is the originating device
/// name.
pub proof fn lemma_envelope_keying(
    device: Seq<char>,
    pairs: Seq<(Seq<char>, Seq<char>)>,
    frames: Seq<TelemetryView>,
)
    ensures
        attributes_envelope(device, pairs) == one_key_object(device, json_object(pairs)),
        timeseries_envelope(device, frames) == one_key_object(
            device,
            seq!['['] + frames_body(frames) + seq![']'],
        ),
{
}

} // verus!
