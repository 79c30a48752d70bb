//! The wire frame: one JSON array of snapshot objects per polling cycle,
//! pushed as a single text message. The encoding is specified character by
//! character and the encoder is proved against it.

use vstd::prelude::*;
use crate::snapshot::{MediaSnapshot, SnapshotView};

verus! {

/// Decimal digit character of a value below ten.
pub open spec fn dec_digit(d: nat) -> char {
    if d == 0 {
        '0'
    } else if d == 1 {
        '1'
    } else if d == 2 {
        '2'
    } else if d == 3 {
        '3'
    } else if d == 4 {
        '4'
    } else if d == 5 {
        '5'
    } else if d == 6 {
        '6'
    } else if d == 7 {
        '7'
    } else if d == 8 {
        '8'
    } else {
        '9'
    }
}

/// Lowercase hexadecimal digit character of a value below sixteen.
pub open spec fn hex_digit(d: nat) -> char {
    if d < 10 {
        dec_digit(d)
    } else if d == 10 {
        'a'
    } else if d == 11 {
        'b'
    } else if d == 12 {
        'c'
    } else if d == 13 {
        'd'
    } else if d == 14 {
        'e'
    } else {
        'f'
    }
}

/// Decimal representation of a number, most significant digit first, no
/// leading zeros.
pub open spec fn dec_rep(n: nat) -> Seq<char>
    decreases n,
{
    if n < 10 {
        seq![dec_digit(n)]
    } else {
        dec_rep(n / 10).push(dec_digit(n % 10))
    }
}

/// JSON escape of one character: quote and backslash escaped, the named
/// control escapes where JSON has them, `\u00..` for the other control
/// characters, everything else verbatim.
pub open spec fn escape_char(c: char) -> Seq<char> {
    if c == '"' {
        seq!['\\', '"']
    } else if c == '\\' {
        seq!['\\', '\\']
    } else if c == '\u{8}' {
        seq!['\\', 'b']
    } else if c == '\u{9}' {
        seq!['\\', 't']
    } else if c == '\u{a}' {
        seq!['\\', 'n']
    } else if c == '\u{c}' {
        seq!['\\', 'f']
    } else if c == '\u{d}' {
        seq!['\\', 'r']
    } else if (c as u32) < 32 {
        seq!['\\', 'u', '0', '0', hex_digit((c as u32 / 16) as nat), hex_digit(
            (c as u32 % 16) as nat,
        )]
    } else {
        seq![c]
    }
}

/// JSON escape of a whole character sequence.
pub open spec fn escape_seq(s: Seq<char>) -> Seq<char>
    decreases s.len(),
{
    if s.len() == 0 {
        Seq::empty()
    } else {
        escape_seq(s.drop_last()) + escape_char(s.last())
    }
}

/// A JSON string literal: the escaped characters between quotes.
pub open spec fn json_string(s: Seq<char>) -> Seq<char> {
    seq!['"'] + escape_seq(s) + seq!['"']
}

/// A JSON boolean literal.
pub open spec fn json_bool(b: bool) -> Seq<char> {
    if b {
        seq!['t', 'r', 'u', 'e']
    } else {
        seq!['f', 'a', 'l', 's', 'e']
    }
}

/// The comma-separated decimal values of a byte sequence.
pub open spec fn bytes_items(s: Seq<u8>) -> Seq<char>
    decreases s.len(),
{
    if s.len() == 0 {
        Seq::empty()
    } else if s.len() == 1 {
        dec_rep(s[0] as nat)
    } else {
        bytes_items(s.drop_last()) + seq![','] + dec_rep(s.last() as nat)
    }
}

/// A byte array as a JSON array of numbers.
pub open spec fn json_bytes(s: Seq<u8>) -> Seq<char> {
    seq!['['] + bytes_items(s) + seq![']']
}

/// One snapshot as a JSON object, fields in frame order.
pub open spec fn json_snapshot(v: SnapshotView) -> Seq<char> {
    "{\"source_id\":"@ + json_string(v.source_id) + ",\"song_name\":"@ + json_string(v.song_name)
        + ",\"artist\":"@ + json_string(v.artist) + ",\"album\":"@ + json_string(v.album)
        + ",\"start_time\":"@ + dec_rep(v.start_time as nat) + ",\"end_time\":"@ + dec_rep(
        v.end_time as nat,
    ) + ",\"position\":"@ + dec_rep(v.position as nat) + ",\"playing\":"@ + json_bool(v.playing)
        + ",\"artwork\":"@ + json_bytes(v.artwork) + ",\"artwork_changed\":"@ + json_bool(
        v.artwork_changed,
    ) + "}"@
}

/// The comma-separated objects of a frame.
pub open spec fn frame_items(s: Seq<SnapshotView>) -> Seq<char>
    decreases s.len(),
{
    if s.len() == 0 {
        Seq::empty()
    } else if s.len() == 1 {
        json_snapshot(s[0])
    } else {
        frame_items(s.drop_last()) + seq![','] + json_snapshot(s.last())
    }
}

/// A whole frame: the JSON array of all snapshots of one polling cycle.
pub open spec fn json_frame(s: Seq<SnapshotView>) -> Seq<char> {
    seq!['['] + frame_items(s) + seq![']']
}

/// The views of a sequence of snapshots.
pub open spec fn seq_views(s: Seq<MediaSnapshot>) -> Seq<SnapshotView> {
    s.map_values(|m: MediaSnapshot| m@)
}

fn dec_digit_exec(d: u64) -> (c: char)
    requires
        d < 10,
    ensures
        c == dec_digit(d as nat),
{
    if d == 0 {
        '0'
    } else if d == 1 {
        '1'
    } else if d == 2 {
        '2'
    } else if d == 3 {
        '3'
    } else if d == 4 {
        '4'
    } else if d == 5 {
        '5'
    } else if d == 6 {
        '6'
    } else if d == 7 {
        '7'
    } else if d == 8 {
        '8'
    } else {
        '9'
    }
}

fn hex_digit_exec(d: u32) -> (c: char)
    requires
        d < 16,
    ensures
        c == hex_digit(d as nat),
{
    if d < 10 {
        dec_digit_exec(d as u64)
    } else if d == 10 {
        'a'
    } else if d == 11 {
        'b'
    } else if d == 12 {
        'c'
    } else if d == 13 {
        'd'
    } else if d == 14 {
        'e'
    } else {
        'f'
    }
}

/// Appends the decimal representation of `n`.
fn push_u64(out: &mut Vec<char>, n: u64)
    ensures
        final(out)@ == old(out)@ + dec_rep(n as nat),
{
    let mut digits: Vec<char> = Vec::new();
    let mut m: u64 = n;
    proof {
        assert(digits@.reverse() =~= Seq::<char>::empty());
        assert(dec_rep(n as nat) =~= dec_rep(n as nat) + digits@.reverse());
    }
    while m >= 10
        invariant
            dec_rep(n as nat) == (dec_rep(m as nat) + digits@.reverse()),
        decreases m,
    {
        let ghost digits_pre = digits@;
        let ghost m_pre = m as nat;
        digits.push(dec_digit_exec(m % 10));
        m = m / 10;
        proof {
            assert(digits@.reverse() =~= seq![dec_digit(m_pre % 10)] + digits_pre.reverse());
            assert(dec_rep(m_pre) == dec_rep(m_pre / 10).push(dec_digit(m_pre % 10)));
            assert(dec_rep(m_pre / 10).push(dec_digit(m_pre % 10)) + digits_pre.reverse()
                =~= dec_rep(m_pre / 10) + (seq![dec_digit(m_pre % 10)] + digits_pre.reverse()));
        }
    }
    let ghost digits_done = digits@;
    digits.push(dec_digit_exec(m));
    proof {
        assert(digits@.reverse() =~= seq![dec_digit(m as nat)] + digits_done.reverse());
        assert(seq![dec_digit(m as nat)] == dec_rep(m as nat));
        assert(dec_rep(n as nat) =~= digits@.reverse());
    }
    let k: usize = digits.len();
    let mut j: usize = 0;
    proof {
        assert(out@ =~= old(out)@ + digits@.reverse().take(0));
    }
    while j < k
        invariant
            k == digits@.len(),
            0 <= j <= k,
            out@ == old(out)@ + digits@.reverse().take(j as int),
        decreases k - j,
    {
        out.push(digits[k - 1 - j]);
        proof {
            assert(digits@.reverse().take(j + 1) =~= digits@.reverse().take(j as int).push(
                digits@[k - 1 - j],
            ));
        }
        j = j + 1;
    }
    proof {
        assert(digits@.reverse().take(k as int) =~= digits@.reverse());
    }
}

/// Appends every character of `s` unchanged.
fn push_str_chars(out: &mut Vec<char>, s: &str)
    ensures
        final(out)@ == old(out)@ + s@,
{
    let n: usize = s.unicode_len();
    let mut i: usize = 0;
    while i < n
        invariant
            n == s@.len(),
            0 <= i <= n,
            out@ == old(out)@ + s@.take(i as int),
        decreases n - i,
    {
        let c = s.get_char(i);
        out.push(c);
        proof {
            assert(s@.take(i + 1) =~= s@.take(i as int).push(s@[i as int]));
        }
        i = i + 1;
    }
    proof {
        assert(s@.take(n as int) =~= s@);
    }
}

/// Appends the JSON escape of every character of `s`.
fn push_escaped(out: &mut Vec<char>, s: &str)
    ensures
        final(out)@ == old(out)@ + escape_seq(s@),
{
    let n: usize = s.unicode_len();
    let mut i: usize = 0;
    while i < n
        invariant
            n == s@.len(),
            0 <= i <= n,
            out@ == old(out)@ + escape_seq(s@.take(i as int)),
        decreases n - i,
    {
        let ghost out_pre = out@;
        let c = s.get_char(i);
        if c == '"' {
            out.push('\\');
            out.push('"');
        } else if c == '\\' {
            out.push('\\');
            out.push('\\');
        } else if c == '\u{8}' {
            out.push('\\');
            out.push('b');
        } else if c == '\u{9}' {
            out.push('\\');
            out.push('t');
        } else if c == '\u{a}' {
            out.push('\\');
            out.push('n');
        } else if c == '\u{c}' {
            out.push('\\');
            out.push('f');
        } else if c == '\u{d}' {
            out.push('\\');
            out.push('r');
        } else {
            let u: u32 = c as u32;
            if u < 32 {
                out.push('\\');
                out.push('u');
                out.push('0');
                out.push('0');
                out.push(hex_digit_exec(u / 16));
                out.push(hex_digit_exec(u % 16));
            } else {
                out.push(c);
            }
        }
        proof {
            assert(out@ =~= out_pre + escape_char(s@[i as int]));
            assert(s@.take(i + 1).drop_last() =~= s@.take(i as int));
            assert(s@.take(i + 1).last() == s@[i as int]);
            assert(escape_seq(s@.take(i + 1)) == escape_seq(s@.take(i as int)) + escape_char(
                s@[i as int],
            ));
            assert(out@ =~= old(out)@ + escape_seq(s@.take(i + 1)));
        }
        i = i + 1;
    }
    proof {
        assert(s@.take(n as int) =~= s@);
    }
}

/// Appends `s` as a JSON string literal.
fn push_json_string(out: &mut Vec<char>, s: &str)
    ensures
        final(out)@ == old(out)@ + json_string(s@),
{
    out.push('"');
    push_escaped(out, s);
    out.push('"');
    proof {
        assert(out@ =~= old(out)@ + json_string(s@));
    }
}

/// Appends a JSON boolean literal.
fn push_bool(out: &mut Vec<char>, b: bool)
    ensures
        final(out)@ == old(out)@ + json_bool(b),
{
    if b {
        out.push('t');
        out.push('r');
        out.push('u');
        out.push('e');
    } else {
        out.push('f');
        out.push('a');
        out.push('l');
        out.push('s');
        out.push('e');
    }
    proof {
        assert(out@ =~= old(out)@ + json_bool(b));
    }
}

/// Appends a byte sequence as a JSON array of numbers.
fn push_bytes(out: &mut Vec<char>, bytes: &Vec<u8>)
    ensures
        final(out)@ == old(out)@ + json_bytes(bytes@),
{
    out.push('[');
    let n: usize = bytes.len();
    let mut i: usize = 0;
    proof {
        assert(out@ =~= old(out)@ + seq!['['] + bytes_items(bytes@.take(0)));
    }
    while i < n
        invariant
            n == bytes@.len(),
            0 <= i <= n,
            out@ == old(out)@ + seq!['['] + bytes_items(bytes@.take(i as int)),
        decreases n - i,
    {
        let ghost out_pre = out@;
        if i > 0 {
            out.push(',');
        }
        push_u64(out, bytes[i] as u64);
        proof {
            if i == 0 {
                assert(bytes@.take(1)[0] == bytes@[0]);
                assert(bytes_items(bytes@.take(1)) == dec_rep(bytes@[0] as nat));
                assert(out@ =~= old(out)@ + seq!['['] + bytes_items(bytes@.take(i + 1)));
            } else {
                assert(bytes@.take(i + 1).drop_last() =~= bytes@.take(i as int));
                assert(bytes@.take(i + 1).last() == bytes@[i as int]);
                assert(bytes_items(bytes@.take(i + 1)) == bytes_items(bytes@.take(i as int))
                    + seq![','] + dec_rep(bytes@[i as int] as nat));
                assert(out@ =~= old(out)@ + seq!['['] + bytes_items(bytes@.take(i + 1)));
            }
        }
        i = i + 1;
    }
    proof {
        assert(bytes@.take(n as int) =~= bytes@);
    }
    out.push(']');
    proof {
        assert(out@ =~= old(out)@ + json_bytes(bytes@));
    }
}

/// Appends one snapshot as a JSON object.
#[verifier::rlimit(100)]
fn push_snapshot(out: &mut Vec<char>, m: &MediaSnapshot)
    ensures
        final(out)@ == old(out)@ + json_snapshot(m@),
{
    push_str_chars(out, "{\"source_id\":");
    push_json_string(out, m.source_id.as_str());
    push_str_chars(out, ",\"song_name\":");
    push_json_string(out, m.song_name.as_str());
    push_str_chars(out, ",\"artist\":");
    push_json_string(out, m.artist.as_str());
    push_str_chars(out, ",\"album\":");
    push_json_string(out, m.album.as_str());
    push_str_chars(out, ",\"start_time\":");
    push_u64(out, m.start_time);
    push_str_chars(out, ",\"end_time\":");
    push_u64(out, m.end_time);
    push_str_chars(out, ",\"position\":");
    push_u64(out, m.position);
    push_str_chars(out, ",\"playing\":");
    push_bool(out, m.playing);
    push_str_chars(out, ",\"artwork\":");
    push_bytes(out, &m.artwork);
    push_str_chars(out, ",\"artwork_changed\":");
    push_bool(out, m.artwork_changed);
    push_str_chars(out, "}");
    proof {
        assert(out@ =~= old(out)@ + json_snapshot(m@));
    }
}

/// Relies on `String: FromIterator<char>` (std): collecting characters
/// yields the string of exactly those characters, in order.
#[verifier::external_body]
fn chars_to_string(v: Vec<char>) -> (r: String)
    ensures
        r@ == v@,
{
    v.into_iter().collect()
}

/// Serializes one polling cycle's snapshots as the frame sent to a client:
/// a JSON array holding one object per session, in sequence order.
pub fn encode_frame(snapshots: &Vec<MediaSnapshot>) -> (r: String)
    ensures
        r@ == json_frame(seq_views(snapshots@)),
{
    let mut out: Vec<char> = Vec::new();
    out.push('[');
    let n: usize = snapshots.len();
    let mut i: usize = 0;
    proof {
        assert(out@ =~= seq!['['] + frame_items(seq_views(snapshots@).take(0)));
    }
    while i < n
        invariant
            n == snapshots@.len(),
            0 <= i <= n,
            out@ == seq!['['] + frame_items(seq_views(snapshots@).take(i as int)),
        decreases n - i,
    {
        let ghost vs = seq_views(snapshots@);
        if i > 0 {
            out.push(',');
        }
        push_snapshot(&mut out, &snapshots[i]);
        proof {
            assert(vs[i as int] == snapshots@[i as int]@);
            if i == 0 {
                assert(vs.take(1)[0] == vs[0]);
                assert(frame_items(vs.take(1)) == json_snapshot(vs[0]));
                assert(out@ =~= seq!['['] + frame_items(vs.take(i + 1)));
            } else {
                assert(vs.take(i + 1).drop_last() =~= vs.take(i as int));
                assert(vs.take(i + 1).last() == vs[i as int]);
                assert(frame_items(vs.take(i + 1)) == frame_items(vs.take(i as int)) + seq![',']
                    + json_snapshot(vs[i as int]));
                assert(out@ =~= seq!['['] + frame_items(vs.take(i + 1)));
            }
        }
        i = i + 1;
    }
    proof {
        assert(seq_views(snapshots@).take(n as int) =~= seq_views(snapshots@));
    }
    out.push(']');
    proof {
        assert(out@ =~= json_frame(seq_views(snapshots@)));
    }
    chars_to_string(out)
}

} // verus!
