//! The wire encoder: one JSON object per line for every message the node
//! sends, with the discriminator and all and only the fields each variant
//! requires. The exact character sequence of each encoding is stated as a
//! spec function and the encoder is proved to produce it.

use vstd::prelude::*;
use vstd::string::StrSliceExecFns;
use vstd::string::StringExecFns;

use crate::broadcast::BroadcastPayload;
use crate::protocol::InitPayload;
use crate::protocol::Message;
use crate::text::decimal;
use crate::text::hex_char;
use crate::text::hex_str;
use crate::text::push_decimal;

verus! {

/// How one character is written inside a JSON string: quote and backslash
/// get a backslash escape, control characters a `\u00XX` escape, everything
/// else stands as it is.
pub open spec fn escape_char(c: char) -> Seq<char> {
    if c == '"' {
        "\\\""@
    } else if c == '\\' {
        "\\\\"@
    } else if (c as u32) < 0x20 {
        "\\u00"@ + seq![
            hex_char(((c as u32) / 16) as nat),
            hex_char(((c as u32) % 16) as nat),
        ]
    } else {
        seq![c]
    }
}

/// A whole character sequence escaped for a JSON string.
pub open spec fn escape_string(s: Seq<char>) -> Seq<char>
    decreases s.len(),
{
    if s.len() == 0 {
        Seq::empty()
    } else {
        escape_char(s[0]) + escape_string(s.drop_first())
    }
}

/// A JSON string: the escaped characters between quotes.
pub open spec fn json_string(s: Seq<char>) -> Seq<char> {
    "\""@ + escape_string(s) + "\""@
}

proof fn lemma_escape_concat(a: Seq<char>, b: Seq<char>)
    ensures
        escape_string(a + b) == escape_string(a) + escape_string(b),
    decreases a.len(),
{
    if a.len() == 0 {
        assert(a + b =~= b);
        assert(escape_string(a) + escape_string(b) =~= escape_string(b));
    } else {
        assert((a + b).drop_first() =~= a.drop_first() + b);
        lemma_escape_concat(a.drop_first(), b);
        assert(escape_string(a + b) =~= escape_string(a) + escape_string(b));
    }
}

proof fn lemma_escape_one(s: Seq<char>, i: int)
    requires
        0 <= i < s.len(),
    ensures
        escape_string(s.subrange(0, i + 1)) == escape_string(s.subrange(0, i)) + escape_char(
            s[i],
        ),
{
    assert(s.subrange(0, i + 1) =~= s.subrange(0, i) + seq![s[i]]);
    lemma_escape_concat(s.subrange(0, i), seq![s[i]]);
    assert(seq![s[i]].drop_first() =~= Seq::<char>::empty());
    assert(seq![s[i]][0] == s[i]);
    assert(escape_string(seq![s[i]]) == escape_char(s[i]) + escape_string(
        Seq::<char>::empty(),
    ));
    assert(escape_char(s[i]) + escape_string(Seq::<char>::empty()) =~= escape_char(s[i]));
}

/// Append `input` escaped for a JSON string.
fn push_escaped(s: &mut String, input: &str)
    ensures
        final(s)@ == old(s)@ + escape_string(input@),
{
    let n: usize = input.unicode_len();
    let mut i: usize = 0;
    while i < n
        invariant
            n == input@.len(),
            i <= n,
            s@ == old(s)@ + escape_string(input@.subrange(0, i as int)),
        decreases n - i,
    {
        let c = input.get_char(i);
        if c == '"' {
            s.append("\\\"");
        } else if c == '\\' {
            s.append("\\\\");
        } else if (c as u32) < 0x20 {
            let code: u32 = c as u32;
            s.append("\\u00");
            s.append(hex_str(code / 16));
            s.append(hex_str(code % 16));
        } else {
            s.append(input.substring_char(i, i + 1));
            proof {
                assert(input@.subrange(i as int, i + 1) =~= seq![input@[i as int]]);
            }
        }
        proof {
            lemma_escape_one(input@, i as int);
            assert(s@ =~= old(s)@ + escape_string(input@.subrange(0, i + 1)));
        }
        i = i + 1;
    }
    proof {
        assert(input@.subrange(0, n as int) =~= input@);
    }
}

/// Append `input` as a JSON string.
fn push_json_string(s: &mut String, input: &str)
    ensures
        final(s)@ == old(s)@ + json_string(input@),
{
    s.append("\"");
    push_escaped(s, input);
    s.append("\"");
    proof {
        assert(final(s)@ =~= old(s)@ + json_string(input@));
    }
}

/// A JSON integer: a minus sign and the magnitude for a negative value.
pub open spec fn json_i32(v: int) -> Seq<char> {
    if v < 0 {
        "-"@ + decimal((-v) as nat)
    } else {
        decimal(v as nat)
    }
}

/// An optional correlation field: `null` when genuinely absent.
pub open spec fn json_opt(o: Option<usize>) -> Seq<char> {
    match o {
        Option::None => "null"@,
        Option::Some(n) => decimal(n as nat),
    }
}

/// The elements of a JSON array after the first, each behind a comma.
pub open spec fn json_values_rest(vs: Seq<i32>) -> Seq<char>
    decreases vs.len(),
{
    if vs.len() == 0 {
        Seq::empty()
    } else {
        ","@ + json_i32(vs[0] as int) + json_values_rest(vs.drop_first())
    }
}

/// A JSON array of integers.
pub open spec fn json_values(vs: Seq<i32>) -> Seq<char> {
    if vs.len() == 0 {
        "[]"@
    } else {
        "["@ + json_i32(vs[0] as int) + json_values_rest(vs.drop_first()) + "]"@
    }
}

/// Append `v` as a JSON integer.
fn push_json_i32(s: &mut String, v: i32)
    ensures
        final(s)@ == old(s)@ + json_i32(v as int),
{
    if v < 0 {
        s.append("-");
        let magnitude: u64 = (-(v as i64)) as u64;
        push_decimal(s, magnitude);
        proof {
            assert(magnitude as nat == (-(v as int)) as nat);
            assert(final(s)@ =~= old(s)@ + json_i32(v as int));
        }
    } else {
        push_decimal(s, v as u64);
        proof {
            assert((v as u64) as nat == (v as int) as nat);
        }
    }
}

/// Append an optional correlation field.
fn push_json_opt(s: &mut String, o: Option<usize>)
    ensures
        final(s)@ == old(s)@ + json_opt(o),
{
    match o {
        Option::None => s.append("null"),
        Option::Some(n) => push_decimal(s, n as u64),
    }
}

proof fn lemma_json_values_rest_snoc(vs: Seq<i32>, v: i32)
    ensures
        json_values_rest(vs.push(v)) == json_values_rest(vs) + ","@ + json_i32(v as int),
    decreases vs.len(),
{
    if vs.len() == 0 {
        assert(vs.push(v).drop_first() =~= Seq::<i32>::empty());
        assert(vs.push(v)[0] == v);
        assert(json_values_rest(Seq::<i32>::empty()) == Seq::<char>::empty());
        assert(json_values_rest(vs.push(v)) == ","@ + json_i32(v as int) + Seq::<char>::empty());
        assert(json_values_rest(vs.push(v)) =~= json_values_rest(vs) + ","@ + json_i32(
            v as int,
        ));
    } else {
        assert(vs.push(v).drop_first() =~= vs.drop_first().push(v));
        assert(vs.push(v)[0] == vs[0]);
        lemma_json_values_rest_snoc(vs.drop_first(), v);
        assert(json_values_rest(vs.push(v)) =~= json_values_rest(vs) + ","@ + json_i32(
            v as int,
        ));
    }
}

/// Append the store as a JSON array.
fn push_json_values(s: &mut String, vs: &Vec<i32>)
    ensures
        final(s)@ == old(s)@ + json_values(vs@),
{
    if vs.len() == 0 {
        s.append("[]");
        return ;
    }
    s.append("[");
    push_json_i32(s, vs[0]);
    let mut i: usize = 1;
    while i < vs.len()
        invariant
            1 <= i <= vs@.len(),
            s@ == old(s)@ + "["@ + json_i32(vs@[0] as int) + json_values_rest(
                vs@.subrange(1, i as int),
            ),
        decreases vs@.len() - i,
    {
        s.append(",");
        push_json_i32(s, vs[i]);
        proof {
            assert(vs@.subrange(1, i + 1) =~= vs@.subrange(1, i as int).push(vs@[i as int]));
            lemma_json_values_rest_snoc(vs@.subrange(1, i as int), vs@[i as int]);
            assert(s@ =~= old(s)@ + "["@ + json_i32(vs@[0] as int) + json_values_rest(
                vs@.subrange(1, i + 1),
            ));
        }
        i = i + 1;
    }
    s.append("]");
    proof {
        assert(vs@.subrange(1, vs@.len() as int) =~= vs@.drop_first());
        assert(final(s)@ =~= old(s)@ + json_values(vs@));
    }
}

/// What follows `"type":` in the body for each payload the node sends. A
/// `topology` request is never among them, so it has no encoding.
pub open spec fn payload_tail(p: BroadcastPayload) -> Seq<char> {
    match p {
        BroadcastPayload::Broadcast { message } => "\"broadcast\",\"message\":"@ + json_i32(
            message as int,
        ),
        BroadcastPayload::BroadcastOk => "\"broadcast_ok\""@,
        BroadcastPayload::Read => "\"read\""@,
        BroadcastPayload::ReadOk { messages } => "\"read_ok\",\"messages\":"@ + json_values(
            messages@,
        ),
        BroadcastPayload::Topology { .. } => Seq::empty(),
        BroadcastPayload::TopologyOk => "\"topology_ok\""@,
    }
}

/// One whole envelope on one line: `src`, `dest`, and a body holding the
/// correlation fields and the payload behind its `type` discriminator.
pub open spec fn json_envelope(
    src: Seq<char>,
    dst: Seq<char>,
    msg_id: Option<usize>,
    in_reply_to: Option<usize>,
    tail: Seq<char>,
) -> Seq<char> {
    "{\"src\":"@ + json_string(src) + ",\"dest\":"@ + json_string(dst) + ",\"body\":{\"msg_id\":"@
        + json_opt(msg_id) + ",\"in_reply_to\":"@ + json_opt(in_reply_to) + ",\"type\":"@ + tail
        + "}}"@
}

/// The encoding of one broadcast-protocol message.
pub open spec fn json_message(m: Message<BroadcastPayload>) -> Seq<char> {
    json_envelope(m.src@, m.dst@, m.body.msg_id, m.body.in_reply_to, payload_tail(m.body.payload))
}

/// The encoding of the handshake reply; its correlation appears once, in
/// the body's `in_reply_to`.
pub open spec fn json_init_ok(m: Message<InitPayload>) -> Seq<char> {
    json_envelope(m.src@, m.dst@, m.body.msg_id, m.body.in_reply_to, "\"init_ok\""@)
}

impl Message<BroadcastPayload> {
    /// Encode this message for the wire. The node never sends a `topology`
    /// request, so none is encodable.
    pub fn encode(&self) -> (r: String)
        requires
            !(self.body.payload is Topology),
        ensures
            r@ == json_message(*self),
    {
        let mut s = String::new();
        s.append("{\"src\":");
        push_json_string(&mut s, self.src.as_str());
        s.append(",\"dest\":");
        push_json_string(&mut s, self.dst.as_str());
        s.append(",\"body\":{\"msg_id\":");
        push_json_opt(&mut s, self.body.msg_id);
        s.append(",\"in_reply_to\":");
        push_json_opt(&mut s, self.body.in_reply_to);
        s.append(",\"type\":");
        match &self.body.payload {
            BroadcastPayload::Broadcast { message } => {
                s.append("\"broadcast\",\"message\":");
                push_json_i32(&mut s, *message);
            },
            BroadcastPayload::BroadcastOk => {
                s.append("\"broadcast_ok\"");
            },
            BroadcastPayload::Read => {
                s.append("\"read\"");
            },
            BroadcastPayload::ReadOk { messages } => {
                s.append("\"read_ok\",\"messages\":");
                push_json_values(&mut s, messages);
            },
            BroadcastPayload::Topology { .. } => {
                vstd::pervasive::unreached::<()>();
            },
            BroadcastPayload::TopologyOk => {
                s.append("\"topology_ok\"");
            },
        }
        s.append("}}");
        proof {
            assert(s@ =~= json_message(*self));
        }
        s
    }
}

impl Message<InitPayload> {
    /// Encode the handshake reply for the wire.
    pub fn encode_init_ok(&self) -> (r: String)
        requires
            self.body.payload is InitOk,
        ensures
            r@ == json_init_ok(*self),
    {
        let mut s = String::new();
        s.append("{\"src\":");
        push_json_string(&mut s, self.src.as_str());
        s.append(",\"dest\":");
        push_json_string(&mut s, self.dst.as_str());
        s.append(",\"body\":{\"msg_id\":");
        push_json_opt(&mut s, self.body.msg_id);
        s.append(",\"in_reply_to\":");
        push_json_opt(&mut s, self.body.in_reply_to);
        s.append(",\"type\":");
        s.append("\"init_ok\"");
        s.append("}}");
        proof {
            assert(s@ =~= json_init_ok(*self));
        }
        s
    }
}

} // verus!
