//! Wire format of the synthesis service: the outbound initialization
//! and chunk messages are JSON objects built here byte by byte, with
//! an exact contract for every byte, so the session never sends a
//! malformed frame. Text payloads are UTF-8 bytes; the only bytes the
//! JSON string form must escape are the quote, the backslash and the
//! control range, which never occur inside a multi-byte UTF-8 unit.

use vstd::prelude::*;

verus! {

/// Lower-case hexadecimal digit of a value below sixteen.
pub open spec fn hex_digit(v: u8) -> u8
    recommends
        v < 16,
{
    if v < 10 {
        (48 + v) as u8
    } else {
        (87 + v) as u8
    }
}

/// JSON string escaping of one byte of UTF-8 text: quote and
/// backslash get a backslash, control bytes become a six-byte
/// universal escape, everything else passes through unchanged.
pub open spec fn escape_byte(b: u8) -> Seq<u8> {
    if b == 34 {
        seq![92u8, 34u8]
    } else if b == 92 {
        seq![92u8, 92u8]
    } else if b < 32 {
        seq![92u8, 117u8, 48u8, 48u8, hex_digit(b / 16), hex_digit(b % 16)]
    } else {
        seq![b]
    }
}

/// JSON string escaping of a whole payload, byte for byte.
pub open spec fn escape_bytes(s: Seq<u8>) -> Seq<u8>
    decreases s.len(),
{
    if s.len() == 0 {
        Seq::empty()
    } else {
        escape_bytes(s.drop_last()) + escape_byte(s.last())
    }
}

pub proof fn lemma_escape_bytes_push(s: Seq<u8>, b: u8)
    ensures
        escape_bytes(s.push(b)) == escape_bytes(s) + escape_byte(b),
{
    assert(s.push(b).drop_last() =~= s);
}

fn push_hex_digit(out: &mut Vec<u8>, v: u8)
    requires
        v < 16,
    ensures
        final(out)@ == old(out)@.push(hex_digit(v)),
{
    if v < 10 {
        out.push(48 + v);
    } else {
        out.push(87 + v);
    }
}

fn push_escaped_byte(out: &mut Vec<u8>, b: u8)
    ensures
        final(out)@ == old(out)@ + escape_byte(b),
{
    if b == 34 {
        out.push(92);
        out.push(34);
    } else if b == 92 {
        out.push(92);
        out.push(92);
    } else if b < 32 {
        out.push(92);
        out.push(117);
        out.push(48);
        out.push(48);
        push_hex_digit(out, b / 16);
        push_hex_digit(out, b % 16);
    } else {
        out.push(b);
    }
    proof {
        assert(out@ =~= old(out)@ + escape_byte(b));
    }
}

fn push_escaped(out: &mut Vec<u8>, s: &[u8])
    ensures
        final(out)@ == old(out)@ + escape_bytes(s@),
{
    let mut i: usize = 0;
    while i < s.len()
        invariant
            i <= s@.len(),
            out@ == old(out)@ + escape_bytes(s@.take(i as int)),
        decreases s@.len() - i,
    {
        let b = s[i];
        proof {
            assert(s@.take(i + 1 as int) =~= s@.take(i as int).push(b));
            lemma_escape_bytes_push(s@.take(i as int), b);
        }
        push_escaped_byte(out, b);
        i = i + 1;
    }
    proof {
        assert(s@.take(s@.len() as int) =~= s@);
    }
}

/// The opening bytes of a chunk message, up to the payload.
pub open spec fn chunk_prefix() -> Seq<u8> {
    seq![123u8, 34u8, 116u8, 101u8, 120u8, 116u8, 34u8, 58u8, 34u8]
}

/// The closing bytes of a chunk message, after the payload.
pub open spec fn chunk_suffix() -> Seq<u8> {
    seq![34u8, 125u8]
}

/// The full wire form of one chunk message carrying `payload`. An
/// empty payload yields the turn-terminator sentinel.
pub open spec fn chunk_message_bytes(payload: Seq<u8>) -> Seq<u8> {
    chunk_prefix() + escape_bytes(payload) + chunk_suffix()
}

/// Serializes one text payload into the chunk message the service
/// expects. Called with an empty payload it yields the terminator.
pub fn chunk_message(payload: &[u8]) -> (r: Vec<u8>)
    ensures
        r@ == chunk_message_bytes(payload@),
{
    let mut out: Vec<u8> = Vec::new();
    out.push(123);
    out.push(34);
    out.push(116);
    out.push(101);
    out.push(120);
    out.push(116);
    out.push(34);
    out.push(58);
    out.push(34);
    proof {
        assert(out@ =~= chunk_prefix());
    }
    push_escaped(&mut out, payload);
    out.push(34);
    out.push(125);
    proof {
        assert(out@ =~= chunk_prefix() + escape_bytes(payload@) + chunk_suffix());
    }
    out
}

/// Voice-style parameters of the initialization message. Each is a
/// fraction of one held in thousandths, so the contracts stay in
/// integer arithmetic; the wire form is a decimal between 0 and 1.
pub struct VoiceSettings {
    pub stability_milli: u16,
    pub similarity_boost_milli: u16,
}

impl VoiceSettings {
    /// Both fractions lie between zero and one.
    pub open spec fn wf(self) -> bool {
        self.stability_milli <= 1000 && self.similarity_boost_milli <= 1000
    }

    /// The settings the bridge opens every session with: stability
    /// 0.9, similarity boost 0.8.
    pub fn preset() -> (r: VoiceSettings)
        ensures
            r.wf(),
            r.stability_milli == 900,
            r.similarity_boost_milli == 800,
    {
        VoiceSettings { stability_milli: 900, similarity_boost_milli: 800 }
    }
}

/// Decimal wire form of a fraction held in thousandths: "1.0" for one
/// thousand, otherwise "0." followed by the thousandths digits with
/// trailing zeros trimmed, at least one digit remaining.
pub open spec fn decimal_milli_bytes(m: u16) -> Seq<u8>
    recommends
        m <= 1000,
{
    if m == 1000 {
        seq![49u8, 46u8, 48u8]
    } else {
        let d1 = (48 + m / 100) as u8;
        let d2 = (48 + (m / 10) % 10) as u8;
        let d3 = (48 + m % 10) as u8;
        if m % 10 != 0 {
            seq![48u8, 46u8, d1, d2, d3]
        } else if (m / 10) % 10 != 0 {
            seq![48u8, 46u8, d1, d2]
        } else {
            seq![48u8, 46u8, d1]
        }
    }
}

fn push_decimal_milli(out: &mut Vec<u8>, m: u16)
    requires
        m <= 1000,
    ensures
        final(out)@ == old(out)@ + decimal_milli_bytes(m),
{
    if m == 1000 {
        out.push(49);
        out.push(46);
        out.push(48);
    } else {
        let d1: u8 = 48 + (m / 100) as u8;
        let d2: u8 = 48 + ((m / 10) % 10) as u8;
        let d3: u8 = 48 + (m % 10) as u8;
        out.push(48);
        out.push(46);
        out.push(d1);
        if m % 10 != 0 {
            out.push(d2);
            out.push(d3);
        } else if (m / 10) % 10 != 0 {
            out.push(d2);
        }
    }
    proof {
        assert(out@ =~= old(out)@ + decimal_milli_bytes(m));
    }
}

/// The opening bytes of the initialization message, up to the
/// stability value. The seed text is the single non-empty space the
/// service requires as an opener.
pub open spec fn init_prefix() -> Seq<u8> {
    seq![
        123u8,
        34u8,
        116u8,
        101u8,
        120u8,
        116u8,
        34u8,
        58u8,
        34u8,
        32u8,
        34u8,
        44u8,
        34u8,
        118u8,
        111u8,
        105u8,
        99u8,
        101u8,
        95u8,
        115u8,
        101u8,
        116u8,
        116u8,
        105u8,
        110u8,
        103u8,
        115u8,
        34u8,
        58u8,
        123u8,
        34u8,
        115u8,
        116u8,
        97u8,
        98u8,
        105u8,
        108u8,
        105u8,
        116u8,
        121u8,
        34u8,
        58u8,
    ]
}

/// The bytes between the stability and similarity values.
pub open spec fn init_mid() -> Seq<u8> {
    seq![
        44u8,
        34u8,
        115u8,
        105u8,
        109u8,
        105u8,
        108u8,
        97u8,
        114u8,
        105u8,
        116u8,
        121u8,
        95u8,
        98u8,
        111u8,
        111u8,
        115u8,
        116u8,
        34u8,
        58u8,
    ]
}

/// The bytes between the similarity value and the credential.
pub open spec fn init_key_part() -> Seq<u8> {
    seq![
        125u8,
        44u8,
        34u8,
        120u8,
        105u8,
        95u8,
        97u8,
        112u8,
        105u8,
        95u8,
        107u8,
        101u8,
        121u8,
        34u8,
        58u8,
        34u8,
    ]
}

/// The full wire form of the initialization message: the seed text,
/// the two voice-style fractions and the credential token.
pub open spec fn init_message_bytes(settings: VoiceSettings, api_key: Seq<u8>) -> Seq<u8> {
    init_prefix() + decimal_milli_bytes(settings.stability_milli) + init_mid()
        + decimal_milli_bytes(settings.similarity_boost_milli) + init_key_part() + escape_bytes(
        api_key,
    ) + chunk_suffix()
}

/// Serializes the initialization message that opens every session; it
/// is sent exactly once, before any chunk.
pub fn init_message(settings: &VoiceSettings, api_key: &[u8]) -> (r: Vec<u8>)
    requires
        settings.wf(),
    ensures
        r@ == init_message_bytes(*settings, api_key@),
{
    let mut out: Vec<u8> = Vec::new();
    out.push(123);
    out.push(34);
    out.push(116);
    out.push(101);
    out.push(120);
    out.push(116);
    out.push(34);
    out.push(58);
    out.push(34);
    out.push(32);
    out.push(34);
    out.push(44);
    out.push(34);
    out.push(118);
    out.push(111);
    out.push(105);
    out.push(99);
    out.push(101);
    out.push(95);
    out.push(115);
    out.push(101);
    out.push(116);
    out.push(116);
    out.push(105);
    out.push(110);
    out.push(103);
    out.push(115);
    out.push(34);
    out.push(58);
    out.push(123);
    out.push(34);
    out.push(115);
    out.push(116);
    out.push(97);
    out.push(98);
    out.push(105);
    out.push(108);
    out.push(105);
    out.push(116);
    out.push(121);
    out.push(34);
    out.push(58);
    proof {
        assert(out@ =~= init_prefix());
    }
    push_decimal_milli(&mut out, settings.stability_milli);
    let ghost after_stability = out@;
    out.push(44);
    out.push(34);
    out.push(115);
    out.push(105);
    out.push(109);
    out.push(105);
    out.push(108);
    out.push(97);
    out.push(114);
    out.push(105);
    out.push(116);
    out.push(121);
    out.push(95);
    out.push(98);
    out.push(111);
    out.push(111);
    out.push(115);
    out.push(116);
    out.push(34);
    out.push(58);
    proof {
        assert(out@ =~= after_stability + init_mid());
    }
    push_decimal_milli(&mut out, settings.similarity_boost_milli);
    let ghost after_similarity = out@;
    out.push(125);
    out.push(44);
    out.push(34);
    out.push(120);
    out.push(105);
    out.push(95);
    out.push(97);
    out.push(112);
    out.push(105);
    out.push(95);
    out.push(107);
    out.push(101);
    out.push(121);
    out.push(34);
    out.push(58);
    out.push(34);
    proof {
        assert(out@ =~= after_similarity + init_key_part());
    }
    push_escaped(&mut out, api_key);
    out.push(34);
    out.push(125);
    proof {
        assert(out@ =~= init_message_bytes(*settings, api_key@));
    }
    out
}

/// The fixed websocket address, with the voice and model identities
/// substituted and the query parameter that asks for the lowest
/// synthesis latency.
pub fn endpoint_url(voice_id: &str, model_id: &str) -> (r: String)
    ensures
        r@ == "wss://api.elevenlabs.io/v1/text-to-speech/"@ + voice_id@
            + "/stream-input?model_id="@ + model_id@ + "&optimize_streaming_latency=1"@,
{
    let mut r = String::new();
    r.append("wss://api.elevenlabs.io/v1/text-to-speech/");
    r.append(voice_id);
    r.append("/stream-input?model_id=");
    r.append(model_id);
    r.append("&optimize_streaming_latency=1");
    r
}

} // verus!
