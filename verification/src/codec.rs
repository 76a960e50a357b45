//! The wire codec: packs a Flame into its fixed 15-byte binary layout and
//! wraps it as the textual device command payload.
//!
//! The layout is six big-endian 16-bit channel words (main flame, flame
//! palette, fuel bed, glowing logs, mood light, down light), a fixed
//! 16-bit protocol marker, and the flame speed as the trailing byte. The
//! buffer is then base64-encoded and embedded into a JSON object under the
//! device-parameter key `"104"`.

use vstd::prelude::*;
use vstd::string::StringExecFns;

use crate::model::Flame;

verus! {

/// The text the base64 standard-alphabet padded encoding produces for a
/// byte sequence.
pub uninterp spec fn base64_of(bytes: Seq<u8>) -> Seq<char>;

/// Relies on base64's `Engine::encode` with the `STANDARD` engine: the
/// output is a function of the input bytes alone, and with padding its
/// length is `4 * ((n + 2) / 3)` for `n` input bytes, per `encoded_len`.
#[verifier::external_body]
fn base64_standard(bytes: &Vec<u8>) -> (r: String)
    requires
        bytes@.len() <= 0x10000000,
    ensures
        r@ == base64_of(bytes@),
        r@.len() == 4 * ((bytes@.len() + 2) / 3),
{
    base64::Engine::encode(&base64::engine::general_purpose::STANDARD, bytes.as_slice())
}

/// The high byte of a 16-bit word, as sent first on the wire.
pub open spec fn be_hi(w: u16) -> u8 {
    (w / 256) as u8
}

/// The low byte of a 16-bit word, as sent second on the wire.
pub open spec fn be_lo(w: u16) -> u8 {
    (w % 256) as u8
}

/// The opening text of the device command envelope, up to the quote that
/// starts the base64 value.
pub open spec fn spec_envelope_prefix() -> Seq<char> {
    "{\"dps\":{\"104\":\""@
}

/// The closing text of the device command envelope.
pub open spec fn spec_envelope_suffix() -> Seq<char> {
    "\"}}"@
}

impl Flame {
    /// The 15-byte binary layout of this Flame: the six channel words in
    /// big-endian order, the fixed protocol marker 0x0264, then the flame
    /// speed byte.
    pub open spec fn spec_wire_bytes(self) -> Seq<u8> {
        seq![
            be_hi(self.main_flame.spec_word()),
            be_lo(self.main_flame.spec_word()),
            be_hi(self.flame_palette.spec_word()),
            be_lo(self.flame_palette.spec_word()),
            be_hi(self.fuel_bed.spec_word()),
            be_lo(self.fuel_bed.spec_word()),
            be_hi(self.glowing_logs.spec_word()),
            be_lo(self.glowing_logs.spec_word()),
            be_hi(self.mood_light.spec_word()),
            be_lo(self.mood_light.spec_word()),
            be_hi(self.down_light.spec_word()),
            be_lo(self.down_light.spec_word()),
            2,
            100,
            self.flame_speed,
        ]
    }

    /// Packs this Flame into its 15-byte wire buffer.
    pub fn wire_bytes(&self) -> (r: Vec<u8>)
        requires
            self.wf(),
        ensures
            r@ == self.spec_wire_bytes(),
            r@.len() == 15,
    {
        let mut raw: Vec<u8> = Vec::new();
        push_be16(&mut raw, self.main_flame.to_u16());
        push_be16(&mut raw, self.flame_palette.to_u16());
        push_be16(&mut raw, self.fuel_bed.to_u16());
        push_be16(&mut raw, self.glowing_logs.to_u16());
        push_be16(&mut raw, self.mood_light.to_u16());
        push_be16(&mut raw, self.down_light.to_u16());
        push_be16(&mut raw, 0x0264);
        raw.push(self.flame_speed);
        proof {
            assert(raw@ =~= self.spec_wire_bytes());
        }
        raw
    }

    /// Encodes this Flame's wire buffer as base64 text. The buffer is
    /// always exactly 15 bytes, so the text is always exactly 20
    /// characters.
    pub fn to_base64(&self) -> (r: String)
        requires
            self.wf(),
        ensures
            r@ == base64_of(self.spec_wire_bytes()),
            r@.len() == 20,
    {
        let raw = self.wire_bytes();
        base64_standard(&raw)
    }

    /// The full device command text for this Flame: the base64 wire
    /// encoding under the device-parameter key `"104"`.
    pub open spec fn spec_dps_payload(self) -> Seq<char> {
        spec_envelope_prefix() + base64_of(self.spec_wire_bytes()) + spec_envelope_suffix()
    }

    /// Builds the device command text for this Flame.
    pub fn dps_payload(&self) -> (r: String)
        requires
            self.wf(),
        ensures
            r@ == self.spec_dps_payload(),
            r@.len() == 38,
    {
        let b64 = self.to_base64();
        let mut s = String::from_str("{\"dps\":{\"104\":\"");
        s.append(b64.as_str());
        s.append("\"}}");
        proof {
            reveal_strlit("{\"dps\":{\"104\":\"");
            reveal_strlit("\"}}");
        }
        s
    }
}

/// Appends a 16-bit word to a byte buffer in big-endian order.
fn push_be16(buf: &mut Vec<u8>, w: u16)
    ensures
        final(buf)@ == old(buf)@ + seq![be_hi(w), be_lo(w)],
{
    buf.push((w / 256) as u8);
    buf.push((w % 256) as u8);
    proof {
        assert(buf@ =~= old(buf)@ + seq![be_hi(w), be_lo(w)]);
    }
}

/// Encoding is deterministic: the command text is a function of the Flame
/// value alone, so equal Flame values always encode to identical text.
pub proof fn lemma_encode_deterministic(a: Flame, b: Flame)
    requires
        a == b,
    ensures
        a.spec_dps_payload() == b.spec_dps_payload(),
{
}

/// Encoding is length-stable: the wire buffer of every Flame is exactly 15
/// bytes long.
pub proof fn lemma_wire_bytes_len(f: Flame)
    ensures
        f.spec_wire_bytes().len() == 15,
{
}

} // verus!
