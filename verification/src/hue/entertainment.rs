//! Hue Entertainment streaming: the frame packets and the pre-shared key.
use vstd::prelude::*;
use vstd::string::StringSliceAdditionalSpecFns;
use crate::hue::error::HueError;
use crate::hue::models::EntertainmentArea;
use crate::text::{trim, trim_spec};

verus! {

/// One channel of a frame: 16-bit red, green and blue levels.
#[derive(Clone, Copy, Debug, PartialEq, Eq, Structural)]
pub struct EntertainmentChannelColor {
    pub channel_id: u8,
    pub red: u16,
    pub green: u16,
    pub blue: u16,
}

/// Most channels that one frame carries.
pub const MAX_FRAME_CHANNELS: usize = 20;

/// The 16-byte packet header: `HueStream`, protocol version 2.0, the sequence number,
/// two reserved bytes, RGB color space and one reserved byte.
pub open spec fn stream_header(sequence_id: u8) -> Seq<u8> {
    seq![
        72u8, 117u8, 101u8, 83u8, 116u8, 114u8, 101u8, 97u8, 109u8,
        2u8, 0u8, sequence_id, 0u8, 0u8, 0u8, 0u8,
    ]
}

/// A 16-bit value in big-endian byte order.
pub open spec fn be16(v: u16) -> Seq<u8> {
    seq![(v / 256) as u8, (v % 256) as u8]
}

/// The seven bytes of one channel: identifier, then red, green and blue in big-endian order.
pub open spec fn channel_bytes(c: EntertainmentChannelColor) -> Seq<u8> {
    seq![c.channel_id] + be16(c.red) + be16(c.green) + be16(c.blue)
}

/// The bytes of a list of channels, in order.
pub open spec fn channels_bytes(colors: Seq<EntertainmentChannelColor>) -> Seq<u8>
    decreases colors.len(),
{
    if colors.len() == 0 {
        Seq::empty()
    } else {
        channels_bytes(colors.drop_last()) + channel_bytes(colors.last())
    }
}

/// The channels that fit in one frame: the first twenty.
pub open spec fn frame_channels(colors: Seq<EntertainmentChannelColor>) -> Seq<EntertainmentChannelColor> {
    if colors.len() <= 20 {
        colors
    } else {
        colors.take(20)
    }
}

/// A frame packet: header, the UTF-8 bytes of the trimmed area identifier, and the channels.
pub open spec fn rgb_packet(area_id: Seq<char>, sequence_id: u8, colors: Seq<EntertainmentChannelColor>) -> Seq<u8> {
    stream_header(sequence_id) + vstd::utf8::encode_utf8(trim_spec(area_id)) + channels_bytes(
        frame_channels(colors),
    )
}

proof fn lemma_channels_bytes_layout(colors: Seq<EntertainmentChannelColor>)
    ensures
        channels_bytes(colors).len() == 7 * colors.len(),
        forall|k: int|
            0 <= k < colors.len() ==> {
                let b = channels_bytes(colors);
                &&& b[7 * k] == (#[trigger] colors[k]).channel_id
                &&& b[7 * k + 1] == (colors[k].red / 256) as u8
                &&& b[7 * k + 2] == (colors[k].red % 256) as u8
                &&& b[7 * k + 3] == (colors[k].green / 256) as u8
                &&& b[7 * k + 4] == (colors[k].green % 256) as u8
                &&& b[7 * k + 5] == (colors[k].blue / 256) as u8
                &&& b[7 * k + 6] == (colors[k].blue % 256) as u8
            },
    decreases colors.len(),
{
    if colors.len() > 0 {
        let prev = colors.drop_last();
        lemma_channels_bytes_layout(prev);
        let b = channels_bytes(colors);
        let c = colors.last();
        assert(b == channels_bytes(prev) + channel_bytes(c));
        let n = prev.len() as int;
        assert forall|k: int| 0 <= k < colors.len() implies {
            &&& b[7 * k] == (#[trigger] colors[k]).channel_id
            &&& b[7 * k + 1] == (colors[k].red / 256) as u8
            &&& b[7 * k + 2] == (colors[k].red % 256) as u8
            &&& b[7 * k + 3] == (colors[k].green / 256) as u8
            &&& b[7 * k + 4] == (colors[k].green % 256) as u8
            &&& b[7 * k + 5] == (colors[k].blue / 256) as u8
            &&& b[7 * k + 6] == (colors[k].blue % 256) as u8
        } by {
            if k < n {
                assert(colors[k] == prev[k]);
            } else {
                assert(colors[k] == c);
            }
        }
    }
}

/// A frame carries, after its 16-byte header, the UTF-8 bytes of the trimmed area
/// identifier, and then seven bytes for each of the first twenty channels, in order: the
/// channel's identifier, then its red, green and blue levels, each high byte first.  The
/// header reads `HueStream`, version 2.0, the sequence number, and RGB colour space.
pub proof fn lemma_frame_layout(area_id: Seq<char>, sequence_id: u8, colors: Seq<EntertainmentChannelColor>)
    ensures
        ({
            let p = rgb_packet(area_id, sequence_id, colors);
            let area = vstd::utf8::encode_utf8(trim_spec(area_id));
            let start = 16 + area.len() as int;
            let n = if colors.len() <= 20 {
                colors.len() as int
            } else {
                20int
            };
            &&& p.len() == start + 7 * n
            &&& p[0] == 72 && p[1] == 117 && p[2] == 101 && p[3] == 83 && p[4] == 116
            &&& p[5] == 114 && p[6] == 101 && p[7] == 97 && p[8] == 109
            &&& p[9] == 2 && p[10] == 0 && p[11] == sequence_id && p[12] == 0 && p[13] == 0
            &&& p[14] == 0 && p[15] == 0
            &&& p.subrange(16, start) == area
            &&& forall|k: int|
                0 <= k < n ==> {
                    &&& p[start + 7 * k] == (#[trigger] colors[k]).channel_id
                    &&& p[start + 7 * k + 1] == (colors[k].red / 256) as u8
                    &&& p[start + 7 * k + 2] == (colors[k].red % 256) as u8
                    &&& p[start + 7 * k + 3] == (colors[k].green / 256) as u8
                    &&& p[start + 7 * k + 4] == (colors[k].green % 256) as u8
                    &&& p[start + 7 * k + 5] == (colors[k].blue / 256) as u8
                    &&& p[start + 7 * k + 6] == (colors[k].blue % 256) as u8
                }
        }),
{
    let p = rgb_packet(area_id, sequence_id, colors);
    let area = vstd::utf8::encode_utf8(trim_spec(area_id));
    let start = 16 + area.len() as int;
    let fc = frame_channels(colors);
    lemma_channels_bytes_layout(fc);
    let h = stream_header(sequence_id);
    assert(h.len() == 16);
    assert(p == h + area + channels_bytes(fc));
    assert(p.subrange(16, start) =~= area);
    let n = if colors.len() <= 20 {
        colors.len() as int
    } else {
        20int
    };
    assert(fc.len() == n);
    assert forall|k: int| 0 <= k < n implies {
        &&& p[start + 7 * k] == (#[trigger] colors[k]).channel_id
        &&& p[start + 7 * k + 1] == (colors[k].red / 256) as u8
        &&& p[start + 7 * k + 2] == (colors[k].red % 256) as u8
        &&& p[start + 7 * k + 3] == (colors[k].green / 256) as u8
        &&& p[start + 7 * k + 4] == (colors[k].green % 256) as u8
        &&& p[start + 7 * k + 5] == (colors[k].blue / 256) as u8
        &&& p[start + 7 * k + 6] == (colors[k].blue % 256) as u8
    } by {
        assert(fc[k] == colors[k]);
        let b = channels_bytes(fc);
        assert(p[start + 7 * k] == b[7 * k]);
        assert(p[start + 7 * k + 1] == b[7 * k + 1]);
        assert(p[start + 7 * k + 2] == b[7 * k + 2]);
        assert(p[start + 7 * k + 3] == b[7 * k + 3]);
        assert(p[start + 7 * k + 4] == b[7 * k + 4]);
        assert(p[start + 7 * k + 5] == b[7 * k + 5]);
        assert(p[start + 7 * k + 6] == b[7 * k + 6]);
    }
}

fn push_be16(out: &mut Vec<u8>, v: u16)
    ensures
        final(out)@ == old(out)@ + be16(v),
{
    out.push((v / 256) as u8);
    out.push((v % 256) as u8);
    assert(final(out)@ =~= old(out)@ + be16(v));
}

/// Encodes one frame.  The area identifier is trimmed and must not be empty; at most
/// twenty channels are sent.
pub fn encode_rgb_packet(area_id: &str, sequence_id: u8, channel_colors: &[EntertainmentChannelColor]) -> (r:
    Result<Vec<u8>, HueError>)
    ensures
        trim_spec(area_id@).len() == 0 ==> (r matches Err(HueError::InvalidConfig(m)) && m@
            == "entertainment area ID is required"@),
        trim_spec(area_id@).len() != 0 ==> (r matches Ok(p) && p@ == rgb_packet(
            area_id@,
            sequence_id,
            channel_colors@,
        )),
{
    let area = trim(area_id);
    if area.unicode_len() == 0 {
        return Err(HueError::InvalidConfig(String::from_str("entertainment area ID is required")));
    }
    let mut packet: Vec<u8> = Vec::new();
    packet.push(72);
    packet.push(117);
    packet.push(101);
    packet.push(83);
    packet.push(116);
    packet.push(114);
    packet.push(101);
    packet.push(97);
    packet.push(109);
    packet.push(0x02);
    packet.push(0x00);
    packet.push(sequence_id);
    packet.push(0x00);
    packet.push(0x00);
    packet.push(0x00);
    packet.push(0x00);
    assert(packet@ =~= stream_header(sequence_id));
    let bytes = area.as_bytes();
    let mut i: usize = 0;
    while i < bytes.len()
        invariant
            i <= bytes@.len(),
            bytes@ == area.spec_bytes(),
            packet@ == stream_header(sequence_id) + bytes@.take(i as int),
        decreases bytes.len() - i,
    {
        packet.push(bytes[i]);
        i += 1;
        assert(bytes@.take(i as int) == bytes@.take(i - 1).push(bytes@[i - 1]));
    }
    assert(bytes@.take(i as int) == bytes@);
    let ghost prefix = packet@;
    let limit = if channel_colors.len() <= MAX_FRAME_CHANNELS {
        channel_colors.len()
    } else {
        MAX_FRAME_CHANNELS
    };
    let mut k: usize = 0;
    while k < limit
        invariant
            k <= limit,
            limit <= channel_colors@.len(),
            limit == frame_channels(channel_colors@).len(),
            packet@ == prefix + channels_bytes(channel_colors@.take(k as int)),
        decreases limit - k,
    {
        let c = channel_colors[k];
        packet.push(c.channel_id);
        push_be16(&mut packet, c.red);
        push_be16(&mut packet, c.green);
        push_be16(&mut packet, c.blue);
        proof {
            assert(channel_colors@.take(k + 1).drop_last() == channel_colors@.take(k as int));
            assert(channel_colors@.take(k + 1).last() == c);
            assert(packet@ =~= prefix + channels_bytes(channel_colors@.take(k + 1)));
        }
        k += 1;
    }
    assert(channel_colors@.take(limit as int) == frame_channels(channel_colors@));
    Ok(packet)
}

/// Frame numbering of one streaming session: each encoded frame carries the current
/// sequence number, which then advances modulo 256.
#[derive(Clone, Debug, PartialEq, Eq)]
pub struct EntertainmentFrameCounter {
    pub area_id: String,
    pub sequence_id: u8,
}

impl EntertainmentFrameCounter {
    /// A counter for an area, starting at sequence number zero.
    pub fn new(area_id: String) -> (r: Self)
        ensures
            r.area_id == area_id,
            r.sequence_id == 0,
    {
        EntertainmentFrameCounter { area_id, sequence_id: 0 }
    }

    /// Encodes the next frame; the sequence number advances only when a packet is produced.
    pub fn next_packet(&mut self, channel_colors: &[EntertainmentChannelColor]) -> (r: Result<
        Vec<u8>,
        HueError,
    >)
        ensures
            final(self).area_id == old(self).area_id,
            trim_spec(old(self).area_id@).len() == 0 ==> (r matches Err(HueError::InvalidConfig(m)) && m@
                == "entertainment area ID is required"@ && final(self).sequence_id == old(self).sequence_id),
            trim_spec(old(self).area_id@).len() != 0 ==> (r matches Ok(p) && p@ == rgb_packet(
                old(self).area_id@,
                old(self).sequence_id,
                channel_colors@,
            ) && final(self).sequence_id == (if old(self).sequence_id == 255 {
                0
            } else {
                old(self).sequence_id + 1
            })),
    {
        let packet = encode_rgb_packet(self.area_id.as_str(), self.sequence_id, channel_colors)?;
        self.sequence_id = if self.sequence_id == 255 {
            0
        } else {
            self.sequence_id + 1
        };
        Ok(packet)
    }
}

/// An all-dark frame: every channel of the area at zero.
pub fn empty_rgb_frame(area: &EntertainmentArea) -> (r: Vec<EntertainmentChannelColor>)
    ensures
        r@.len() == area.channels@.len(),
        forall|i: int|
            0 <= i < r@.len() ==> #[trigger] r@[i] == (EntertainmentChannelColor {
                channel_id: area.channels@[i].channel_id,
                red: 0,
                green: 0,
                blue: 0,
            }),
{
    let mut out: Vec<EntertainmentChannelColor> = Vec::new();
    let mut i: usize = 0;
    while i < area.channels.len()
        invariant
            i <= area.channels@.len(),
            out@.len() == i,
            forall|j: int|
                0 <= j < i ==> #[trigger] out@[j] == (EntertainmentChannelColor {
                    channel_id: area.channels@[j].channel_id,
                    red: 0,
                    green: 0,
                    blue: 0,
                }),
        decreases area.channels.len() - i,
    {
        out.push(
            EntertainmentChannelColor {
                channel_id: area.channels[i].channel_id,
                red: 0,
                green: 0,
                blue: 0,
            },
        );
        i += 1;
    }
    out
}

/// Value of one ASCII hexadecimal digit, in either case.
pub open spec fn hex_digit_value(b: u8) -> Option<u8> {
    if 48 <= b <= 57 {
        Some((b - 48) as u8)
    } else if 65 <= b <= 70 {
        Some((b - 55) as u8)
    } else if 97 <= b <= 102 {
        Some((b - 87) as u8)
    } else {
        None
    }
}

/// Bytes that a hexadecimal text stands for: pairs of digits, high digit first; `None`
/// for an odd length or a character that is not a hexadecimal digit.
pub open spec fn hex_decoded(text: Seq<u8>) -> Option<Seq<u8>>
    decreases text.len(),
{
    if text.len() % 2 != 0 {
        None
    } else if text.len() == 0 {
        Some(Seq::empty())
    } else {
        match (hex_digit_value(text[0]), hex_digit_value(text[1]), hex_decoded(text.skip(2))) {
            (Some(high), Some(low), Some(rest)) => Some(seq![(high * 16 + low) as u8] + rest),
            _ => None,
        }
    }
}

// The message of the error that `hex::decode` gives for a text it refuses (the crate's
// `Display` of `FromHexError`: the odd length, or the first invalid character and its
// position).
pub uninterp spec fn hex_error_text(text: Seq<u8>) -> Seq<char>;

/// `hex::decode`: the bytes of a hexadecimal text (pairs of digits in either case, high
/// digit first), or, for an odd length or a character that is no digit, the crate's
/// error message, named `hex_error_text` of the text; for an odd length that message is
/// `Odd number of digits`.
#[verifier::external_body]
fn hex_decode(text: &[u8]) -> (r: Result<Vec<u8>, String>)
    ensures
        r is Ok <==> hex_decoded(text@) is Some,
        r matches Ok(v) ==> v@ == hex_decoded(text@)->0,
        r matches Err(m) ==> m@ == hex_error_text(text@),
        r matches Err(m) ==> (text@.len() % 2 != 0 ==> m@ == "Odd number of digits"@),
{
    match hex::decode(text) {
        Ok(bytes) => Ok(bytes),
        Err(error) => Err(error.to_string()),
    }
}

/// The pre-shared key of an entertainment session, from the client key in hexadecimal.
/// An undecodable key and an empty key are refused.
pub fn decode_client_key(client_key_hex: &str) -> (r: Result<Vec<u8>, HueError>)
    ensures
        hex_decoded(client_key_hex.spec_bytes()) is None ==> (r matches Err(
            HueError::EntertainmentStream(m),
        ) && m@ == "invalid Hue client key: "@ + hex_error_text(client_key_hex.spec_bytes())),
        client_key_hex.spec_bytes().len() % 2 != 0 ==> (r matches Err(HueError::EntertainmentStream(m)) && m@
            == "invalid Hue client key: Odd number of digits"@),
        hex_decoded(client_key_hex.spec_bytes()) == Some(Seq::<u8>::empty()) ==> r == Err::<
            Vec<u8>,
            HueError,
        >(HueError::MissingClientKey),
        hex_decoded(client_key_hex.spec_bytes()) is Some && hex_decoded(client_key_hex.spec_bytes())->0.len()
            > 0 ==> (r matches Ok(v) && v@ == hex_decoded(client_key_hex.spec_bytes())->0),
{
    match hex_decode(client_key_hex.as_bytes()) {
        Ok(psk) => {
            if psk.len() == 0 {
                return Err(HueError::MissingClientKey);
            }
            Ok(psk)
        },
        Err(message) => {
            let full = String::from_str("invalid Hue client key: ").concat(message.as_str());
            proof {
                reveal_strlit("invalid Hue client key: ");
                reveal_strlit("Odd number of digits");
                reveal_strlit("invalid Hue client key: Odd number of digits");
                assert("invalid Hue client key: "@ + "Odd number of digits"@
                    =~= "invalid Hue client key: Odd number of digits"@);
            }
            Err(HueError::EntertainmentStream(full))
        },
    }
}

} // verus!
