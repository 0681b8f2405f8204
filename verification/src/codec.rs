//! Encoding of the one-byte payloads this device emits: the bit-packed
//! mute/volume audio-status field and the boolean field.
use vstd::prelude::*;
use crate::packet::Datapacket;

verus! {

/// A playback volume as a percentage, constrained to `[0, 100]`.
#[derive(Clone, Copy, Debug)]
pub struct VolumePercent(u8);

impl VolumePercent {
    #[verifier::type_invariant]
    spec fn in_range(self) -> bool {
        self.0 <= 100
    }

    /// The percentage a `VolumePercent` stands for.
    pub closed spec fn spec_volume(self) -> u8 {
        self.0
    }

    /// Construction fails exactly on values above 100; in-range values
    /// are kept as they are, never clamped.
    pub fn try_from(volume_percent: u8) -> (r: Result<Self, ()>)
        ensures
            r is Ok <==> volume_percent <= 100,
            r matches Ok(v) ==> v.spec_volume() == volume_percent,
    {
        if volume_percent > 100 {
            Err(())
        } else {
            Ok(VolumePercent(volume_percent))
        }
    }

    pub fn volume_percent(&self) -> (r: u8)
        ensures
            r == self.spec_volume(),
    {
        self.0
    }
}

/// The audio-status byte: bit 7 is the mute flag, bits 0-6 are the
/// volume.
pub open spec fn audio_status_byte(mute: bool, volume: u8) -> u8 {
    if mute {
        0x80u8 | (volume & 0x7f)
    } else {
        volume & 0x7f
    }
}

/// The mute flag an audio-status byte carries: bit 7.
pub open spec fn decoded_mute(b: u8) -> bool {
    b & 0x80 == 0x80
}

/// The volume an audio-status byte carries: bits 0-6.
pub open spec fn decoded_volume(b: u8) -> u8 {
    b & 0x7f
}

/// Packs the mute flag and the volume into the audio-status byte.
/// A `VolumePercent` is in range by construction, so decoding the
/// byte gives the flag and the volume back.
pub fn encode_audio_status(mute: bool, volume: VolumePercent) -> (r: u8)
    ensures
        r == audio_status_byte(mute, volume.spec_volume()),
        decoded_mute(r) == mute,
        decoded_volume(r) == volume.spec_volume(),
{
    proof {
        use_type_invariant(&volume);
        lemma_audio_status_round_trip(mute, volume.spec_volume());
    }
    let volume_low_7bits = volume.volume_percent() & 0b0111_1111u8;
    if mute {
        0b1000_0000u8 | volume_low_7bits
    } else {
        volume_low_7bits
    }
}

/// Reads the mute flag (bit 7) and the volume (bits 0-6) back out of
/// an audio-status byte.
pub fn decode_audio_status(b: u8) -> (r: (bool, u8))
    ensures
        r.0 == decoded_mute(b),
        r.1 == decoded_volume(b),
{
    (b & 0x80 == 0x80, b & 0x7f)
}

/// Round trip of the audio-status encoding: for every mute flag and
/// every volume in `[0, 100]`, decoding the encoded byte gives back
/// exactly the mute flag and the volume.
pub proof fn lemma_audio_status_round_trip(mute: bool, volume: u8)
    requires
        volume <= 100,
    ensures
        decoded_mute(audio_status_byte(mute, volume)) == mute,
        decoded_volume(audio_status_byte(mute, volume)) == volume,
{
    assert(decoded_mute(audio_status_byte(mute, volume)) == mute
        && decoded_volume(audio_status_byte(mute, volume)) == volume) by (bit_vector)
        requires
            volume <= 100,
    ;
}

/// The byte a boolean payload packs to: 1 for true, 0 for false.
pub open spec fn bool_byte(val: bool) -> u8 {
    if val {
        1u8
    } else {
        0u8
    }
}

/// The one-byte audio-status payload of a `ReportAudioStatus` reply.
pub fn audio_status_data_packet(mute: bool, volume: VolumePercent) -> (r: Datapacket)
    ensures
        r@ == seq![audio_status_byte(mute, volume.spec_volume())],
{
    let mut data = Datapacket::new();
    data.push(encode_audio_status(mute, volume));
    proof {
        assert(data@ =~= seq![audio_status_byte(mute, volume.spec_volume())]);
    }
    data
}

/// The one-byte boolean payload used by the system-audio-mode replies.
pub fn bool_data_packet(val: bool) -> (r: Datapacket)
    ensures
        r@ == seq![bool_byte(val)],
{
    let mut data = Datapacket::new();
    data.push(if val { 1 } else { 0 });
    proof {
        assert(data@ =~= seq![bool_byte(val)]);
    }
    data
}

} // verus!
