//! The authoritative state of the 8 DIP switches, with its derived output
//! configuration and masked bitmask.
//!
//! Switch index 0-7 stands for switch 1-8; `false` is LEFT, `true` is RIGHT.
//! Out-of-range indices are handled defensively: a write is a no-op and a
//! read returns `false`.

use vstd::prelude::*;
use vstd::string::StringExecFns;
use crate::format_calculator::calculate_group_format;
use crate::format_calculator::spec_group_format;

verus! {

/// The bank of 8 DIP switches.
#[derive(Debug, Clone)]
pub struct DipSwitch {
    switches: [bool; 8],
}

impl View for DipSwitch {
    type V = Seq<bool>;

    closed spec fn view(&self) -> Seq<bool> {
        self.switches@
    }
}

/// All 8 switches sit in the LEFT (`false`) position.
pub open spec fn spec_all_off(s: Seq<bool>) -> bool {
    &&& s.len() == 8
    &&& forall|i: int| 0 <= i < 8 ==> !s[i]
}

/// A defensive read: the switch value in range, `false` out of range.
pub open spec fn spec_get(s: Seq<bool>, i: int) -> bool {
    if 0 <= i < 8 {
        s[i]
    } else {
        false
    }
}

/// A defensive toggle: flips the switch in range, leaves the bank alone
/// out of range.
pub open spec fn spec_toggle(s: Seq<bool>, i: int) -> Seq<bool> {
    if 0 <= i < 8 {
        s.update(i, !s[i])
    } else {
        s
    }
}

/// The masked bitmask: bit i reflects switch i, and the mask
/// `0b1111_1000` then keeps only switches 4-8 (bits 3-7) visible.
pub open spec fn spec_bitmask(s: Seq<bool>) -> u8 {
    ((if s[3] {
        8int
    } else {
        0int
    }) + (if s[4] {
        16int
    } else {
        0int
    }) + (if s[5] {
        32int
    } else {
        0int
    }) + (if s[6] {
        64int
    } else {
        0int
    }) + (if s[7] {
        128int
    } else {
        0int
    })) as u8
}

/// The character a single bit renders as.
pub open spec fn spec_bit_char(b: bool) -> char {
    if b {
        '1'
    } else {
        '0'
    }
}

/// The binary rendering of the masked bitmask: `"0b"` then 8 digits, most
/// significant bit first. Bits 0-2 are masked away, so the last three
/// digits are always `'0'`.
pub open spec fn spec_bitmask_binary(s: Seq<bool>) -> Seq<char> {
    seq![
        '0',
        'b',
        spec_bit_char(s[7]),
        spec_bit_char(s[6]),
        spec_bit_char(s[5]),
        spec_bit_char(s[4]),
        spec_bit_char(s[3]),
        '0',
        '0',
        '0',
    ]
}

/// The uppercase hexadecimal digit for a value below 16.
pub open spec fn spec_hex_digit(n: int) -> char {
    if n == 0 {
        '0'
    } else if n == 1 {
        '1'
    } else if n == 2 {
        '2'
    } else if n == 3 {
        '3'
    } else if n == 4 {
        '4'
    } else if n == 5 {
        '5'
    } else if n == 6 {
        '6'
    } else if n == 7 {
        '7'
    } else if n == 8 {
        '8'
    } else if n == 9 {
        '9'
    } else if n == 10 {
        'A'
    } else if n == 11 {
        'B'
    } else if n == 12 {
        'C'
    } else if n == 13 {
        'D'
    } else if n == 14 {
        'E'
    } else {
        'F'
    }
}

/// The value of the high nibble of the masked bitmask (bits 4-7).
pub open spec fn spec_high_nibble(s: Seq<bool>) -> int {
    (if s[4] {
        1int
    } else {
        0int
    }) + (if s[5] {
        2int
    } else {
        0int
    }) + (if s[6] {
        4int
    } else {
        0int
    }) + (if s[7] {
        8int
    } else {
        0int
    })
}

/// The hex rendering of the masked bitmask: `"0x"` then two uppercase
/// digits. The low nibble keeps only bit 3, so its digit is `'8'` or `'0'`.
pub open spec fn spec_bitmask_hex(s: Seq<bool>) -> Seq<char> {
    seq![
        '0',
        'x',
        spec_hex_digit(spec_high_nibble(s)),
        if s[3] {
            '8'
        } else {
            '0'
        },
    ]
}

impl DipSwitch {
    /// Create a new bank with all switches in the LEFT position.
    pub fn new() -> (r: Self)
        ensures
            spec_all_off(r@),
    {
        Self { switches: [false, false, false, false, false, false, false, false] }
    }

    /// Toggle the switch at `index` (0-7); out of range this is a no-op.
    pub fn toggle(&mut self, index: usize)
        ensures
            final(self)@ == spec_toggle(old(self)@, index as int),
    {
        if index < 8 {
            let cur = self.switches[index];
            self.switches[index] = !cur;
            assert(self@ =~= spec_toggle(old(self)@, index as int));
        }
    }

    /// Put every switch back in the LEFT position.
    pub fn reset(&mut self)
        ensures
            spec_all_off(final(self)@),
    {
        self.switches = [false, false, false, false, false, false, false, false];
    }

    /// Read the switch at `index` (0-7); out of range this reads `false`.
    pub fn get(&self, index: usize) -> (r: bool)
        ensures
            r == spec_get(self@, index as int),
    {
        if index < 8 {
            self.switches[index]
        } else {
            false
        }
    }

    /// Fold the 8 switches into bits 0-7 in index order, then mask with
    /// `0b1111_1000` so only the video-format switches 4-8 remain.
    pub fn get_bitmask(&self) -> (r: u8)
        ensures
            r == spec_bitmask(self@),
    {
        let mut mask: u8 = 0;
        if self.switches[0] {
            mask = mask + 1;
        }
        if self.switches[1] {
            mask = mask + 2;
        }
        if self.switches[2] {
            mask = mask + 4;
        }
        if self.switches[3] {
            mask = mask + 8;
        }
        if self.switches[4] {
            mask = mask + 16;
        }
        if self.switches[5] {
            mask = mask + 32;
        }
        if self.switches[6] {
            mask = mask + 64;
        }
        if self.switches[7] {
            mask = mask + 128;
        }
        let r = mask & 0b1111_1000u8;
        proof {
            let b0: u8 = if self@[0] { 1 } else { 0 };
            let b1: u8 = if self@[1] { 1 } else { 0 };
            let b2: u8 = if self@[2] { 1 } else { 0 };
            let b3: u8 = if self@[3] { 1 } else { 0 };
            let b4: u8 = if self@[4] { 1 } else { 0 };
            let b5: u8 = if self@[5] { 1 } else { 0 };
            let b6: u8 = if self@[6] { 1 } else { 0 };
            let b7: u8 = if self@[7] { 1 } else { 0 };
            assert(mask == b0 + 2 * b1 + 4 * b2 + 8 * b3 + 16 * b4 + 32 * b5 + 64 * b6 + 128
                * b7);
            assert(r == 8 * b3 + 16 * b4 + 32 * b5 + 64 * b6 + 128 * b7) by (bit_vector)
                requires
                    r == mask & 0b1111_1000u8,
                    mask == b0 + 2 * b1 + 4 * b2 + 8 * b3 + 16 * b4 + 32 * b5 + 64 * b6 + 128
                        * b7,
                    b0 <= 1,
                    b1 <= 1,
                    b2 <= 1,
                    b3 <= 1,
                    b4 <= 1,
                    b5 <= 1,
                    b6 <= 1,
                    b7 <= 1,
            ;
        }
        r
    }

    /// Render the masked bitmask as `"0b"` followed by 8 binary digits.
    pub fn get_bitmask_binary(&self) -> (r: String)
        ensures
            r@ == spec_bitmask_binary(self@),
    {
        let mut r = "0b".to_owned();
        r.append(if self.switches[7] { "1" } else { "0" });
        r.append(if self.switches[6] { "1" } else { "0" });
        r.append(if self.switches[5] { "1" } else { "0" });
        r.append(if self.switches[4] { "1" } else { "0" });
        r.append(if self.switches[3] { "1" } else { "0" });
        r.append("000");
        proof {
            reveal_strlit("0b");
            reveal_strlit("0");
            reveal_strlit("1");
            reveal_strlit("000");
            assert(r@ =~= spec_bitmask_binary(self@));
        }
        r
    }

    /// Render the masked bitmask as `"0x"` followed by 2 uppercase hex
    /// digits.
    pub fn get_bitmask_hex(&self) -> (r: String)
        ensures
            r@ == spec_bitmask_hex(self@),
    {
        let hi: u8 = (if self.switches[4] {
            1u8
        } else {
            0u8
        }) + (if self.switches[5] {
            2u8
        } else {
            0u8
        }) + (if self.switches[6] {
            4u8
        } else {
            0u8
        }) + (if self.switches[7] {
            8u8
        } else {
            0u8
        });
        let mut r = "0x".to_owned();
        r.append(hex_digit_str(hi));
        r.append(if self.switches[3] { "8" } else { "0" });
        proof {
            reveal_strlit("0x");
            reveal_strlit("0");
            reveal_strlit("8");
            assert(r@ =~= spec_bitmask_hex(self@));
        }
        r
    }

    /// Derive the full output configuration from the switch readings:
    /// group 1 is decoded with switch 1 as its sync switch, group 2 with
    /// switch 2, both sharing the format selectors (switches 4-8), and
    /// switch 3 picks the SD video and audio outputs.
    pub fn get_config(&self) -> (r: OutputConfig)
        ensures
            r.group1_format@ == spec_group_format(
                spec_get(self@, 0),
                spec_get(self@, 3),
                spec_get(self@, 4),
                spec_get(self@, 5),
                spec_get(self@, 6),
                spec_get(self@, 7),
            ),
            r.group2_format@ == spec_group_format(
                spec_get(self@, 1),
                spec_get(self@, 3),
                spec_get(self@, 4),
                spec_get(self@, 5),
                spec_get(self@, 6),
                spec_get(self@, 7),
            ),
            r.sd_video == (if spec_get(self@, 2) {
                SdVideo::ColorBars75
            } else {
                SdVideo::ColorBlack
            }),
            r.audio == (if spec_get(self@, 2) {
                AudioOutput::Tone
            } else {
                AudioOutput::Silent
            }),
    {
        let sw1_sync_1_4 = self.switches[0];
        let sw2_sync_5_6 = self.switches[1];
        let sw3_sd_audio = self.switches[2];
        let sw4_format = self.switches[3];
        let sw5_hd_fmt = self.switches[4];
        let sw6_s1 = self.switches[5];
        let sw7_s2 = self.switches[6];
        let sw8_s3 = self.switches[7];

        let group1_format = calculate_group_format(
            sw1_sync_1_4,
            sw4_format,
            sw5_hd_fmt,
            sw6_s1,
            sw7_s2,
            sw8_s3,
        );
        let group2_format = calculate_group_format(
            sw2_sync_5_6,
            sw4_format,
            sw5_hd_fmt,
            sw6_s1,
            sw7_s2,
            sw8_s3,
        );

        let (sd_video, audio) = if sw3_sd_audio {
            (SdVideo::ColorBars75, AudioOutput::Tone)
        } else {
            (SdVideo::ColorBlack, AudioOutput::Silent)
        };

        OutputConfig { group1_format, group2_format, sd_video, audio }
    }
}

impl Default for DipSwitch {
    /// A default bank has every switch in the LEFT position.
    fn default() -> (r: Self)
        ensures
            spec_all_off(r@),
    {
        Self::new()
    }
}

/// The uppercase hexadecimal digit for `n` (below 16), as a 1-char slice.
fn hex_digit_str(n: u8) -> (d: &'static str)
    requires
        n < 16,
    ensures
        d@ == seq![spec_hex_digit(n as int)],
{
    let d = if n == 0 {
        "0"
    } else if n == 1 {
        "1"
    } else if n == 2 {
        "2"
    } else if n == 3 {
        "3"
    } else if n == 4 {
        "4"
    } else if n == 5 {
        "5"
    } else if n == 6 {
        "6"
    } else if n == 7 {
        "7"
    } else if n == 8 {
        "8"
    } else if n == 9 {
        "9"
    } else if n == 10 {
        "A"
    } else if n == 11 {
        "B"
    } else if n == 12 {
        "C"
    } else if n == 13 {
        "D"
    } else if n == 14 {
        "E"
    } else {
        "F"
    };
    proof {
        reveal_strlit("0");
        reveal_strlit("1");
        reveal_strlit("2");
        reveal_strlit("3");
        reveal_strlit("4");
        reveal_strlit("5");
        reveal_strlit("6");
        reveal_strlit("7");
        reveal_strlit("8");
        reveal_strlit("9");
        reveal_strlit("A");
        reveal_strlit("B");
        reveal_strlit("C");
        reveal_strlit("D");
        reveal_strlit("E");
        reveal_strlit("F");
        assert(d@ =~= seq![spec_hex_digit(n as int)]);
    }
    d
}

/// Complete output configuration derived from the DIP switch settings.
#[derive(Debug, Clone)]
pub struct OutputConfig {
    pub group1_format: String,
    pub group2_format: String,
    pub sd_video: SdVideo,
    pub audio: AudioOutput,
}

/// The label shown for an SD video output option.
pub open spec fn spec_sd_video_label(v: SdVideo) -> Seq<char> {
    match v {
        SdVideo::ColorBlack => "Color Black"@,
        SdVideo::ColorBars75 => "75% Color Bars"@,
    }
}

/// SD video output options.
#[derive(Debug, Clone, Copy, PartialEq, Eq)]
pub enum SdVideo {
    ColorBlack,
    ColorBars75,
}

impl SdVideo {
    /// The human-readable label of this option.
    pub fn as_str(&self) -> (r: &str)
        ensures
            r@ == spec_sd_video_label(*self),
    {
        match self {
            SdVideo::ColorBlack => "Color Black",
            SdVideo::ColorBars75 => "75% Color Bars",
        }
    }
}

/// The label shown for an audio output option.
pub open spec fn spec_audio_label(a: AudioOutput) -> Seq<char> {
    match a {
        AudioOutput::Silent => "Silent"@,
        AudioOutput::Tone => "Tone"@,
    }
}

/// Audio output options.
#[derive(Debug, Clone, Copy, PartialEq, Eq)]
pub enum AudioOutput {
    Silent,
    Tone,
}

impl AudioOutput {
    /// The human-readable label of this option.
    pub fn as_str(&self) -> (r: &str)
        ensures
            r@ == spec_audio_label(*self),
    {
        match self {
            AudioOutput::Silent => "Silent",
            AudioOutput::Tone => "Tone",
        }
    }
}

/// Switches 1-3 never influence the bitmask: its three low bits are zero
/// in every switch state.
pub proof fn lemma_bitmask_low_bits_zero(s: Seq<bool>)
    ensures
        spec_bitmask(s) & 0b0000_0111u8 == 0,
{
    let b3: u8 = if s[3] { 1 } else { 0 };
    let b4: u8 = if s[4] { 1 } else { 0 };
    let b5: u8 = if s[5] { 1 } else { 0 };
    let b6: u8 = if s[6] { 1 } else { 0 };
    let b7: u8 = if s[7] { 1 } else { 0 };
    let m: u8 = spec_bitmask(s);
    assert(m == 8 * b3 + 16 * b4 + 32 * b5 + 64 * b6 + 128 * b7);
    assert(m & 0b0000_0111u8 == 0) by (bit_vector)
        requires
            m == 8 * b3 + 16 * b4 + 32 * b5 + 64 * b6 + 128 * b7,
            b3 <= 1,
            b4 <= 1,
            b5 <= 1,
            b6 <= 1,
            b7 <= 1,
    ;
}

/// Changing one of switches 1-3 leaves the bitmask as it was.
pub proof fn lemma_bitmask_ignores_low_switches(s: Seq<bool>, i: int, v: bool)
    requires
        s.len() == 8,
        0 <= i < 3,
    ensures
        spec_bitmask(s.update(i, v)) == spec_bitmask(s),
{
}

/// Toggling the same switch twice restores the original full state.
pub proof fn lemma_toggle_involution(s: Seq<bool>, i: int)
    requires
        s.len() == 8,
    ensures
        spec_toggle(spec_toggle(s, i), i) == s,
{
    if 0 <= i < 8 {
        assert(spec_toggle(spec_toggle(s, i), i) =~= s);
    }
}

/// The binary rendering shows exactly the bits of the masked bitmask:
/// digit `k` after the `"0b"` prefix is `'1'` precisely when bit `7 - k`
/// of the bitmask is set.
pub proof fn lemma_binary_rendering_matches_bitmask(s: Seq<bool>)
    ensures
        spec_bitmask_binary(s)[2] == spec_bit_char(spec_bitmask(s) & 0x80u8 != 0),
        spec_bitmask_binary(s)[3] == spec_bit_char(spec_bitmask(s) & 0x40u8 != 0),
        spec_bitmask_binary(s)[4] == spec_bit_char(spec_bitmask(s) & 0x20u8 != 0),
        spec_bitmask_binary(s)[5] == spec_bit_char(spec_bitmask(s) & 0x10u8 != 0),
        spec_bitmask_binary(s)[6] == spec_bit_char(spec_bitmask(s) & 0x08u8 != 0),
        spec_bitmask_binary(s)[7] == spec_bit_char(spec_bitmask(s) & 0x04u8 != 0),
        spec_bitmask_binary(s)[8] == spec_bit_char(spec_bitmask(s) & 0x02u8 != 0),
        spec_bitmask_binary(s)[9] == spec_bit_char(spec_bitmask(s) & 0x01u8 != 0),
{
    let b3: u8 = if s[3] { 1 } else { 0 };
    let b4: u8 = if s[4] { 1 } else { 0 };
    let b5: u8 = if s[5] { 1 } else { 0 };
    let b6: u8 = if s[6] { 1 } else { 0 };
    let b7: u8 = if s[7] { 1 } else { 0 };
    let m: u8 = spec_bitmask(s);
    assert(m == 8 * b3 + 16 * b4 + 32 * b5 + 64 * b6 + 128 * b7);
    assert((m & 0x80u8 != 0) == (b7 == 1) && (m & 0x40u8 != 0) == (b6 == 1) && (m & 0x20u8 != 0)
        == (b5 == 1) && (m & 0x10u8 != 0) == (b4 == 1) && (m & 0x08u8 != 0) == (b3 == 1) && (m
        & 0x04u8 == 0) && (m & 0x02u8 == 0) && (m & 0x01u8 == 0)) by (bit_vector)
        requires
            m == 8 * b3 + 16 * b4 + 32 * b5 + 64 * b6 + 128 * b7,
            b3 <= 1,
            b4 <= 1,
            b5 <= 1,
            b6 <= 1,
            b7 <= 1,
    ;
}

/// The hex rendering shows exactly the two nibbles of the masked bitmask:
/// the first digit is the high nibble, the second the low one.
pub proof fn lemma_hex_rendering_matches_bitmask(s: Seq<bool>)
    ensures
        spec_bitmask_hex(s)[2] == spec_hex_digit((spec_bitmask(s) / 16) as int),
        spec_bitmask_hex(s)[3] == spec_hex_digit((spec_bitmask(s) % 16) as int),
{
    let b3: u8 = if s[3] { 1 } else { 0 };
    let hn = spec_high_nibble(s);
    let m: u8 = spec_bitmask(s);
    assert(m == 16 * hn + 8 * b3);
    assert(m / 16 == hn && m % 16 == 8 * b3) by (nonlinear_arith)
        requires
            m == 16 * hn + 8 * b3,
            0 <= hn <= 15,
            b3 <= 1,
    ;
}

/// After a reset the bitmask is zero and every read returns `false`.
pub proof fn lemma_reset_state(s: Seq<bool>)
    requires
        spec_all_off(s),
    ensures
        spec_bitmask(s) == 0,
        forall|i: int| !spec_get(s, i),
{
}

} // verus!
