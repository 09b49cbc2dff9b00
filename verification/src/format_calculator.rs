//! Pure decoding of switch readings into named video formats.
//!
//! A group's format is decided by its sync switch (SD vs HD) together with
//! the five shared format-selector switches. The HD half is an exhaustive
//! truth table over the 32 combinations of the two family switches and the
//! three selector switches.

use vstd::prelude::*;

verus! {

/// The selector code formed by the three selector switches S1, S2, S3
/// (switches 6-8): S1 is the low bit, S3 the high bit.
pub open spec fn spec_selector_code(sw6_s1: bool, sw7_s2: bool, sw8_s3: bool) -> int {
    (if sw6_s1 { 1int } else { 0int }) + (if sw7_s2 { 2int } else { 0int })
        + (if sw8_s3 { 4int } else { 0int })
}

/// The HD format name chosen by switches 4-8, as the fixed table gives it:
/// switch 4 picks the 59.94/23.98-or-50/25 frequency family, switch 5 picks
/// 1080 or 720 lines, and the selector code picks the variant.
pub open spec fn spec_hd_format(
    sw4_format: bool,
    sw5_hd_fmt: bool,
    sw6_s1: bool,
    sw7_s2: bool,
    sw8_s3: bool,
) -> Seq<char> {
    let code = spec_selector_code(sw6_s1, sw7_s2, sw8_s3);
    if !sw4_format && !sw5_hd_fmt {
        if code == 0 {
            "1080i59.94 (1080psf29.97)"@
        } else if code == 1 {
            "1080psf23.98"@
        } else if code == 2 {
            "1080p23.98"@
        } else if code == 3 {
            "1080p29.97"@
        } else if code == 4 {
            "1080i60 (1080psf30)"@
        } else if code == 5 {
            "1080psf24"@
        } else if code == 6 {
            "1080p24"@
        } else {
            "1080p30"@
        }
    } else if !sw4_format && sw5_hd_fmt {
        if code == 0 {
            "720p59.94"@
        } else if code == 1 || code == 2 {
            "720p23.98"@
        } else if code == 3 {
            "720p29.97"@
        } else if code == 4 {
            "720p60"@
        } else if code == 5 || code == 6 {
            "720p24"@
        } else {
            "720p30"@
        }
    } else if sw4_format && !sw5_hd_fmt {
        if code == 2 || code == 3 || code == 6 || code == 7 {
            "1080p25"@
        } else if code == 4 {
            "1080i50 (1080psf25)"@
        } else {
            "1080i50"@
        }
    } else {
        if code == 0 || code == 4 {
            "720p50"@
        } else {
            "720p25"@
        }
    }
}

/// The full format label a group shows: one of the two SD formats when the
/// sync switch is off (the selectors are ignored), else the HD table entry
/// under an `"HD - "` prefix.
pub open spec fn spec_group_format(
    sync_switch: bool,
    sw4_format: bool,
    sw5_hd_fmt: bool,
    sw6_s1: bool,
    sw7_s2: bool,
    sw8_s3: bool,
) -> Seq<char> {
    if !sync_switch {
        if !sw4_format {
            "SD - 525i (NTSC)"@
        } else {
            "SD - 625i (PAL)"@
        }
    } else {
        "HD - "@ + spec_hd_format(sw4_format, sw5_hd_fmt, sw6_s1, sw7_s2, sw8_s3)
    }
}

/// Look up the HD format name for switches 4-8 in the fixed table.
pub fn calculate_hd_format_from_table2(
    sw4_format: bool,
    sw5_hd_fmt: bool,
    sw6_s1: bool,
    sw7_s2: bool,
    sw8_s3: bool,
) -> (r: String)
    ensures
        r@ == spec_hd_format(sw4_format, sw5_hd_fmt, sw6_s1, sw7_s2, sw8_s3),
{
    let code: u8 = (if sw6_s1 { 1u8 } else { 0u8 }) + (if sw7_s2 { 2u8 } else { 0u8 })
        + (if sw8_s3 { 4u8 } else { 0u8 });
    if !sw4_format && !sw5_hd_fmt {
        if code == 0 {
            "1080i59.94 (1080psf29.97)".to_owned()
        } else if code == 1 {
            "1080psf23.98".to_owned()
        } else if code == 2 {
            "1080p23.98".to_owned()
        } else if code == 3 {
            "1080p29.97".to_owned()
        } else if code == 4 {
            "1080i60 (1080psf30)".to_owned()
        } else if code == 5 {
            "1080psf24".to_owned()
        } else if code == 6 {
            "1080p24".to_owned()
        } else {
            "1080p30".to_owned()
        }
    } else if !sw4_format && sw5_hd_fmt {
        if code == 0 {
            "720p59.94".to_owned()
        } else if code == 1 || code == 2 {
            "720p23.98".to_owned()
        } else if code == 3 {
            "720p29.97".to_owned()
        } else if code == 4 {
            "720p60".to_owned()
        } else if code == 5 || code == 6 {
            "720p24".to_owned()
        } else {
            "720p30".to_owned()
        }
    } else if sw4_format && !sw5_hd_fmt {
        if code == 2 || code == 3 || code == 6 || code == 7 {
            "1080p25".to_owned()
        } else if code == 4 {
            "1080i50 (1080psf25)".to_owned()
        } else {
            "1080i50".to_owned()
        }
    } else {
        if code == 0 || code == 4 {
            "720p50".to_owned()
        } else {
            "720p25".to_owned()
        }
    }
}

/// Calculate the output format label for a group (Group 1 or Group 2)
/// from its sync switch and the shared format-selector switches.
pub fn calculate_group_format(
    sync_switch: bool,
    sw4_format: bool,
    sw5_hd_fmt: bool,
    sw6_s1: bool,
    sw7_s2: bool,
    sw8_s3: bool,
) -> (r: String)
    ensures
        r@ == spec_group_format(sync_switch, sw4_format, sw5_hd_fmt, sw6_s1, sw7_s2, sw8_s3),
{
    if !sync_switch {
        if !sw4_format {
            return "SD - 525i (NTSC)".to_owned();
        } else {
            return "SD - 625i (PAL)".to_owned();
        }
    }
    let hd_format = calculate_hd_format_from_table2(sw4_format, sw5_hd_fmt, sw6_s1, sw7_s2, sw8_s3);
    let mut r = "HD - ".to_owned();
    r.append(hd_format.as_str());
    r
}

/// In SD mode the group label is decided by switch 4 alone: the three
/// selector switches and the HD family switch never reach the result.
pub proof fn lemma_sd_format_matches_sw4(
    sw4_format: bool,
    sw5_hd_fmt: bool,
    sw6_s1: bool,
    sw7_s2: bool,
    sw8_s3: bool,
)
    ensures
        spec_group_format(false, sw4_format, sw5_hd_fmt, sw6_s1, sw7_s2, sw8_s3) == (if sw4_format {
            "SD - 625i (PAL)"@
        } else {
            "SD - 525i (NTSC)"@
        }),
{
}

/// Every one of the 32 HD combinations yields a label: it is non-empty and
/// begins with `"HD - "`.
pub proof fn lemma_hd_format_total(
    sw4_format: bool,
    sw5_hd_fmt: bool,
    sw6_s1: bool,
    sw7_s2: bool,
    sw8_s3: bool,
)
    ensures
        spec_group_format(true, sw4_format, sw5_hd_fmt, sw6_s1, sw7_s2, sw8_s3).len() > 5,
        spec_group_format(true, sw4_format, sw5_hd_fmt, sw6_s1, sw7_s2, sw8_s3).subrange(0, 5)
            == "HD - "@,
{
    reveal_strlit("HD - ");
    let hd = spec_hd_format(sw4_format, sw5_hd_fmt, sw6_s1, sw7_s2, sw8_s3);
    assert(hd.len() > 0) by {
        lemma_hd_name_nonempty(sw4_format, sw5_hd_fmt, sw6_s1, sw7_s2, sw8_s3);
    }
    assert(("HD - "@ + hd).subrange(0, 5) =~= "HD - "@);
}

/// Every entry of the HD table is a non-empty name.
pub proof fn lemma_hd_name_nonempty(
    sw4_format: bool,
    sw5_hd_fmt: bool,
    sw6_s1: bool,
    sw7_s2: bool,
    sw8_s3: bool,
)
    ensures
        spec_hd_format(sw4_format, sw5_hd_fmt, sw6_s1, sw7_s2, sw8_s3).len() > 0,
{
    reveal_strlit("1080i59.94 (1080psf29.97)");
    reveal_strlit("1080psf23.98");
    reveal_strlit("1080p23.98");
    reveal_strlit("1080p29.97");
    reveal_strlit("1080i60 (1080psf30)");
    reveal_strlit("1080psf24");
    reveal_strlit("1080p24");
    reveal_strlit("1080p30");
    reveal_strlit("720p59.94");
    reveal_strlit("720p23.98");
    reveal_strlit("720p29.97");
    reveal_strlit("720p60");
    reveal_strlit("720p24");
    reveal_strlit("720p30");
    reveal_strlit("1080p25");
    reveal_strlit("1080i50 (1080psf25)");
    reveal_strlit("1080i50");
    reveal_strlit("720p50");
    reveal_strlit("720p25");
}

} // verus!
