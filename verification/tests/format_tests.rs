use dip_panel::format_calculator::calculate_group_format;
use dip_panel::format_calculator::calculate_hd_format_from_table2;

#[test]
fn test_sd_ntsc_format() {
    let format = calculate_group_format(false, false, false, false, false, false);
    assert_eq!(format, "SD - 525i (NTSC)");
}

#[test]
fn test_sd_pal_format() {
    let format = calculate_group_format(false, true, false, false, false, false);
    assert_eq!(format, "SD - 625i (PAL)");
}

#[test]
fn test_hd_1080i59_94() {
    // SW4=LEFT (59.94), SW5=LEFT (1080), S1S2S3=000
    let format = calculate_group_format(true, false, false, false, false, false);
    assert_eq!(format, "HD - 1080i59.94 (1080psf29.97)");
}

#[test]
fn test_hd_720p50() {
    // SW4=RIGHT (50), SW5=RIGHT (720), S1S2S3=000
    let format = calculate_group_format(true, true, true, false, false, false);
    assert_eq!(format, "HD - 720p50");
}

#[test]
fn test_hd_1080p24() {
    // SW4=LEFT (59.94), SW5=LEFT (1080), S1S2S3=110
    let format = calculate_group_format(true, false, false, false, true, true);
    assert_eq!(format, "HD - 1080p24");
}

#[test]
fn test_hd_1080p25() {
    // SW4=RIGHT (50), SW5=LEFT (1080), S1S2S3=010
    let format = calculate_group_format(true, true, false, false, true, false);
    assert_eq!(format, "HD - 1080p25");
}

#[test]
fn test_all_table2_combinations() {
    // Test that all 32 combinations produce valid output
    for sw4 in [false, true] {
        for sw5 in [false, true] {
            for s1 in [false, true] {
                for s2 in [false, true] {
                    for s3 in [false, true] {
                        let format = calculate_group_format(true, sw4, sw5, s1, s2, s3);
                        assert!(format.starts_with("HD - "));
                    }
                }
            }
        }
    }
}

#[test]
fn test_hd_combinations_are_nonempty_names() {
    for sw4 in [false, true] {
        for sw5 in [false, true] {
            for s1 in [false, true] {
                for s2 in [false, true] {
                    for s3 in [false, true] {
                        let name = calculate_hd_format_from_table2(sw4, sw5, s1, s2, s3);
                        assert!(!name.is_empty());
                        let format = calculate_group_format(true, sw4, sw5, s1, s2, s3);
                        assert_eq!(format, format!("HD - {}", name));
                    }
                }
            }
        }
    }
}

#[test]
fn test_sd_ignores_hd_selectors() {
    // In SD mode the label is decided by SW4 alone.
    for sw5 in [false, true] {
        for s1 in [false, true] {
            for s2 in [false, true] {
                for s3 in [false, true] {
                    assert_eq!(
                        calculate_group_format(false, false, sw5, s1, s2, s3),
                        "SD - 525i (NTSC)"
                    );
                    assert_eq!(
                        calculate_group_format(false, true, sw5, s1, s2, s3),
                        "SD - 625i (PAL)"
                    );
                }
            }
        }
    }
}

#[test]
fn test_hd_table_exact_rows() {
    // One spot check per quadrant of the table, at selector code 7.
    assert_eq!(calculate_hd_format_from_table2(false, false, true, true, true), "1080p30");
    assert_eq!(calculate_hd_format_from_table2(false, true, true, true, true), "720p30");
    assert_eq!(calculate_hd_format_from_table2(true, false, true, true, true), "1080p25");
    assert_eq!(calculate_hd_format_from_table2(true, true, true, true, true), "720p25");
    // The psf variants sit at selector code 4.
    assert_eq!(
        calculate_hd_format_from_table2(false, false, false, false, true),
        "1080i60 (1080psf30)"
    );
    assert_eq!(
        calculate_hd_format_from_table2(true, false, false, false, true),
        "1080i50 (1080psf25)"
    );
}
