use dip_panel::animation::TRAVEL_MICROS;
use dip_panel::panel::decode_key;
use dip_panel::panel::KeyAction;
use dip_panel::panel::SwitchPanel;

#[test]
fn test_decode_key_mapping() {
    assert_eq!(decode_key('1'), KeyAction::Toggle(0));
    assert_eq!(decode_key('5'), KeyAction::Toggle(4));
    assert_eq!(decode_key('8'), KeyAction::Toggle(7));
    assert_eq!(decode_key('r'), KeyAction::Reset);
    assert_eq!(decode_key('R'), KeyAction::Reset);
    assert_eq!(decode_key('q'), KeyAction::Quit);
    assert_eq!(decode_key('Q'), KeyAction::Quit);
    assert_eq!(decode_key('0'), KeyAction::Ignored);
    assert_eq!(decode_key('9'), KeyAction::Ignored);
    assert_eq!(decode_key('x'), KeyAction::Ignored);
    assert_eq!(decode_key(' '), KeyAction::Ignored);
}

#[test]
fn test_toggle_starts_matching_animation() {
    let mut p = SwitchPanel::new();
    p.toggle(3);
    assert_eq!(p.dipswitch.get(3), true);
    assert!(p.animations[3].animating);
    assert!(p.animations[3].target_state);
    assert_eq!(p.animations[3].position(), 0);
    for i in 0..8 {
        if i != 3 {
            assert!(!p.animations[i].animating);
        }
    }
}

#[test]
fn test_advance_moves_only_live_animations() {
    let mut p = SwitchPanel::new();
    p.toggle(2);
    p.advance(75_000);
    assert_eq!(p.animations[2].position(), TRAVEL_MICROS / 2);
    assert!(p.animations[2].animating);
    for i in 0..8 {
        if i != 2 {
            assert_eq!(p.animations[i].position(), 0);
        }
    }
    p.advance(75_000);
    assert_eq!(p.animations[2].position(), TRAVEL_MICROS);
    assert!(!p.animations[2].animating);
}

#[test]
fn test_reset_rearms_every_animation() {
    let mut p = SwitchPanel::new();
    p.toggle(1);
    p.toggle(6);
    p.advance(150_000);
    p.reset();
    for i in 0..8 {
        assert_eq!(p.dipswitch.get(i), false);
        assert!(p.animations[i].animating);
        assert!(!p.animations[i].target_state);
    }
    // The quirk: even animations already at LEFT report animating until
    // the next tick clears them.
    p.advance(0);
    for i in [0, 2, 3, 4, 5, 7] {
        assert!(!p.animations[i].animating);
        assert_eq!(p.animations[i].position(), 0);
    }
    // The two that were RIGHT are still travelling back.
    assert!(p.animations[1].animating);
    assert!(p.animations[6].animating);
    p.advance(150_000);
    for i in 0..8 {
        assert!(!p.animations[i].animating);
        assert_eq!(p.animations[i].position(), 0);
    }
}

#[test]
fn test_handle_key_drives_the_panel() {
    let mut p = SwitchPanel::new();
    assert!(!p.handle_key('4'));
    assert_eq!(p.dipswitch.get(3), true);
    assert_eq!(p.dipswitch.get_bitmask(), 0x08);
    assert_eq!(p.dipswitch.get_bitmask_binary(), "0b00001000");

    assert!(!p.handle_key('x'));
    assert_eq!(p.dipswitch.get_bitmask(), 0x08);

    assert!(!p.handle_key('r'));
    assert_eq!(p.dipswitch.get_bitmask(), 0);

    assert!(p.handle_key('q'));
    assert!(p.handle_key('Q'));
    // Quit leaves the panel untouched.
    assert_eq!(p.dipswitch.get_bitmask(), 0);
}

#[test]
fn test_panel_keys_build_full_video_mask() {
    let mut p = SwitchPanel::new();
    for c in ['4', '5', '6', '7', '8'] {
        assert!(!p.handle_key(c));
    }
    assert_eq!(p.dipswitch.get_bitmask(), 0xF8);
    assert_eq!(p.dipswitch.get_bitmask_hex(), "0xF8");
}

#[test]
fn test_animation_targets_track_switches() {
    let mut p = SwitchPanel::new();
    let keys = ['1', '3', '3', '8', 'r', '2', '5'];
    for c in keys {
        p.handle_key(c);
        for i in 0..8 {
            assert_eq!(p.animations[i].target_state, p.dipswitch.get(i));
        }
    }
}
