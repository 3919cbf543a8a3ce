use pico_12vrgb_ctrl::animation::{Animation, SetAnimationMode};
use pico_12vrgb_ctrl::commands::{
    lamp_id_parser, BreatheArgs, CommandError, FadeArgs, ResetArgs, SetControlArgs, SharedArgs,
    Time, UpdateArgs, UpdateRangeArgs,
};
use pico_12vrgb_ctrl::report::Report;

fn color(s: &str) -> csscolorparser::Color {
    csscolorparser::parse(s).unwrap()
}

#[test]
fn set_control_without_choice_sends_nothing() {
    let args = SetControlArgs { autonomous: None };
    assert!(args.to_report().is_none());
}

#[test]
fn set_control_carries_the_choice() {
    let args = SetControlArgs { autonomous: Some(true) };
    match args.to_report() {
        Some(Report::LampArrayControl(c)) => assert!(c.autonomous),
        _ => panic!("expected a lamp-array control report"),
    }
}

#[test]
fn update_rejects_mismatched_counts() {
    let args = UpdateArgs { lamp_ids: vec![0, 1], colors: vec![color("#FF0000")] };
    match args.to_report() {
        Err(CommandError::ArgumentConflict(m)) => {
            assert_eq!(m, "The number of colors must match the number of lamps");
        }
        _ => panic!("expected an argument conflict"),
    }
}

#[test]
fn update_rejects_more_than_four_lamps() {
    let args = UpdateArgs {
        lamp_ids: vec![0, 1, 2, 3, 0],
        colors: vec![
            color("#FF0000"),
            color("#00FF00"),
            color("#0000FF"),
            color("#FFFFFF"),
            color("#000000"),
        ],
    };
    match args.to_report() {
        Err(CommandError::TooManyValues(m)) => {
            assert_eq!(m, "The number of lamps must be at most 4");
        }
        _ => panic!("expected a too-many-values rejection"),
    }
}

#[test]
fn update_fills_leading_slots_and_zeroes_the_rest() {
    let args = UpdateArgs {
        lamp_ids: vec![3, 1],
        colors: vec![color("#FF0000"), color("#0000FF")],
    };
    match args.to_report() {
        Ok(Report::LampArrayMultiUpdate(m)) => {
            assert_eq!(m.count, 2);
            assert!(m.flags.update_complete);
            assert_eq!(m.lamp_ids, [3, 1, 0, 0]);
            assert_eq!((m.colors[0].r, m.colors[0].g, m.colors[0].b, m.colors[0].i), (255, 0, 0, 1));
            assert_eq!((m.colors[1].r, m.colors[1].g, m.colors[1].b, m.colors[1].i), (0, 0, 255, 1));
            for unused in &m.colors[2..] {
                assert_eq!((unused.r, unused.g, unused.b, unused.i), (0, 0, 0, 0));
            }
        }
        _ => panic!("expected a multi-update report"),
    }
}

#[test]
fn range_update_defaults_to_whole_array_off() {
    let args = UpdateRangeArgs { lamp_id_start: None, lamp_id_end: None, color: None };
    match args.to_report() {
        Report::LampArrayRangeUpdate(u) => {
            assert!(u.flags.update_complete);
            assert_eq!(u.lamp_id_start, 0);
            assert_eq!(u.lamp_id_end, 3);
            assert_eq!((u.color.r, u.color.g, u.color.b, u.color.i), (0, 0, 0, 0));
        }
        _ => panic!("expected a range-update report"),
    }
}

#[test]
fn range_update_keeps_given_bounds_and_color() {
    let args = UpdateRangeArgs {
        lamp_id_start: Some(1),
        lamp_id_end: Some(2),
        color: Some(color("#00FF00")),
    };
    match args.to_report() {
        Report::LampArrayRangeUpdate(u) => {
            assert_eq!(u.lamp_id_start, 1);
            assert_eq!(u.lamp_id_end, 2);
            assert_eq!((u.color.r, u.color.g, u.color.b, u.color.i), (0, 255, 0, 1));
        }
        _ => panic!("expected a range-update report"),
    }
}

#[test]
fn breathe_defaults_off_color_to_on_color() {
    let args = BreatheArgs {
        shared: SharedArgs { lamp_id: 0, default: false },
        on_color: color("#FF0000"),
        off_color: None,
        on_fade_time: Some(Time(1000)),
        on_time: None,
        off_fade_time: None,
        off_time: None,
    };
    match args.to_report() {
        Report::SetAnimation(SetAnimationMode::Current, s) => {
            assert_eq!(s.lamp_id, 0);
            match s.animation {
                Animation::Breathe(b) => {
                    assert_eq!((b.on_color.r, b.on_color.g, b.on_color.b), (255, 0, 0));
                    assert_eq!(b.off_color, b.on_color);
                    assert_eq!(b.on_fade_time_ms, 1000);
                    assert_eq!(b.on_time_ms, 500);
                    assert_eq!(b.off_fade_time_ms, 1000);
                    assert_eq!(b.off_time_ms, 1000);
                }
                _ => panic!("expected a breathe animation"),
            }
        }
        _ => panic!("expected an immediate set-animation report"),
    }
}

#[test]
fn breathe_encodes_linearized_red_and_time() {
    let args = BreatheArgs {
        shared: SharedArgs { lamp_id: 0, default: false },
        on_color: color("#FF0000"),
        off_color: None,
        on_fade_time: Some(Time(1000)),
        on_time: None,
        off_fade_time: None,
        off_time: None,
    };
    match args.to_report() {
        Report::SetAnimation(_, s) => {
            assert_eq!(s.animation.type_byte(), 0x01);
            let d = s.animation.data();
            assert_eq!(d.len(), 60);
            assert_eq!(&d[0..3], &[255, 0, 0]);
            assert_eq!(&d[3..6], &[255, 0, 0]);
            assert_eq!(&d[6..8], &[0xE8, 0x03]);
        }
        _ => panic!("expected a set-animation report"),
    }
}

#[test]
fn default_flag_selects_the_saved_mode() {
    let shared = SharedArgs { lamp_id: 2, default: true };
    assert!(matches!(shared.mode(), SetAnimationMode::Default));
    let shared = SharedArgs { lamp_id: 2, default: false };
    assert!(matches!(shared.mode(), SetAnimationMode::Current));
}

#[test]
fn fade_rejects_nine_colors() {
    let args = FadeArgs {
        shared: SharedArgs { lamp_id: 0, default: false },
        colors: (0..9).map(|_| color("#FF0000")).collect(),
        fade_time: None,
        hold_time: None,
    };
    match args.to_report() {
        Err(CommandError::TooManyValues(m)) => {
            assert_eq!(m, "The animation can use at most 8 colors");
        }
        _ => panic!("expected a too-many-values rejection"),
    }
}

#[test]
fn fade_takes_documented_defaults() {
    let args = FadeArgs {
        shared: SharedArgs { lamp_id: 1, default: true },
        colors: vec![color("#FF0000"), color("#0000FF")],
        fade_time: None,
        hold_time: None,
    };
    match args.to_report() {
        Ok(Report::SetAnimation(SetAnimationMode::Default, s)) => {
            assert_eq!(s.lamp_id, 1);
            match s.animation {
                Animation::Fade(f) => {
                    assert_eq!(f.color_count, 2);
                    assert_eq!(f.fade_time_ms, 2000);
                    assert_eq!(f.hold_time_ms, 1000);
                    for unused in &f.colors[2..] {
                        assert_eq!((unused.r, unused.g, unused.b), (0, 0, 0));
                    }
                }
                _ => panic!("expected a fade animation"),
            }
        }
        _ => panic!("expected a saved set-animation report"),
    }
}

#[test]
fn reset_args_carry_both_flags() {
    let args = ResetArgs { bootsel: true, clear_flash: false };
    match args.to_report() {
        Report::Reset(f) => {
            assert!(f.bootsel);
            assert!(!f.clear_flash);
        }
        _ => panic!("expected a reset report"),
    }
}

#[test]
fn lamp_numbers_are_one_indexed() {
    assert_eq!(lamp_id_parser("1"), Ok(0));
    assert_eq!(lamp_id_parser("4"), Ok(3));
    assert_eq!(lamp_id_parser("+2"), Ok(1));
    assert_eq!(lamp_id_parser("004"), Ok(3));
}

#[test]
fn lamp_numbers_outside_the_array_are_rejected() {
    assert_eq!(lamp_id_parser("0"), Err("lamp number must be in range 1-4".to_owned()));
    assert_eq!(lamp_id_parser("5"), Err("lamp number must be in range 1-4".to_owned()));
    assert_eq!(lamp_id_parser("10"), Err("lamp number must be in range 1-4".to_owned()));
}

#[test]
fn lamp_numbers_must_be_numbers() {
    assert_eq!(lamp_id_parser(""), Err("invalid lamp number".to_owned()));
    assert_eq!(lamp_id_parser("+"), Err("invalid lamp number".to_owned()));
    assert_eq!(lamp_id_parser("abc"), Err("invalid lamp number".to_owned()));
    assert_eq!(lamp_id_parser("2x"), Err("invalid lamp number".to_owned()));
    assert_eq!(lamp_id_parser("-1"), Err("invalid lamp number".to_owned()));
}
