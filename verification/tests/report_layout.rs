use pico_12vrgb_ctrl::animation::{Animation, SetAnimationMode, SetAnimationReport};
use pico_12vrgb_ctrl::color::HIDLampValue;
use pico_12vrgb_ctrl::report::{
    Interface, LampArrayControlReport, LampArrayMultiUpdateReport, LampArrayRangeUpdateReport,
    LampArrayUpdateFlags, Report, ReportKind, ResetFlags,
};

#[test]
fn reset_flags_pack_lsb_first() {
    let byte = |bootsel, clear_flash| ResetFlags { bootsel, clear_flash }.flags();
    assert_eq!(byte(false, false), 0x00);
    assert_eq!(byte(true, false), 0x01);
    assert_eq!(byte(false, true), 0x02);
    assert_eq!(byte(true, true), 0x03);
}

#[test]
fn update_flags_pack_lsb_first() {
    assert_eq!(LampArrayUpdateFlags { update_complete: false }.value(), 0x0000);
    assert_eq!(LampArrayUpdateFlags { update_complete: true }.value(), 0x0001);
}

fn sample_multi_update() -> Report {
    Report::LampArrayMultiUpdate(LampArrayMultiUpdateReport {
        flags: LampArrayUpdateFlags { update_complete: true },
        count: 2,
        lamp_ids: [0, 3, 0, 0],
        colors: [
            HIDLampValue::from_rgba8(10, 20, 30, 255),
            HIDLampValue::from_rgba8(40, 50, 60, 255),
            HIDLampValue::zero(),
            HIDLampValue::zero(),
        ],
    })
}

#[test]
fn report_identifiers_match_the_catalog() {
    assert_eq!(sample_multi_update().id(), 0x04);
    let range = Report::LampArrayRangeUpdate(LampArrayRangeUpdateReport {
        flags: LampArrayUpdateFlags { update_complete: true },
        lamp_id_start: 0,
        lamp_id_end: 3,
        color: HIDLampValue::zero(),
    });
    assert_eq!(range.id(), 0x05);
    let control = Report::LampArrayControl(LampArrayControlReport { autonomous: true });
    assert_eq!(control.id(), 0x06);
    let reset = Report::Reset(ResetFlags { bootsel: false, clear_flash: false });
    assert_eq!(reset.id(), 0x30);
    let anim = Report::SetAnimation(
        SetAnimationMode::Current,
        SetAnimationReport { lamp_id: 0, animation: Animation::Off },
    );
    assert_eq!(anim.id(), 0x31);
}

#[test]
fn reports_route_to_their_interfaces() {
    assert_eq!(sample_multi_update().interface(), Interface::LampArray);
    let control = Report::LampArrayControl(LampArrayControlReport { autonomous: false });
    assert_eq!(control.interface(), Interface::LampArray);
    let reset = Report::Reset(ResetFlags { bootsel: true, clear_flash: false });
    assert_eq!(reset.interface(), Interface::Vendor);
    let anim = Report::SetAnimation(
        SetAnimationMode::Default,
        SetAnimationReport { lamp_id: 1, animation: Animation::Off },
    );
    assert_eq!(anim.interface(), Interface::Vendor);
}

#[test]
fn transmission_kind_follows_the_protocol() {
    assert_eq!(sample_multi_update().kind(), ReportKind::Output);
    let range = Report::LampArrayRangeUpdate(LampArrayRangeUpdateReport {
        flags: LampArrayUpdateFlags { update_complete: true },
        lamp_id_start: 0,
        lamp_id_end: 3,
        color: HIDLampValue::zero(),
    });
    assert_eq!(range.kind(), ReportKind::Output);
    let control = Report::LampArrayControl(LampArrayControlReport { autonomous: true });
    assert_eq!(control.kind(), ReportKind::Feature);
    let reset = Report::Reset(ResetFlags { bootsel: false, clear_flash: true });
    assert_eq!(reset.kind(), ReportKind::Feature);
    let saved = Report::SetAnimation(
        SetAnimationMode::Default,
        SetAnimationReport { lamp_id: 0, animation: Animation::Off },
    );
    assert_eq!(saved.kind(), ReportKind::Feature);
    let immediate = Report::SetAnimation(
        SetAnimationMode::Current,
        SetAnimationReport { lamp_id: 0, animation: Animation::Off },
    );
    assert_eq!(immediate.kind(), ReportKind::Output);
}

#[test]
fn multi_update_body_layout() {
    let body = sample_multi_update().body();
    assert_eq!(body.len(), 23);
    assert_eq!(body[0], 2);
    assert_eq!(&body[1..3], &[0x01, 0x00]);
    assert_eq!(&body[3..7], &[0, 3, 0, 0]);
    assert_eq!(&body[7..11], &[10, 20, 30, 1]);
    assert_eq!(&body[11..15], &[40, 50, 60, 1]);
    assert_eq!(&body[15..23], &[0u8; 8][..]);
}

#[test]
fn range_update_body_layout() {
    let range = Report::LampArrayRangeUpdate(LampArrayRangeUpdateReport {
        flags: LampArrayUpdateFlags { update_complete: true },
        lamp_id_start: 1,
        lamp_id_end: 2,
        color: HIDLampValue::from_rgba8(7, 8, 9, 0),
    });
    let body = range.body();
    assert_eq!(body, vec![0x01, 0x00, 1, 2, 7, 8, 9, 1]);
}

#[test]
fn control_body_is_one_byte() {
    let on = Report::LampArrayControl(LampArrayControlReport { autonomous: true });
    assert_eq!(on.body(), vec![1]);
    let off = Report::LampArrayControl(LampArrayControlReport { autonomous: false });
    assert_eq!(off.body(), vec![0]);
}

#[test]
fn reset_body_is_the_flags_byte() {
    let r = Report::Reset(ResetFlags { bootsel: true, clear_flash: true });
    assert_eq!(r.body(), vec![0x03]);
}

#[test]
fn set_animation_body_layout() {
    let r = Report::SetAnimation(
        SetAnimationMode::Current,
        SetAnimationReport { lamp_id: 2, animation: Animation::Off },
    );
    let body = r.body();
    assert_eq!(body.len(), 62);
    assert_eq!(body[0], 2);
    assert_eq!(body[1], 0x00);
    assert_eq!(&body[2..], &[0u8; 60][..]);
}
