use rbmk_1000_sim::operator::OperatorFlags;
use rbmk_1000_sim::renderer::InputEvent;

#[test]
fn operator_switches() {
    let f = OperatorFlags::new();
    assert_eq!(
        f,
        OperatorFlags { is_paused: false, is_scrammed: false, auto_control: true, show_legend: false }
    );
    let paused = f.after_command(InputEvent::Pause);
    assert!(paused.is_paused);
    assert_eq!(paused.after_command(InputEvent::Pause), f);

    let scrammed = f.after_command(InputEvent::Scram);
    assert!(scrammed.is_scrammed && !scrammed.auto_control);
    assert!(scrammed.after_command(InputEvent::RodsDown).is_scrammed);
    assert!(!scrammed.after_command(InputEvent::RodsUp).is_scrammed);

    let auto_again = scrammed.after_command(InputEvent::ToggleAutoControl);
    assert!(auto_again.auto_control && !auto_again.is_scrammed);
    let manual = f.after_command(InputEvent::ToggleAutoControl);
    assert!(!manual.auto_control);
    let manual_scram = manual.after_command(InputEvent::Scram).after_command(InputEvent::ToggleLegend);
    assert!(manual_scram.is_scrammed && manual_scram.show_legend);

    assert_eq!(manual_scram.after_command(InputEvent::Reset), f);
    assert_eq!(manual_scram.after_command(InputEvent::SpeedUp), manual_scram);
    assert_eq!(manual_scram.after_command(InputEvent::Quit), manual_scram);
}

#[test]
fn scenario_switches() {
    let f = OperatorFlags::new().after_command(InputEvent::Scram);
    let targeted = f.after_rod_targets();
    assert!(!targeted.is_scrammed && !targeted.auto_control);
    let auto = targeted.with_auto_control(true);
    assert!(auto.auto_control && !auto.is_scrammed);
    assert!(f.with_auto_control(true).is_scrammed);
    let paused = auto.with_paused(true);
    assert!(paused.is_paused);
    assert_eq!(paused.with_paused(false), auto);
}
