use spectro::{next_step, next_theme, ActiveDevice, Options, StreamFault, ThemeChoice, TickOutcome, TrayMessage};

#[test]
fn device_from_string() {
    assert!(matches!(ActiveDevice::from_string(String::from("Default")), ActiveDevice::Default));
    match ActiveDevice::from_string(String::from("Speakers")) {
        ActiveDevice::Named(n) => assert_eq!(n, "Speakers"),
        ActiveDevice::Default => panic!("named device read as default"),
    }
    assert!(matches!(ActiveDevice::from_string(String::from("default")), ActiveDevice::Named(_)));
}

#[test]
fn default_options() {
    let o = Options::default();
    assert!(o.caps_active);
    assert_eq!(o.theme, ThemeChoice::Classic);
    assert!(matches!(o.device, ActiveDevice::Default));
}

#[test]
fn themes_cycle() {
    assert_eq!(next_theme(&ThemeChoice::Classic), ThemeChoice::Grape);
    assert_eq!(next_theme(&ThemeChoice::Rainbow), ThemeChoice::Fire);
    assert_eq!(next_theme(&ThemeChoice::Fire), ThemeChoice::Classic);
    let mut t = ThemeChoice::Copper;
    for _ in 0..7 {
        t = next_theme(&t);
    }
    assert_eq!(t, ThemeChoice::Copper);
}

#[test]
fn render_loop_decisions() {
    assert_eq!(next_step(None, None, true), TickOutcome::Continue);
    assert_eq!(next_step(None, None, false), TickOutcome::Exit);
    assert_eq!(
        next_step(Some(StreamFault::DeviceNotAvailable), Some(TrayMessage::Quit), true),
        TickOutcome::RestartWithDefaultDevice
    );
    assert_eq!(next_step(Some(StreamFault::BackendSpecific), None, true), TickOutcome::Exit);
    assert_eq!(next_step(None, Some(TrayMessage::Refresh), false), TickOutcome::Restart);
    assert_eq!(next_step(None, Some(TrayMessage::Quit), true), TickOutcome::Exit);
    assert_eq!(next_step(None, Some(TrayMessage::ThemeReload), true), TickOutcome::ReloadTheme);
    assert_eq!(next_step(None, Some(TrayMessage::ThemeReload), false), TickOutcome::Exit);
}
