use rust_nes::frontend::{
    first_image, frame_sleep, host_action, is_archive, missing_image, HostAction, HostKey,
};
use rust_nes::cartridge::CartridgeErrorKind;
use rust_nes::io::Button;

#[test]
fn keys_map_to_the_buttons_of_controller_one() {
    assert_eq!(host_action(HostKey::Z, true), HostAction::Press(Button::A));
    assert_eq!(host_action(HostKey::X, true), HostAction::Press(Button::B));
    assert_eq!(host_action(HostKey::Return, true), HostAction::Press(Button::Start));
    assert_eq!(host_action(HostKey::Tab, true), HostAction::Press(Button::Select));
    assert_eq!(host_action(HostKey::Left, false), HostAction::Release(Button::Left));
    assert_eq!(host_action(HostKey::Right, false), HostAction::Release(Button::Right));
    assert_eq!(host_action(HostKey::Up, false), HostAction::Release(Button::Up));
    assert_eq!(host_action(HostKey::Down, true), HostAction::Press(Button::Down));
}

#[test]
fn other_keys_act_on_the_way_down_only() {
    assert_eq!(host_action(HostKey::Escape, true), HostAction::Quit);
    assert_eq!(host_action(HostKey::T, true), HostAction::Checksum);
    assert_eq!(host_action(HostKey::D, true), HostAction::DumpPpu);
    assert_eq!(host_action(HostKey::Other, true), HostAction::Nothing);
    assert_eq!(host_action(HostKey::Escape, false), HostAction::Nothing);
    assert_eq!(host_action(HostKey::T, false), HostAction::Nothing);
}

#[test]
fn the_host_sleeps_for_the_rest_of_the_frame() {
    assert_eq!(frame_sleep(5, 17), Some(12));
    assert_eq!(frame_sleep(17, 17), None);
    assert_eq!(frame_sleep(30, 17), None);
}

#[test]
fn archives_are_told_by_their_extension() {
    assert!(is_archive("games/title.zip"));
    assert!(!is_archive("games/title.nes"));
    assert!(!is_archive("zip"));
    assert!(!is_archive("title.ZIP"));
    assert!(!is_archive("title.zip.nes"));
}

#[test]
fn the_first_image_of_an_archive_is_chosen() {
    let names = vec![
        "readme.txt".to_string(),
        "b.nes".to_string(),
        "a.nes".to_string(),
    ];
    assert_eq!(first_image(&names), Some(1));
    assert_eq!(first_image(&vec!["readme.txt".to_string(), "nes".to_string()]), None);
    assert_eq!(first_image(&Vec::new()), None);
}

#[test]
fn an_archive_without_image_is_a_format_error() {
    let error = missing_image();
    assert_eq!(error.kind, CartridgeErrorKind::CartridgeFormat);
    assert_eq!(
        error.message,
        "The zip file must contain only one file with the .nes extension"
    );
}
