//! What a host does with the machine: which key is which button, how long
//! to wait for the next frame, and which file of an archive is the image.
use vstd::prelude::*;
use crate::cartridge::{CartridgeError, CartridgeErrorKind};
use crate::io::Button;

verus! {

/// The keys that a host tells apart.
#[derive(Clone, Copy, PartialEq, Eq, Structural, Debug)]
pub enum HostKey {
    Z,
    X,
    Return,
    Tab,
    Left,
    Right,
    Up,
    Down,
    T,
    D,
    Escape,
    Other,
}

/// What the host does when a key goes down or up.
#[derive(Clone, Copy, PartialEq, Eq, Structural, Debug)]
pub enum HostAction {
    /// Stop the emulation.
    Quit,
    /// Hold a button of controller one down.
    Press(Button),
    /// Release a button of controller one.
    Release(Button),
    /// Print the cycle count and the checksum of the frame.
    Checksum,
    /// Dump video memory and sprite memory.
    DumpPpu,
    Nothing,
}

/// The button of controller one that a key stands for.
pub open spec fn spec_button_for_key(key: HostKey) -> Option<Button> {
    match key {
        HostKey::Z => Some(Button::A),
        HostKey::X => Some(Button::B),
        HostKey::Return => Some(Button::Start),
        HostKey::Tab => Some(Button::Select),
        HostKey::Left => Some(Button::Left),
        HostKey::Right => Some(Button::Right),
        HostKey::Up => Some(Button::Up),
        HostKey::Down => Some(Button::Down),
        _ => None,
    }
}

/// The button of controller one that a key stands for.
pub fn button_for_key(key: HostKey) -> (result: Option<Button>)
    ensures
        result == spec_button_for_key(key),
{
    match key {
        HostKey::Z => Some(Button::A),
        HostKey::X => Some(Button::B),
        HostKey::Return => Some(Button::Start),
        HostKey::Tab => Some(Button::Select),
        HostKey::Left => Some(Button::Left),
        HostKey::Right => Some(Button::Right),
        HostKey::Up => Some(Button::Up),
        HostKey::Down => Some(Button::Down),
        _ => None,
    }
}

/// What to do when `key` goes down, if `down`, or up. Escape quits; a key
/// of a button presses or releases it; on their way down T asks for the
/// checksum and D for the dump.
pub open spec fn spec_host_action(key: HostKey, down: bool) -> HostAction {
    match (spec_button_for_key(key), down) {
        (Some(button), true) => HostAction::Press(button),
        (Some(button), false) => HostAction::Release(button),
        (None, true) => match key {
            HostKey::Escape => HostAction::Quit,
            HostKey::T => HostAction::Checksum,
            HostKey::D => HostAction::DumpPpu,
            _ => HostAction::Nothing,
        },
        (None, false) => HostAction::Nothing,
    }
}

/// What to do when `key` goes down, if `down`, or up. Escape quits; a key
/// of a button presses or releases it; on their way down T asks for the
/// checksum and D for the dump.
pub fn host_action(key: HostKey, down: bool) -> (result: HostAction)
    ensures
        result == spec_host_action(key, down),
{
    match (button_for_key(key), down) {
        (Some(button), true) => HostAction::Press(button),
        (Some(button), false) => HostAction::Release(button),
        (None, true) => match key {
            HostKey::Escape => HostAction::Quit,
            HostKey::T => HostAction::Checksum,
            HostKey::D => HostAction::DumpPpu,
            _ => HostAction::Nothing,
        },
        (None, false) => HostAction::Nothing,
    }
}

/// How long to sleep before the next frame, where the last frame took
/// `elapsed` of the `frame` that a frame should take: what is left of it,
/// if anything is.
pub open spec fn spec_frame_sleep(elapsed: u64, frame: u64) -> Option<u64> {
    if elapsed < frame {
        Some((frame - elapsed) as u64)
    } else {
        None
    }
}

/// How long to sleep before the next frame, where the last frame took
/// `elapsed` of the `frame` that a frame should take: what is left of it,
/// if anything is.
pub fn frame_sleep(elapsed: u64, frame: u64) -> (result: Option<u64>)
    ensures
        result == spec_frame_sleep(elapsed, frame),
{
    if elapsed < frame {
        Some((frame - elapsed) as u64)
    } else {
        None
    }
}

/// The extension of a path as `std::path::Path::extension` gives it, where
/// it is valid Unicode.
pub uninterp spec fn path_extension(path: Seq<char>) -> Option<Seq<char>>;

/// Calls `Path::extension` on the path and turns the result into a
/// string. The result is the extension of the path, if it has one that is
/// valid Unicode: a function of the path alone, which the contract only names.
#[verifier::external_body]
fn extension_of(path: &str) -> (extension: Option<String>)
    ensures
        match extension {
            Some(text) => path_extension(path@) == Some(text@),
            None => path_extension(path@) is None,
        },
{
    std::path::Path::new(path).extension().and_then(|e| e.to_str()).map(|e| e.to_string())
}

/// Whether the path has the given extension.
pub open spec fn has_extension(path: Seq<char>, extension: Seq<char>) -> bool {
    path_extension(path) == Some(extension)
}

/// Whether an extension, as extracted from a path, is the wanted one.
pub fn extension_is(found: Option<String>, wanted: &str) -> (same: bool)
    ensures
        same == (found matches Some(text) && text@ == wanted@),
{
    match found {
        Some(text) => {
            let wanted_text = wanted.to_string();
            text == wanted_text
        },
        None => false,
    }
}

/// Whether the file at `path` is an archive: its extension is `zip`.
pub fn is_archive(path: &str) -> (archive: bool)
    ensures
        archive == has_extension(path@, "zip"@),
{
    extension_is(extension_of(path), "zip")
}

/// The first of the names with the extension `nes`, if there is one: the
/// file of an archive that is loaded as the image.
pub fn first_image(names: &Vec<String>) -> (found: Option<usize>)
    ensures
        match found {
            Some(index) => {
                &&& index < names@.len()
                &&& has_extension(names@[index as int]@, "nes"@)
                &&& forall|k: int| 0 <= k < index ==> !has_extension(names@[k]@, "nes"@)
            },
            None => forall|k: int| 0 <= k < names@.len() ==> !has_extension(names@[k]@, "nes"@),
        },
{
    let mut index: usize = 0;
    while index < names.len()
        invariant
            0 <= index <= names@.len(),
            forall|k: int| 0 <= k < index ==> !has_extension(names@[k]@, "nes"@),
        decreases names@.len() - index,
    {
        if extension_is(extension_of(names[index].as_str()), "nes") {
            return Some(index);
        }
        index += 1;
    }
    None
}

/// The error for an archive that holds no image.
pub fn missing_image() -> (error: CartridgeError)
    ensures
        error.kind == CartridgeErrorKind::CartridgeFormat,
        error.message@ == "The zip file must contain only one file with the .nes extension"@,
{
    CartridgeError {
        kind: CartridgeErrorKind::CartridgeFormat,
        message: "The zip file must contain only one file with the .nes extension".to_string(),
    }
}

} // verus!
