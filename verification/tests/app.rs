//! Decoding of raw event, key and mouse codes.

use rokol::app::{EventType, Key, Mouse};

#[test]
fn event_type_codes() {
    assert_eq!(EventType::from_u32(0), Some(EventType::InvalidEvent));
    assert_eq!(EventType::from_u32(1), Some(EventType::KeyDown));
    assert_eq!(EventType::from_u32(2), Some(EventType::KeyUp));
    assert_eq!(EventType::from_u32(3), Some(EventType::Char));
    assert_eq!(EventType::from_u32(14), Some(EventType::Resized));
    assert_eq!(EventType::from_u32(20), Some(EventType::QuitRequested));
    assert_eq!(EventType::from_u32(22), Some(EventType::FilesDropped));
    assert_eq!(EventType::from_u32(23), None);
    assert_eq!(EventType::from_u32(u32::MAX), None);
}

#[test]
fn key_codes() {
    assert_eq!(Key::from_u32(0), Some(Key::InvalidKey));
    assert_eq!(Key::from_u32(32), Some(Key::Space));
    assert_eq!(Key::from_u32(48), Some(Key::Kbd0));
    assert_eq!(Key::from_u32(57), Some(Key::Kbd9));
    assert_eq!(Key::from_u32(65), Some(Key::A));
    assert_eq!(Key::from_u32(90), Some(Key::Z));
    assert_eq!(Key::from_u32(256), Some(Key::Escape));
    assert_eq!(Key::from_u32(257), Some(Key::Enter));
    assert_eq!(Key::from_u32(290), Some(Key::F1));
    assert_eq!(Key::from_u32(314), Some(Key::F25));
    assert_eq!(Key::from_u32(320), Some(Key::KP0));
    assert_eq!(Key::from_u32(348), Some(Key::Menu));
    assert_eq!(Key::from_u32(31), None);
    assert_eq!(Key::from_u32(349), None);
    assert_eq!(Key::from_u32(u32::MAX), None);
}

#[test]
fn mouse_codes() {
    assert_eq!(Mouse::from_u32(0), Some(Mouse::Left));
    assert_eq!(Mouse::from_u32(1), Some(Mouse::Right));
    assert_eq!(Mouse::from_u32(2), Some(Mouse::Middle));
    assert_eq!(Mouse::from_u32(256), Some(Mouse::Invalid));
    assert_eq!(Mouse::from_u32(3), None);
}
