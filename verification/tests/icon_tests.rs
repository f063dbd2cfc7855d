use rms_recorder::audio::capture::{capture_event_message, WasapiCaptureEvent};
use rms_recorder::icon::{largest_icon_index, load_window_icon, size_decodable};
use rms_recorder::messages::UiMessage;

fn ico_with_sizes(sizes: &[(u32, u32)]) -> Vec<u8> {
    let mut dir = ico::IconDir::new(ico::ResourceType::Icon);
    for &(w, h) in sizes {
        let rgba = vec![200u8; (w * h * 4) as usize];
        let image = ico::IconImage::from_rgba_data(w, h, rgba);
        dir.add_entry(ico::IconDirEntry::encode(&image).unwrap());
    }
    let mut bytes = Vec::new();
    dir.write(&mut bytes).unwrap();
    bytes
}

#[test]
fn largest_icon_index_prefers_the_last_of_equal_areas() {
    assert_eq!(largest_icon_index(&vec![]), None);
    assert_eq!(largest_icon_index(&vec![(16, 16)]), Some(0));
    assert_eq!(largest_icon_index(&vec![(16, 16), (48, 48), (32, 32)]), Some(1));
    assert_eq!(largest_icon_index(&vec![(32, 8), (16, 16), (8, 32)]), Some(2));
}

#[test]
fn window_icon_is_the_largest_image() {
    let bytes = ico_with_sizes(&[(16, 16), (32, 32), (24, 24)]);
    let icon = load_window_icon(&bytes).unwrap();
    assert_eq!(icon.width, 32);
    assert_eq!(icon.height, 32);
    assert_eq!(icon.rgba.len(), 32 * 32 * 4);
}

#[test]
fn window_icon_reports_unreadable_and_empty_files() {
    let err = load_window_icon(&[1, 2, 3]).err().unwrap();
    assert!(err.starts_with("Failed to read window icon: "));

    let empty = ico_with_sizes(&[]);
    let err = load_window_icon(&empty).err().unwrap();
    assert_eq!(err, "Window icon file does not contain any images");
}

#[test]
fn capture_events_become_session_messages() {
    let (message, cancel) = capture_event_message(WasapiCaptureEvent::SourceStarted {
        source_id: 2,
        label: "input: USB Microphone".to_string(),
    });
    assert!(!cancel);
    assert!(matches!(message, UiMessage::Log(ref t) if t == "Audio: source 2 started (input: USB Microphone)"));

    let (message, cancel) = capture_event_message(WasapiCaptureEvent::SourceFailed {
        source_id: 11,
        label: "output: Speakers".to_string(),
        error: "device lost".to_string(),
    });
    assert!(cancel);
    assert!(matches!(message, UiMessage::Error(ref t) if t == "Audio source 11 failed (output: Speakers): device lost"));
}

#[test]
fn oversized_icon_images_are_refused_before_decoding() {
    assert!(size_decodable((256, 256)));
    assert!(size_decodable((32768, 32767)));
    assert!(!size_decodable((65536, 1)));
    assert!(!size_decodable((65535, 65535)));

    // One BMP entry whose header claims 70000 x 2 pixels.
    let mut bytes: Vec<u8> = vec![0, 0, 1, 0, 1, 0];
    bytes.extend_from_slice(&[0, 0, 0, 0, 1, 0, 32, 0]);
    bytes.extend_from_slice(&40u32.to_le_bytes());
    bytes.extend_from_slice(&22u32.to_le_bytes());
    bytes.extend_from_slice(&40u32.to_le_bytes());
    bytes.extend_from_slice(&70000i32.to_le_bytes());
    bytes.extend_from_slice(&4i32.to_le_bytes());
    bytes.extend_from_slice(&[0u8; 28]);
    assert_eq!(load_window_icon(&bytes).err().unwrap(), "Window icon image is too large: 70000x2");
}
