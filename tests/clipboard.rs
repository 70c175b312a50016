use mac_platform::clipboard::{text_hash, ClipboardItem, PasteboardSlots};
use mac_platform::hash::{hash_from_be_bytes, hash_to_be_bytes, stable_hash_bytes};

#[test]
fn test_clipboard() {
    let mut platform = PasteboardSlots::new();
    assert_eq!(platform.read_from_clipboard(), None);

    let item = ClipboardItem::new("1".to_string());
    platform.write_to_clipboard(&item);
    assert_eq!(platform.read_from_clipboard(), Some(item));

    let item = ClipboardItem::new("2".to_string()).with_metadata("[3,4]".to_string());
    platform.write_to_clipboard(&item);
    assert_eq!(platform.read_from_clipboard(), Some(item));

    let text_from_other_app = "text from other app";
    platform.text = Some(text_from_other_app.as_bytes().to_vec());
    assert_eq!(
        platform.read_from_clipboard(),
        Some(ClipboardItem::new(text_from_other_app.to_string()))
    );
}

#[test]
fn write_without_metadata_clears_hash_and_metadata_slots() {
    let mut slots = PasteboardSlots::new();
    let with_meta = ClipboardItem::new("a".to_string()).with_metadata("m".to_string());
    slots.write_to_clipboard(&with_meta);
    assert!(slots.text_hash.is_some());
    assert_eq!(slots.metadata, Some(b"m".to_vec()));
    slots.write_to_clipboard(&ClipboardItem::new("b".to_string()));
    assert_eq!(slots.text, Some(b"b".to_vec()));
    assert_eq!(slots.text_hash, None);
    assert_eq!(slots.metadata, None);
}

#[test]
fn hash_slot_is_big_endian_fnv1a() {
    let mut slots = PasteboardSlots::new();
    slots.write_to_clipboard(&ClipboardItem::new("a".to_string()).with_metadata("x".to_string()));
    assert_eq!(
        slots.text_hash,
        Some(vec![0xaf, 0x63, 0xdc, 0x4c, 0x86, 0x01, 0xec, 0x8c])
    );
}

#[test]
fn round_trip_of_unicode_text_and_metadata() {
    let mut slots = PasteboardSlots::new();
    let item = ClipboardItem::new("héllo ✓".to_string()).with_metadata("{\"k\":1}".to_string());
    slots.write_to_clipboard(&item);
    assert_eq!(slots.read_from_clipboard(), Some(item));
}

#[test]
fn overwritten_text_loses_metadata() {
    let mut slots = PasteboardSlots::new();
    slots.write_to_clipboard(&ClipboardItem::new("T".to_string()).with_metadata("M".to_string()));
    slots.text = Some(b"T2".to_vec());
    let read = slots.read_from_clipboard().unwrap();
    assert_eq!(read.text, "T2");
    assert_eq!(read.metadata, None);
}

#[test]
fn empty_clipboard_reads_nothing_even_with_private_slots() {
    let slots = PasteboardSlots {
        text: None,
        text_hash: Some(vec![0; 8]),
        metadata: Some(b"m".to_vec()),
    };
    assert_eq!(slots.read_from_clipboard(), None);
}

#[test]
fn invalid_text_bytes_decode_lossily() {
    let slots = PasteboardSlots { text: Some(vec![0x66, 0xff]), text_hash: None, metadata: None };
    let read = slots.read_from_clipboard().unwrap();
    assert_eq!(read.text, "f\u{FFFD}");
    assert_eq!(read.metadata, None);
}

#[test]
fn hash_of_wrong_width_is_ignored() {
    let mut slots = PasteboardSlots::new();
    slots.write_to_clipboard(&ClipboardItem::new("a".to_string()).with_metadata("m".to_string()));
    slots.text_hash = Some(vec![1, 2, 3]);
    assert_eq!(slots.read_from_clipboard().unwrap().metadata, None);
}

#[test]
fn invalid_metadata_bytes_are_dropped() {
    let mut slots = PasteboardSlots::new();
    slots.write_to_clipboard(&ClipboardItem::new("a".to_string()).with_metadata("m".to_string()));
    slots.metadata = Some(vec![0xff]);
    assert_eq!(slots.read_from_clipboard().unwrap().metadata, None);
}

#[test]
fn fnv1a_known_values() {
    assert_eq!(stable_hash_bytes(b""), 0xcbf29ce484222325);
    assert_eq!(stable_hash_bytes(b"a"), 0xaf63dc4c8601ec8c);
    assert_eq!(stable_hash_bytes(b"foobar"), 0x85944171f73967e8);
    assert_eq!(text_hash("a"), 0xaf63dc4c8601ec8c);
}

#[test]
fn be_bytes_round_trip() {
    let h: u64 = 0x0102030405060708;
    let b = hash_to_be_bytes(h);
    assert_eq!(b, vec![1, 2, 3, 4, 5, 6, 7, 8]);
    assert_eq!(hash_from_be_bytes(&b), Some(h));
    assert_eq!(hash_from_be_bytes(&b[..7]), None);
}
