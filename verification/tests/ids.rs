use qor_com::hash::Fnv1a64ConstHasher;
use qor_com::id::{Id, Label, Tag};

#[test]
fn id_tests() {
    // direct value
    let id = Id::new(42);
    assert_eq!(id.index(), 42);

    // rendering
    assert_eq!(id.to_text(), "#042");

    // rendering of the invalid id
    assert_eq!(Id::invalid().to_text(), "#invalid");
}

#[test]
fn tag_tests() {
    // direct value
    assert_eq!(Tag::new(b"01234567").value(), 0x3736353433323130u64);

    // hash value
    let tag = Tag::from_str("/root/folder/file.txt");
    assert_eq!(tag.value(), 0xcbf7932f2aa742bc);

    // direct value into string
    assert_eq!(Tag::new(b"mem_heap").to_debug_text(), "#mem_heap 706165685f6d656d");

    // hash value into string
    assert_eq!(Tag::from_raw(0x71C0).to_debug_text(), "#00000000000071c0");

    // invalid value into string
    assert_eq!(Tag::invalid().to_debug_text(), "#invalid");
}

#[test]
fn label_tests() {
    // string
    let label = Label::new("/root/folder/file.txt");
    assert_eq!(
        label.value(),
        [0xeab92194, 0x6563bc3f, 0xee9cdbe3, 0x0fca5ca3, 0x3dde7899]
    );
}

#[test]
fn id_text_wide_index() {
    // an index wider than the padding is rendered in full
    assert_eq!(Id::new(1000).to_text(), "#1000");
    assert_eq!(Id::new(0).to_text(), "#000");
}

#[test]
fn tag_display_text() {
    assert_eq!(Tag::new(b"mem_heap").to_text(), "#mem_heap");
    assert_eq!(Tag::from_raw(0x71C0).to_text(), "#00000000000071c0");
    assert_eq!(Tag::invalid().to_text(), "#invalid");
}

#[test]
fn tag_validity() {
    assert!(Tag::new(b"01234567").is_valid());
    assert!(!Tag::invalid().is_valid());
    let mut tag = Tag::from_raw(7);
    assert!(tag.is_valid());
    tag.invalidate();
    assert!(!tag.is_valid());
}

#[test]
fn tag_append_folds_into_hash() {
    // appending always yields a hashed tag, and folding different
    // content yields different values
    let base = Tag::new(b"mem_heap");
    let a = base.append_str("left");
    let b = base.append_str("right");
    assert!(a.value() & 0x8000000000000000 != 0);
    assert_ne!(a.value(), b.value());
    let c = base.append_tag(Tag::new(b"01234567"));
    assert!(c.value() & 0x8000000000000000 != 0);
}

#[test]
fn fnv_hasher_known_value() {
    // the FNV-1a offset basis is the state of an unseeded hasher
    let empty = Fnv1a64ConstHasher::from_const(b"");
    assert_eq!(empty.finish(), 0xcbf29ce484222325);

    // one byte folded into the basis
    let one = Fnv1a64ConstHasher::from_const(b"a");
    assert_eq!(one.finish(), 0xaf63dc4c8601ec8c);
}

#[test]
fn label_validity_and_text() {
    let label = Label::new("/root/folder/file.txt");
    assert!(label.is_valid());
    assert_eq!(label.to_text(), "#eab921946563bc3fee9cdbe30fca5ca33dde7899");
    assert_eq!(Label::invalid().to_text(), "#invalid");
    let mut label = label;
    label.invalidate();
    assert!(!label.is_valid());
}

#[test]
fn label_append_chains_hashes() {
    let a = Label::new("base").append_str("x");
    let b = Label::new("base").append_str("y");
    assert_ne!(a.value(), b.value());
}

#[test]
fn empty_name_hashes() {
    // SHA-1 of the empty message
    assert_eq!(
        Label::new("").value(),
        [0xda39a3ee, 0x5e6b4b0d, 0x3255bfef, 0x95601890, 0xafd80709]
    );
    // FNV-1a of the empty name is the offset basis, marked hashed
    assert_eq!(Tag::from_str("").value(), 0xcbf29ce484222325 | 0x8000000000000000);
}

#[test]
fn long_name_hashes_across_chunks() {
    // a 128-byte name exercises the block iteration of the hash
    let mut long = String::new();
    for _ in 0..8 {
        long.push_str("0123456789abcdef");
    }
    let label = Label::new(&long);
    assert_eq!(
        label.value(),
        [0x7539151d, 0x4f12a92e, 0x310f26c8, 0x47cd8127, 0x9b451729]
    );
}
