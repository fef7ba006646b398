use modlist_manager::merge::{
    accepts_merge_protocol, apply_conflict_resolutions, find_bytes, replace_bytes, resolve_conflicts,
    resolve_one_conflict, resolve_script_file, Conflict, SocketMessage,
};

fn conflict(before: &str, ours: &str, original: &str, theirs: &str, after: &str, size: usize) -> Conflict {
    Conflict {
        ours: ours.to_string(),
        original: original.to_string(),
        theirs: theirs.to_string(),
        context_before: before.to_string(),
        context_after: after.to_string(),
        context_original_size: size,
    }
}

fn message(conflicts: Vec<Conflict>) -> SocketMessage {
    SocketMessage {
        conflicts,
        file_name: "actor.ws".to_string(),
        file_path: "actor.ws".to_string(),
        mod_name: "modA".to_string(),
    }
}

const MERGED: &str = "head\nctx\n<<<<<<< ours\nA\n||||||| original\nO\n=======\nB\n>>>>>>> theirs\nctx\ntail";

#[test]
fn find_bytes_returns_the_first_occurrence() {
    let s = b"abcabc".to_vec();
    assert_eq!(find_bytes(&s, &b"bc".to_vec()), Some(1));
    assert_eq!(find_bytes(&s, &b"cb".to_vec()), None);
    assert_eq!(find_bytes(&s, &b"abcabcd".to_vec()), None);
    assert_eq!(find_bytes(&s, &Vec::new()), Some(0));
}

#[test]
fn replace_bytes_replaces_a_range() {
    let r = replace_bytes(b"hello world".to_vec(), 6, 11, b"there").unwrap();
    assert_eq!(r, b"hello there".to_vec());
    assert_eq!(replace_bytes(b"abc".to_vec(), 0, 0, b"x").unwrap(), b"xabc".to_vec());
    assert_eq!(replace_bytes(b"abc".to_vec(), 3, 3, b"x").unwrap(), b"abcx".to_vec());
}

#[test]
fn replace_bytes_refuses_bad_ranges() {
    assert!(replace_bytes(b"abc".to_vec(), 2, 1, b"x").is_none());
    assert!(replace_bytes(b"abc".to_vec(), 1, 4, b"x").is_none());
    // the middle of a two-byte character is not a character boundary
    assert!(replace_bytes("é".as_bytes().to_vec(), 1, 2, b"x").is_none());
}

#[test]
fn one_conflict_is_resolved() {
    let c = conflict("CTX\n", "A2\n", "", "B2\n", "\nCTX", 4);
    let r = resolve_one_conflict(MERGED.as_bytes().to_vec(), &c).unwrap();
    assert_eq!(String::from_utf8(r).unwrap(), "head\nCTX\nA2\nB2\n\nCTX\ntail");
}

#[test]
fn conflicts_are_resolved_in_turn() {
    let text = format!("{}\n{}", MERGED, MERGED);
    let m = message(vec![
        conflict("", "first\n", "", "", "", 0),
        conflict("", "", "", "second\n", "", 0),
    ]);
    let r = resolve_conflicts(text.as_bytes().to_vec(), &m).unwrap();
    assert_eq!(
        String::from_utf8(r).unwrap(),
        "head\nctx\nfirst\n\nctx\ntail\nhead\nctx\nsecond\n\nctx\ntail"
    );
}

#[test]
fn missing_marker_makes_resolution_fail() {
    let m = message(vec![conflict("", "", "", "", "", 0)]);
    assert!(resolve_conflicts(b"no conflict here".to_vec(), &m).is_none());
}

#[test]
fn context_larger_than_what_precedes_fails() {
    let m = message(vec![conflict("", "", "", "", "", 100)]);
    assert!(resolve_conflicts(MERGED.as_bytes().to_vec(), &m).is_none());
}

#[test]
fn no_conflicts_leave_the_file_unchanged() {
    let m = message(Vec::new());
    assert_eq!(resolve_conflicts(b"any text".to_vec(), &m).unwrap(), b"any text".to_vec());
    assert_eq!(apply_conflict_resolutions(b"any text".to_vec(), &m), b"any text".to_vec());
}

#[test]
fn apply_conflict_resolutions_gives_the_resolved_text() {
    let m = message(vec![conflict("", "A\n", "", "B\n", "", 0)]);
    let r = apply_conflict_resolutions(MERGED.as_bytes().to_vec(), &m);
    assert_eq!(String::from_utf8(r).unwrap(), "head\nctx\nA\nB\n\nctx\ntail");
}

#[test]
fn script_file_without_bom_is_resolved_as_is() {
    let m = message(vec![conflict("", "A\n", "", "B\n", "", 0)]);
    let r = resolve_script_file(MERGED.as_bytes(), &m).unwrap();
    assert_eq!(String::from_utf8(r).unwrap(), "head\nctx\nA\nB\n\nctx\ntail");
}

#[test]
fn script_file_with_utf8_bom_is_decoded_first() {
    let mut raw = vec![0xEF, 0xBB, 0xBF];
    raw.extend_from_slice(b"plain");
    let r = resolve_script_file(&raw, &message(Vec::new())).unwrap();
    assert_eq!(r, b"plain".to_vec());
}

#[test]
fn script_file_in_utf16_is_decoded_first() {
    let mut raw = vec![0xFF, 0xFE];
    for b in "hé".encode_utf16() {
        raw.extend_from_slice(&b.to_le_bytes());
    }
    let r = resolve_script_file(&raw, &message(Vec::new())).unwrap();
    assert_eq!(String::from_utf8(r).unwrap(), "hé");
}

#[test]
fn script_file_that_is_not_text_fails() {
    assert!(resolve_script_file(&[0x66, 0x80, 0x66], &message(Vec::new())).is_none());
}

#[test]
fn merge_protocol_is_recognised() {
    assert!(accepts_merge_protocol(&vec!["chat".to_string(), "rust-websocket".to_string()]));
    assert!(!accepts_merge_protocol(&vec!["chat".to_string()]));
    assert!(!accepts_merge_protocol(&Vec::new()));
}
