use nest_sema::intrinsics::{lookup, Special};

fn special(tag: &str) -> Option<Option<Special>> {
    lookup(tag).map(|r| r.special)
}

#[test]
fn make_hands_out_something_mutable() {
    assert_eq!(special("make"), Some(Some(Special::MutableArg)));
}

#[test]
fn len_takes_a_sequence() {
    assert_eq!(special("len"), Some(Some(Special::SequenceArg)));
}

#[test]
fn every_other_intrinsic_is_plain() {
    let plain = [
        "cast", "transmute", "size_of", "align_of", "new", "drop", "index", "embed_file", "trap", "assert",
        "wrapping_add", "wrapping_sub", "type_info", "type_id", "member_ptr", "gc_collect", "gc_keep_alive",
        "gc_pin",
    ];
    for tag in plain {
        assert_eq!(special(tag), Some(None), "{tag}");
        assert_eq!(lookup(tag).unwrap().tag, tag);
    }
}

#[test]
fn an_unknown_tag_is_no_intrinsic() {
    assert!(lookup("panic").is_none());
    assert!(lookup("").is_none());
    assert!(lookup("cast ").is_none());
}
