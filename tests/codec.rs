use naming_table::aast_defs::{KvcKind, Tprim, VcKind};
use naming_table::lazy::Lazy;
use naming_table::name_list::{deserialize_names, serialize_names};
use naming_table::path_codec::{
    mode_from_i64, mode_to_i64, prefix_from_i64, prefix_to_i64, CorruptRecordError, ModeKind,
    PrefixKind,
};

fn names(v: &[&str]) -> Vec<String> {
    v.iter().map(|s| s.to_string()).collect()
}

#[test]
fn prefix_codes_are_fixed() {
    assert_eq!(prefix_to_i64(PrefixKind::Root), 0);
    assert_eq!(prefix_to_i64(PrefixKind::Hhi), 1);
    assert_eq!(prefix_to_i64(PrefixKind::Dummy), 2);
    assert_eq!(prefix_to_i64(PrefixKind::Tmp), 3);
}

#[test]
fn prefix_round_trip() {
    for p in [PrefixKind::Root, PrefixKind::Hhi, PrefixKind::Dummy, PrefixKind::Tmp] {
        assert_eq!(prefix_from_i64(prefix_to_i64(p)), Ok(p));
    }
}

#[test]
fn unknown_prefix_is_corrupt() {
    assert_eq!(prefix_from_i64(4), Err(CorruptRecordError::UnknownPrefix(4)));
    assert_eq!(prefix_from_i64(-1), Err(CorruptRecordError::UnknownPrefix(-1)));
}

#[test]
fn mode_codes_are_fixed() {
    assert_eq!(mode_to_i64(None), None);
    assert_eq!(mode_to_i64(Some(ModeKind::Mphp)), Some(0));
    assert_eq!(mode_to_i64(Some(ModeKind::Mdecl)), Some(1));
    assert_eq!(mode_to_i64(Some(ModeKind::Mstrict)), Some(2));
    assert_eq!(mode_to_i64(Some(ModeKind::Mpartial)), Some(3));
    assert_eq!(mode_to_i64(Some(ModeKind::Mexperimental)), Some(4));
}

#[test]
fn mode_round_trip() {
    for m in [
        None,
        Some(ModeKind::Mphp),
        Some(ModeKind::Mdecl),
        Some(ModeKind::Mstrict),
        Some(ModeKind::Mpartial),
        Some(ModeKind::Mexperimental),
    ] {
        assert_eq!(mode_from_i64(mode_to_i64(m)), Ok(m));
    }
}

#[test]
fn unknown_mode_is_corrupt() {
    assert_eq!(mode_from_i64(Some(5)), Err(CorruptRecordError::UnknownMode(5)));
}

#[test]
fn empty_list_is_empty_text() {
    assert_eq!(serialize_names(&vec![]), "");
    assert_eq!(deserialize_names(&String::new()), Ok(vec![]));
}

#[test]
fn names_are_terminated() {
    assert_eq!(serialize_names(&names(&["Foo", "Bar"])), "Foo|Bar|");
    assert_eq!(serialize_names(&names(&[""])), "|");
}

#[test]
fn delimiter_in_name_is_escaped() {
    let list = names(&["a|b", "c\\d", "", "|"]);
    let text = serialize_names(&list);
    assert_eq!(text, "a\\|b|c\\\\d||\\||");
    assert_eq!(deserialize_names(&text), Ok(list));
}

#[test]
fn names_round_trip() {
    for list in [
        names(&[]),
        names(&["Foo"]),
        names(&["", ""]),
        names(&["\\", "\\|\\", "x"]),
        names(&["Ns\\Foo", "Bar"]),
    ] {
        assert_eq!(deserialize_names(&serialize_names(&list)), Ok(list));
    }
}

#[test]
fn malformed_name_lists_are_corrupt() {
    for text in ["Foo", "a\\", "a\\b|", "Foo|Bar"] {
        assert_eq!(
            deserialize_names(&text.to_string()),
            Err(CorruptRecordError::MalformedNameList)
        );
    }
}

#[test]
fn syntax_enums_compare() {
    assert_eq!(Tprim::Tint, Tprim::Tint);
    assert_ne!(KvcKind::Dict, KvcKind::Map_);
    assert_ne!(VcKind::Set_, VcKind::Keyset);
}

#[test]
fn lazy_keeps_its_value() {
    let l = Lazy::new(7u32);
    assert_eq!(*l.get(), 7);
    assert_eq!(l.clone().into_inner(), 7);
    assert!(Lazy::new(1u8) < Lazy::new(2u8));
}
