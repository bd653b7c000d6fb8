use lib_roblox::text::same_text;

#[test]
fn same_text_accepts_equal_names() {
    assert!(same_text("Part", "Part"));
    assert!(same_text("", ""));
    assert!(same_text("CSG Dictionary Service", "CSG Dictionary Service"));
    let owned = String::from("Base") + "Part";
    assert!(same_text(&owned, "BasePart"));
}

#[test]
fn same_text_is_case_sensitive() {
    assert!(!same_text("Part", "part"));
    assert!(!same_text("part", "Part"));
    assert!(!same_text("INSTANCE", "Instance"));
}

#[test]
fn same_text_does_not_trim() {
    assert!(!same_text("Part", "Part "));
    assert!(!same_text(" Part", "Part"));
    assert!(!same_text("Part", ""));
    assert!(!same_text("", "Part"));
}

#[test]
fn same_text_sees_every_position() {
    assert!(!same_text("Paart", "Part"));
    assert!(!same_text("Part", "Pert"));
    assert!(!same_text("Part", "Parr"));
    assert!(!same_text("Xart", "Part"));
    assert!(!same_text("Base-Part", "BasePart"));
}

#[test]
fn same_text_compares_beyond_ascii() {
    assert!(same_text("Tür", "Tür"));
    assert!(!same_text("Tür", "Tur"));
    assert!(!same_text("Tür", "Tör"));
    assert!(same_text("部品", "部品"));
    assert!(!same_text("部品", "部分"));
    // The same glyph written with a combining mark is a different text.
    assert!(!same_text("u\u{308}", "\u{fc}"));
}
