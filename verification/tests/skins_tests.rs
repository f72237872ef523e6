use shishabot::skins::{
    added_skin_index, contains_ignore_ascii_case, is_owner, file_has_extension, find_skin_slot,
    pick_skin_to_remove, skin_display_names, skin_list_text, skin_name_step, sorted_skin_names,
    FileCounter, SkinNameStep, SkinSlot,
};

fn strings(v: &[&str]) -> Vec<String> {
    v.iter().map(|s| s.to_string()).collect()
}

#[test]
fn extensions() {
    assert!(file_has_extension("skin.osk", "osk"));
    assert!(!file_has_extension("skin.osk.zip", "osk"));
    assert!(file_has_extension("osk", "osk"));
    assert!(!file_has_extension("skin.OSK", "osk"));
}

#[test]
fn folder_names_count_up() {
    let mut c = FileCounter::new("Skin");
    assert_eq!(c.to_string(), "Skin");
    c.inc();
    assert_eq!(c.to_string(), "Skin_1");
    c.inc();
    c.inc();
    assert_eq!(c.to_string(), "Skin_3");
    let mut c = FileCounter::new("a");
    assert!(matches!(skin_name_step(&mut c, true), SkinNameStep::TryNext));
    assert!(matches!(skin_name_step(&mut c, true), SkinNameStep::TryNext));
    match skin_name_step(&mut c, false) {
        SkinNameStep::Use(name) => assert_eq!(name, "a_2"),
        SkinNameStep::TryNext => panic!("the name is free"),
    }
}

#[test]
fn listing_skins() {
    assert_eq!(skin_display_names(&strings(&["My_Skin", "x"])), strings(&["My Skin", "x"]));
    assert_eq!(skin_list_text(&strings(&["a_b", "c"])), "1) a b\n2) c\n");
    assert_eq!(skin_list_text(&Vec::new()), "");
    assert_eq!(sorted_skin_names(strings(&["b", "B", "a"])), strings(&["B", "a", "b"]));
}

#[test]
fn slots_for_new_skins() {
    let skins = strings(&["alpha", "Gamma"]);
    assert!(matches!(find_skin_slot(&skins, "GAMMA"), SkinSlot::Taken(1)));
    assert!(matches!(find_skin_slot(&skins, "beta"), SkinSlot::Free(1)));
    assert_eq!(added_skin_index(&SkinSlot::Taken(1), 2), 4);
    assert_eq!(added_skin_index(&SkinSlot::Free(1), 0), 2);
    assert!(contains_ignore_ascii_case(&skins, "ALPHA"));
    assert!(!contains_ignore_ascii_case(&skins, "delta"));
}

#[test]
fn skin_to_remove_by_position() {
    let names = strings(&["b", "A", "c"]);
    assert_eq!(pick_skin_to_remove(names.clone(), 1), Ok("A".to_string()));
    assert_eq!(pick_skin_to_remove(names.clone(), 3), Ok("c".to_string()));
    assert_eq!(pick_skin_to_remove(names.clone(), 4), Err(3));
    assert_eq!(pick_skin_to_remove(names, 0), Err(3));
}

#[test]
fn only_owners_add_skins() {
    let owners = vec![5u64, 7, 9];
    assert!(is_owner(&owners, 7));
    assert!(is_owner(&owners, 9));
    assert!(!is_owner(&owners, 8));
    assert!(!is_owner(&vec![], 7));
}
