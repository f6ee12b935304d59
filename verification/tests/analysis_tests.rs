use vrm_tui::analysis::{analyze, duplicate_names, referenced_bones};
use vrm_tui::model::{sample_input, BoneInfo, SmrInfo, VrmInput, VrmReport};

const AVATAR_WARNING: &str = "아바타에 동일한 본 이름이 있어 매칭이 모호할 수 있습니다.";
const CLOTHING_WARNING: &str = "의상 본 이름 중복으로 이동/이름변경 결과가 불안정할 수 있습니다.";
const NO_SMR_WARNING: &str = "의상 SMR이 없어 병합 이동 대상이 없습니다.";

fn bone(name: &str) -> BoneInfo {
    BoneInfo { name: name.to_string(), parent_name: None }
}

fn child(name: &str, parent: &str) -> BoneInfo {
    BoneInfo { name: name.to_string(), parent_name: Some(parent.to_string()) }
}

fn bones(names: &[&str]) -> Vec<BoneInfo> {
    names.iter().map(|n| bone(n)).collect()
}

fn smr(name: &str, root: Option<&str>, listed: &[&str]) -> SmrInfo {
    SmrInfo {
        name: name.to_string(),
        root_bone: root.map(|r| r.to_string()),
        bones: listed.iter().map(|b| b.to_string()).collect(),
    }
}

fn input(avatar: &[&str], clothing: &[&str], smrs: Vec<SmrInfo>, suffix: &str) -> VrmInput {
    VrmInput {
        avatar_bones: bones(avatar),
        clothing_bones: bones(clothing),
        clothing_smrs: smrs,
        suffix: suffix.to_string(),
    }
}

fn strings(items: &[&str]) -> Vec<String> {
    items.iter().map(|s| s.to_string()).collect()
}

#[test]
fn jacket_on_a_two_bone_avatar() {
    let data = VrmInput {
        avatar_bones: vec![bone("Hips"), child("Spine", "Hips")],
        clothing_bones: vec![bone("Spine"), child("Chest", "Spine")],
        clothing_smrs: vec![smr("Jacket", Some("Spine"), &["Spine", "Chest"])],
        suffix: "_cloth".to_string(),
    };
    let report = analyze(&data);
    let expected = VrmReport {
        duplicate_avatar_bone_names: vec![],
        duplicate_clothing_bone_names: vec![],
        referenced_clothing_bones: 2,
        estimated_moved_bones: 1,
        estimated_moved_smrs: 1,
        estimated_renamed_bones: 2,
        estimated_renamed_smrs: 1,
        warnings: vec![],
    };
    assert_eq!(report, expected);
}

#[test]
fn sample_input_is_the_jacket_example() {
    let data = sample_input();
    let expected = VrmInput {
        avatar_bones: vec![bone("Hips"), child("Spine", "Hips")],
        clothing_bones: vec![bone("Spine"), child("Chest", "Spine")],
        clothing_smrs: vec![smr("Jacket", Some("Spine"), &["Spine", "Chest"])],
        suffix: "_cloth".to_string(),
    };
    assert_eq!(data, expected);
}

#[test]
fn duplicate_clothing_bone_without_meshes() {
    let data = input(&[], &["A", "A"], vec![], "");
    let report = analyze(&data);
    assert_eq!(report.duplicate_avatar_bone_names, Vec::<String>::new());
    assert_eq!(report.duplicate_clothing_bone_names, strings(&["A"]));
    assert_eq!(report.referenced_clothing_bones, 0);
    assert_eq!(report.estimated_moved_bones, 0);
    assert_eq!(report.estimated_moved_smrs, 0);
    assert_eq!(report.estimated_renamed_bones, 0);
    assert_eq!(report.estimated_renamed_smrs, 0);
    assert_eq!(report.warnings, strings(&[CLOTHING_WARNING, NO_SMR_WARNING]));
}

#[test]
fn empty_input_gives_the_empty_report_with_one_warning() {
    let data = input(&[], &[], vec![], "");
    let report = analyze(&data);
    let expected = VrmReport {
        duplicate_avatar_bone_names: vec![],
        duplicate_clothing_bone_names: vec![],
        referenced_clothing_bones: 0,
        estimated_moved_bones: 0,
        estimated_moved_smrs: 0,
        estimated_renamed_bones: 0,
        estimated_renamed_smrs: 0,
        warnings: strings(&[NO_SMR_WARNING]),
    };
    assert_eq!(report, expected);
}

#[test]
fn all_three_warnings_come_in_their_fixed_order() {
    let data = input(&["X", "X"], &["Y", "Y"], vec![], "_c");
    let report = analyze(&data);
    assert_eq!(report.warnings, strings(&[AVATAR_WARNING, CLOTHING_WARNING, NO_SMR_WARNING]));
}

#[test]
fn avatar_duplicates_alone_give_the_first_warning() {
    let data = input(&["X", "X"], &["Y"], vec![smr("M", None, &[])], "");
    let report = analyze(&data);
    assert_eq!(report.warnings, strings(&[AVATAR_WARNING]));
    assert_eq!(report.duplicate_avatar_bone_names, strings(&["X"]));
}

#[test]
fn repeated_calls_give_the_same_report() {
    let data = input(
        &["b", "a", "b", "a", "c"],
        &["z", "y", "z", "y", "x", "x"],
        vec![smr("m1", Some("z"), &["y", "q"]), smr("m2_s", None, &["x", "z"])],
        " s_ ",
    );
    let first = analyze(&data);
    let second = analyze(&data);
    assert_eq!(first, second);
    assert_eq!(first.duplicate_avatar_bone_names, strings(&["a", "b"]));
    assert_eq!(first.duplicate_clothing_bone_names, strings(&["x", "y", "z"]));
}

#[test]
fn report_does_not_depend_on_the_order_of_the_bones() {
    let one = input(&["b", "a", "b", "a"], &["k", "j", "k", "j"], vec![smr("m", Some("k"), &["j"])], "");
    let other = input(&["a", "a", "b", "b"], &["j", "k", "j", "k"], vec![smr("m", Some("k"), &["j"])], "");
    assert_eq!(analyze(&one), analyze(&other));
}

#[test]
fn analyze_leaves_the_input_as_it_was() {
    let data = input(&["a", "a"], &["b"], vec![smr("m", Some("b"), &["b"])], "_x");
    let copy = data.clone();
    let _ = analyze(&data);
    assert_eq!(data, copy);
}

#[test]
fn a_name_is_a_duplicate_exactly_when_it_occurs_more_than_once() {
    let list = bones(&["once", "twice", "thrice", "twice", "thrice", "thrice", "single"]);
    let found = duplicate_names(&list);
    assert_eq!(found, strings(&["thrice", "twice"]));
    assert!(!found.contains(&"once".to_string()));
    assert!(!found.contains(&"single".to_string()));
}

#[test]
fn duplicate_names_of_nothing_are_none() {
    assert_eq!(duplicate_names(&[]), Vec::<String>::new());
    assert_eq!(duplicate_names(&bones(&["a", "b", "c"])), Vec::<String>::new());
}

#[test]
fn duplicate_names_are_compared_exactly() {
    let list = bones(&["Hips", "hips", " Hips", "Hips ", "HIPS"]);
    assert_eq!(duplicate_names(&list), Vec::<String>::new());
    let list = bones(&["Hips", "hips", "Hips"]);
    assert_eq!(duplicate_names(&list), strings(&["Hips"]));
}

#[test]
fn duplicate_names_come_in_the_order_of_a_sort() {
    let names = ["본", "b", "B", "", "é", "e", "zz", "z", "𝄞", "~", "a b", "a", "본", "b", "B", "",
        "é", "e", "zz", "z", "𝄞", "~", "a b", "a", "\u{ffff}", "\u{ffff}", "\u{10000}", "\u{10000}"];
    let found = duplicate_names(&bones(&names));
    let mut expected: Vec<String> = names.iter().map(|n| n.to_string()).collect();
    expected.sort();
    expected.dedup();
    assert_eq!(found, expected);
}

#[test]
fn duplicate_names_ignore_the_parent() {
    let list = vec![child("a", "p"), child("a", "q"), child("b", "p")];
    assert_eq!(duplicate_names(&list), strings(&["a"]));
}

#[test]
fn referenced_bones_are_named_by_a_mesh_and_held_by_the_clothing() {
    let data = input(
        &[],
        &["arm", "leg", "head", "tail"],
        vec![smr("m1", Some("leg"), &["arm", "ghost"]), smr("m2", Some("phantom"), &["head"])],
        "",
    );
    assert_eq!(referenced_bones(&data), strings(&["arm", "head", "leg"]));
    let report = analyze(&data);
    assert_eq!(report.referenced_clothing_bones, 3);
    assert_eq!(report.warnings, Vec::<String>::new());
}

#[test]
fn a_bone_named_by_five_meshes_counts_once() {
    let meshes = vec![
        smr("m1", Some("arm"), &["arm", "arm"]),
        smr("m2", Some("arm"), &[]),
        smr("m3", None, &["arm"]),
        smr("m4", Some("arm"), &["arm"]),
        smr("m5", None, &["arm", "arm", "arm"]),
    ];
    let data = input(&[], &["arm", "arm", "arm"], meshes, "");
    assert_eq!(referenced_bones(&data), strings(&["arm"]));
    let report = analyze(&data);
    assert_eq!(report.referenced_clothing_bones, 1);
    assert_eq!(report.estimated_moved_smrs, 5);
}

#[test]
fn a_root_bone_alone_is_a_reference() {
    let data = input(&["root"], &["root"], vec![smr("m", Some("root"), &[])], "");
    let report = analyze(&data);
    assert_eq!(report.referenced_clothing_bones, 1);
    assert_eq!(report.estimated_moved_bones, 1);
}

#[test]
fn references_to_bones_that_the_clothing_lacks_are_passed_over() {
    let data = input(&["a", "b"], &["c"], vec![smr("m", Some("a"), &["b", "d"])], "_s");
    assert_eq!(referenced_bones(&data), Vec::<String>::new());
    let report = analyze(&data);
    assert_eq!(report.referenced_clothing_bones, 0);
    assert_eq!(report.estimated_moved_bones, 0);
    assert_eq!(report.estimated_renamed_bones, 0);
    assert_eq!(report.estimated_renamed_smrs, 1);
    assert_eq!(report.warnings, Vec::<String>::new());
}

#[test]
fn moved_bones_are_the_referenced_ones_that_the_avatar_holds() {
    let data = input(
        &["Hips", "Spine", "Head", "Head", "Unused"],
        &["Hips", "Spine", "Skirt", "Unused"],
        vec![smr("m", Some("Hips"), &["Spine", "Skirt", "Head"])],
        "",
    );
    let report = analyze(&data);
    assert_eq!(report.referenced_clothing_bones, 3);
    assert_eq!(report.estimated_moved_bones, 2);
    assert_eq!(report.duplicate_avatar_bone_names, strings(&["Head"]));
}

#[test]
fn renamed_counts_leave_out_what_ends_with_the_suffix() {
    let data = input(
        &[],
        &["arm_cloth", "leg", "head_cloth_", "_cloth", "cloth"],
        vec![
            smr("Coat_cloth", Some("arm_cloth"), &["leg", "head_cloth_"]),
            smr("Hat", None, &["_cloth", "cloth"]),
            smr("_cloth", None, &[]),
        ],
        " cloth__ ",
    );
    let report = analyze(&data);
    assert_eq!(report.referenced_clothing_bones, 5);
    assert_eq!(report.estimated_renamed_bones, 3);
    assert_eq!(report.estimated_renamed_smrs, 1);
    assert_eq!(report.estimated_moved_smrs, 3);
}

#[test]
fn an_empty_suffix_renames_nothing() {
    for suffix in ["", "   ", "_", "____", " \t__\n", "\u{3000}"] {
        let data = input(
            &["a"],
            &["a", "b"],
            vec![smr("m", Some("a"), &["b"]), smr("n", None, &["a"])],
            suffix,
        );
        let report = analyze(&data);
        assert_eq!(report.estimated_renamed_bones, 0);
        assert_eq!(report.estimated_renamed_smrs, 0);
        assert_eq!(report.referenced_clothing_bones, 2);
        assert_eq!(report.estimated_moved_smrs, 2);
    }
}

#[test]
fn moved_smrs_count_every_mesh() {
    let data = input(&[], &[], vec![smr("a", None, &[]), smr("a", None, &[]), smr("b", Some("x"), &["y"])], "");
    assert_eq!(analyze(&data).estimated_moved_smrs, 3);
}
