//! The data that an analysis reads and the report that it gives, each with
//! its mathematical view.

use crate::text::texts;
use vstd::prelude::*;
use vstd::string::StringExecFns;

verus! {

/// The view of an optional string.
pub open spec fn opt_text(o: Option<String>) -> Option<Seq<char>> {
    match o {
        Some(s) => Some(s@),
        None => None,
    }
}

/// One joint of a skeleton. Bones are matched by name alone, and a
/// skeleton may hold a name more than once.
#[derive(Debug, Clone, PartialEq, Eq)]
pub struct BoneInfo {
    pub name: String,
    pub parent_name: Option<String>,
}

/// A bone as a mathematical value.
pub struct BoneView {
    pub name: Seq<char>,
    pub parent_name: Option<Seq<char>>,
}

impl View for BoneInfo {
    type V = BoneView;

    open spec fn view(&self) -> BoneView {
        BoneView { name: self.name@, parent_name: opt_text(self.parent_name) }
    }
}

/// A skinned mesh bound to bones of the clothing skeleton, which it names
/// by its root bone and its bone list. The names need not exist.
#[derive(Debug, Clone, PartialEq, Eq)]
pub struct SmrInfo {
    pub name: String,
    pub root_bone: Option<String>,
    pub bones: Vec<String>,
}

/// A mesh as a mathematical value.
pub struct SmrView {
    pub name: Seq<char>,
    pub root_bone: Option<Seq<char>>,
    pub bones: Seq<Seq<char>>,
}

impl View for SmrInfo {
    type V = SmrView;

    open spec fn view(&self) -> SmrView {
        SmrView {
            name: self.name@,
            root_bone: opt_text(self.root_bone),
            bones: texts(self.bones@),
        }
    }
}

/// The views of a sequence of bones.
pub open spec fn bone_views(bones: Seq<BoneInfo>) -> Seq<BoneView> {
    bones.map_values(|b: BoneInfo| b@)
}

/// The views of a sequence of meshes.
pub open spec fn smr_views(smrs: Seq<SmrInfo>) -> Seq<SmrView> {
    smrs.map_values(|s: SmrInfo| s@)
}

/// The names of a sequence of bones, in order, repeats included.
pub open spec fn bone_names(bones: Seq<BoneView>) -> Seq<Seq<char>> {
    bones.map_values(|b: BoneView| b.name)
}

/// What one analysis reads: the two skeletons, the clothing's meshes and
/// the raw naming suffix.
#[derive(Debug, Clone, PartialEq, Eq)]
pub struct VrmInput {
    pub avatar_bones: Vec<BoneInfo>,
    pub clothing_bones: Vec<BoneInfo>,
    pub clothing_smrs: Vec<SmrInfo>,
    pub suffix: String,
}

/// An input as a mathematical value.
pub struct InputView {
    pub avatar_bones: Seq<BoneView>,
    pub clothing_bones: Seq<BoneView>,
    pub clothing_smrs: Seq<SmrView>,
    pub suffix: Seq<char>,
}

impl View for VrmInput {
    type V = InputView;

    open spec fn view(&self) -> InputView {
        InputView {
            avatar_bones: bone_views(self.avatar_bones@),
            clothing_bones: bone_views(self.clothing_bones@),
            clothing_smrs: smr_views(self.clothing_smrs@),
            suffix: self.suffix@,
        }
    }
}

/// What one analysis gives.
#[derive(Debug, Clone, PartialEq, Eq)]
pub struct VrmReport {
    pub duplicate_avatar_bone_names: Vec<String>,
    pub duplicate_clothing_bone_names: Vec<String>,
    pub referenced_clothing_bones: usize,
    pub estimated_moved_bones: usize,
    pub estimated_moved_smrs: usize,
    pub estimated_renamed_bones: usize,
    pub estimated_renamed_smrs: usize,
    pub warnings: Vec<String>,
}

/// A report as a mathematical value.
pub struct ReportView {
    pub duplicate_avatar_bone_names: Seq<Seq<char>>,
    pub duplicate_clothing_bone_names: Seq<Seq<char>>,
    pub referenced_clothing_bones: nat,
    pub estimated_moved_bones: nat,
    pub estimated_moved_smrs: nat,
    pub estimated_renamed_bones: nat,
    pub estimated_renamed_smrs: nat,
    pub warnings: Seq<Seq<char>>,
}

impl View for VrmReport {
    type V = ReportView;

    open spec fn view(&self) -> ReportView {
        ReportView {
            duplicate_avatar_bone_names: texts(self.duplicate_avatar_bone_names@),
            duplicate_clothing_bone_names: texts(self.duplicate_clothing_bone_names@),
            referenced_clothing_bones: self.referenced_clothing_bones as nat,
            estimated_moved_bones: self.estimated_moved_bones as nat,
            estimated_moved_smrs: self.estimated_moved_smrs as nat,
            estimated_renamed_bones: self.estimated_renamed_bones as nat,
            estimated_renamed_smrs: self.estimated_renamed_smrs as nat,
            warnings: texts(self.warnings@),
        }
    }
}

/// The view of the built-in example.
pub open spec fn sample_view() -> InputView {
    InputView {
        avatar_bones: seq![
            BoneView { name: "Hips"@, parent_name: None },
            BoneView { name: "Spine"@, parent_name: Some("Hips"@) },
        ],
        clothing_bones: seq![
            BoneView { name: "Spine"@, parent_name: None },
            BoneView { name: "Chest"@, parent_name: Some("Spine"@) },
        ],
        clothing_smrs: seq![
            SmrView { name: "Jacket"@, root_bone: Some("Spine"@), bones: seq!["Spine"@, "Chest"@] },
        ],
        suffix: "_cloth"@,
    }
}

/// The built-in example: a two-bone avatar, a two-bone garment that shares
/// one bone name with it, and one mesh bound to both garment bones.
pub fn sample_input() -> (out: VrmInput)
    ensures
        out@ == sample_view(),
{
    let mut avatar_bones: Vec<BoneInfo> = Vec::new();
    avatar_bones.push(BoneInfo { name: String::from_str("Hips"), parent_name: None });
    avatar_bones.push(
        BoneInfo { name: String::from_str("Spine"), parent_name: Some(String::from_str("Hips")) },
    );
    let mut clothing_bones: Vec<BoneInfo> = Vec::new();
    clothing_bones.push(BoneInfo { name: String::from_str("Spine"), parent_name: None });
    clothing_bones.push(
        BoneInfo { name: String::from_str("Chest"), parent_name: Some(String::from_str("Spine")) },
    );
    let mut bones: Vec<String> = Vec::new();
    bones.push(String::from_str("Spine"));
    bones.push(String::from_str("Chest"));
    let mut clothing_smrs: Vec<SmrInfo> = Vec::new();
    clothing_smrs.push(
        SmrInfo {
            name: String::from_str("Jacket"),
            root_bone: Some(String::from_str("Spine")),
            bones,
        },
    );
    let out = VrmInput {
        avatar_bones,
        clothing_bones,
        clothing_smrs,
        suffix: String::from_str("_cloth"),
    };
    assert(out@.avatar_bones =~= sample_view().avatar_bones);
    assert(out@.clothing_bones =~= sample_view().clothing_bones);
    assert(out@.clothing_smrs[0].bones =~= sample_view().clothing_smrs[0].bones);
    assert(out@.clothing_smrs =~= sample_view().clothing_smrs);
    out
}

} // verus!
