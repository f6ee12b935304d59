//! The dry-run analysis of merging a clothing skeleton onto an avatar
//! skeleton: which names collide, and how much a merge would move and
//! rename. Nothing is merged.

use crate::model::{
    bone_names, bone_views, smr_views, BoneInfo, InputView, ReportView, SmrInfo, SmrView, VrmInput,
    VrmReport,
};
use crate::names::{sorted_listing_unique, strictly_sorted, NameSet};
use crate::suffix::{normalize_suffix, normalized_suffix};
use crate::text::{chars_end_with, chars_of, ends_with, texts};
use vstd::prelude::*;
use vstd::string::StringExecFns;

verus! {

/// How often `name` occurs among `names`.
pub open spec fn occurrences(names: Seq<Seq<char>>, name: Seq<char>) -> nat {
    names.to_multiset().count(name)
}

/// `listing` is the list of duplicates of `names`: the names that occur
/// more than once, each once, in ascending lexicographic order.
pub open spec fn is_duplicate_listing(names: Seq<Seq<char>>, listing: Seq<Seq<char>>) -> bool {
    &&& strictly_sorted(listing)
    &&& forall|n: Seq<char>| listing.contains(n) <==> occurrences(names, n) > 1
}

/// Whether some name occurs more than once.
pub open spec fn has_duplicates(names: Seq<Seq<char>>) -> bool {
    exists|n: Seq<char>| occurrences(names, n) > 1
}

/// A name that occurs once, or not at all, is not listed among the
/// duplicates; one that occurs twice or more is.
pub proof fn duplicate_listing_members(
    names: Seq<Seq<char>>,
    listing: Seq<Seq<char>>,
    name: Seq<char>,
)
    requires
        is_duplicate_listing(names, listing),
    ensures
        occurrences(names, name) <= 1 ==> !listing.contains(name),
        occurrences(names, name) >= 2 ==> listing.contains(name),
{
}

proof fn occurrences_step(names: Seq<Seq<char>>, i: int, n: Seq<char>)
    requires
        0 <= i < names.len(),
    ensures
        occurrences(names.take(i + 1), n) == occurrences(names.take(i), n) + (if names[i] == n {
            1nat
        } else {
            0nat
        }),
{
    assert(names.take(i + 1) =~= names.take(i).push(names[i]));
    vstd::seq_lib::to_multiset_build(names.take(i), names[i]);
}

proof fn occurrences_none(n: Seq<char>)
    ensures
        occurrences(Seq::<Seq<char>>::empty(), n) == 0,
{
    Seq::<Seq<char>>::empty().to_multiset_ensures();
}

/// The names that occur more than once among `bones`, each once, in
/// ascending lexicographic order. Names are compared exactly.
pub fn duplicate_names(bones: &[BoneInfo]) -> (out: Vec<String>)
    ensures
        is_duplicate_listing(bone_names(bone_views(bones@)), texts(out@)),
{
    let ghost names = bone_names(bone_views(bones@));
    let mut seen = NameSet::new();
    let mut twice = NameSet::new();
    let mut i: usize = 0;
    proof {
        assert(names.take(0) =~= Seq::<Seq<char>>::empty());
        assert forall|n: Seq<char>| occurrences(names.take(0), n) == 0 by {
            occurrences_none(n);
        }
    }
    while i < bones.len()
        invariant
            names == bone_names(bone_views(bones@)),
            i <= bones.len(),
            seen.wf(),
            twice.wf(),
            forall|n: Seq<char>| seen@.contains(n) <==> occurrences(names.take(i as int), n) > 0,
            forall|n: Seq<char>| twice@.contains(n) <==> occurrences(names.take(i as int), n) > 1,
        decreases bones.len() - i,
    {
        let name = bones[i].name.as_str();
        proof {
            let earlier = names.take(i as int);
            let later = names.take(i + 1);
            assert(names[i as int] == name@);
            assert forall|n: Seq<char>|
                occurrences(later, n) == occurrences(earlier, n) + (if name@ == n {
                    1nat
                } else {
                    0nat
                }) by {
                occurrences_step(names, i as int, n);
            }
        }
        let fresh = seen.insert(name);
        if !fresh {
            twice.insert(name);
        }
        i += 1;
    }
    proof {
        assert(names.take(i as int) =~= names);
        twice.listing_is_view();
    }
    twice.into_names()
}

/// Whether a mesh names the bone `n`, as its root bone or in its bone list.
pub open spec fn smr_names_bone(smr: SmrView, n: Seq<char>) -> bool {
    smr.root_bone == Some(n) || smr.bones.contains(n)
}

/// Whether one of the first `k` meshes names the bone `n`.
pub open spec fn named_among(smrs: Seq<SmrView>, k: int, n: Seq<char>) -> bool {
    exists|j: int| 0 <= j < k && j < smrs.len() && smr_names_bone(#[trigger] smrs[j], n)
}

/// A clothing bone is referenced when some mesh names it and the clothing
/// skeleton holds a bone of that name. A name that the skeleton lacks is
/// passed over.
pub open spec fn is_referenced(input: InputView, n: Seq<char>) -> bool {
    &&& named_among(input.clothing_smrs, input.clothing_smrs.len() as int, n)
    &&& bone_names(input.clothing_bones).contains(n)
}

/// The referenced clothing bones, each name once.
pub open spec fn referenced_set(input: InputView) -> Set<Seq<char>> {
    Set::new(|n: Seq<char>| is_referenced(input, n))
}

/// A name that the clothing skeleton lacks is not referenced, whichever
/// meshes name it.
pub proof fn missing_bone_is_not_referenced(input: InputView, name: Seq<char>)
    requires
        !bone_names(input.clothing_bones).contains(name),
    ensures
        !referenced_set(input).contains(name),
{
}

/// The referenced bones whose name the avatar skeleton holds too: those a
/// merge would move onto an avatar bone.
pub open spec fn moved_bones(input: InputView) -> Set<Seq<char>> {
    referenced_set(input).intersect(bone_names(input.avatar_bones).to_set())
}

/// The test of a name: that it does not end with `suffix`.
pub open spec fn name_lacks(suffix: Seq<char>) -> spec_fn(Seq<char>) -> bool {
    |n: Seq<char>| !ends_with(n, suffix)
}

/// The same test of a mesh, by its name.
pub open spec fn smr_lacks(suffix: Seq<char>) -> spec_fn(SmrView) -> bool {
    |s: SmrView| !ends_with(s.name, suffix)
}

/// The referenced bones that a merge would rename: none while the suffix
/// is switched off, else those whose name does not end with it yet.
pub open spec fn bones_to_rename(input: InputView) -> Set<Seq<char>> {
    let suffix = normalized_suffix(input.suffix);
    if suffix.len() == 0 {
        Set::empty()
    } else {
        referenced_set(input).filter(name_lacks(suffix))
    }
}

/// The meshes that a merge would rename, by the same rule.
pub open spec fn smrs_to_rename(input: InputView) -> Seq<SmrView> {
    let suffix = normalized_suffix(input.suffix);
    if suffix.len() == 0 {
        Seq::empty()
    } else {
        input.clothing_smrs.filter(smr_lacks(suffix))
    }
}

/// The set of the names of `bones`.
fn name_set_of(bones: &Vec<BoneInfo>) -> (out: NameSet)
    ensures
        out.wf(),
        out@ == bone_names(bone_views(bones@)).to_set(),
{
    let ghost names = bone_names(bone_views(bones@));
    let mut out = NameSet::new();
    let mut i: usize = 0;
    while i < bones.len()
        invariant
            names == bone_names(bone_views(bones@)),
            i <= bones.len(),
            out.wf(),
            out@ == names.take(i as int).to_set(),
        decreases bones.len() - i,
    {
        proof {
            assert(names[i as int] == bones@[i as int].name@);
            assert(names.take(i + 1) =~= names.take(i as int).push(names[i as int]));
            names.take(i as int).lemma_push_to_set_commute(names[i as int]);
        }
        out.insert(bones[i].name.as_str());
        i += 1;
    }
    assert(names.take(i as int) =~= names);
    out
}

proof fn named_among_step(smrs: Seq<SmrView>, k: int, n: Seq<char>)
    requires
        0 <= k < smrs.len(),
    ensures
        named_among(smrs, k + 1, n) <==> named_among(smrs, k, n) || smr_names_bone(smrs[k], n),
{
    if named_among(smrs, k + 1, n) {
        let j = choose|j: int|
            0 <= j < k + 1 && j < smrs.len() && smr_names_bone(#[trigger] smrs[j], n);
        if j < k {
            assert(named_among(smrs, k, n));
        }
    }
    if named_among(smrs, k, n) {
        let j = choose|j: int|
            0 <= j < k && j < smrs.len() && smr_names_bone(#[trigger] smrs[j], n);
        assert(0 <= j < k + 1 && smr_names_bone(smrs[j], n));
    }
    if smr_names_bone(smrs[k], n) {
        assert(0 <= k < k + 1 && smr_names_bone(smrs[k], n));
    }
}

/// The referenced clothing bones as a set.
fn referenced_name_set(input: &VrmInput) -> (out: NameSet)
    ensures
        out.wf(),
        out@ == referenced_set(input@),
{
    let clothing = name_set_of(&input.clothing_bones);
    let ghost smrs = input@.clothing_smrs;
    let ghost held = bone_names(input@.clothing_bones);
    let mut out = NameSet::new();
    let mut k: usize = 0;
    while k < input.clothing_smrs.len()
        invariant
            smrs == input@.clothing_smrs,
            held == bone_names(input@.clothing_bones),
            clothing.wf(),
            clothing@ == held.to_set(),
            k <= input.clothing_smrs.len(),
            out.wf(),
            forall|n: Seq<char>| #[trigger]
                out@.contains(n) <==> named_among(smrs, k as int, n) && held.contains(n),
        decreases input.clothing_smrs.len() - k,
    {
        let smr = &input.clothing_smrs[k];
        assert(smrs[k as int] == smr@);
        let ghost before = out@;
        match &smr.root_bone {
            Some(root) => {
                if clothing.contains(root.as_str()) {
                    out.insert(root.as_str());
                }
            },
            None => {},
        }
        let ghost listed = smr@.bones;
        let mut b: usize = 0;
        while b < smr.bones.len()
            invariant
                listed == smr@.bones,
                clothing.wf(),
                clothing@ == held.to_set(),
                b <= smr.bones.len(),
                out.wf(),
                forall|n: Seq<char>| #[trigger]
                    out@.contains(n) <==> before.contains(n) || ((smr@.root_bone == Some(n)
                        || listed.take(b as int).contains(n)) && held.contains(n)),
            decreases smr.bones.len() - b,
        {
            let bone = smr.bones[b].as_str();
            proof {
                assert(listed[b as int] == bone@);
                assert(listed.take(b + 1) =~= listed.take(b as int).push(bone@));
                assert forall|n: Seq<char>|
                    listed.take(b + 1).contains(n) <==> listed.take(b as int).contains(n) || n
                        == bone@ by {
                    if listed.take(b as int).contains(n) {
                        let j = choose|j: int|
                            0 <= j < listed.take(b as int).len() && listed.take(b as int)[j] == n;
                        assert(listed.take(b + 1)[j] == n);
                    }
                    if n == bone@ {
                        assert(listed.take(b + 1)[b as int] == n);
                    }
                }
            }
            if clothing.contains(bone) {
                out.insert(bone);
            }
            b += 1;
        }
        proof {
            assert(listed.take(b as int) =~= listed);
            assert forall|n: Seq<char>| #[trigger]
                out@.contains(n) <==> named_among(smrs, k + 1, n) && held.contains(n) by {
                named_among_step(smrs, k as int, n);
            }
        }
        k += 1;
    }
    assert(out@ =~= referenced_set(input@));
    out
}

/// The names of the referenced clothing bones, each once, in ascending
/// lexicographic order.
pub fn referenced_bones(input: &VrmInput) -> (out: Vec<String>)
    ensures
        strictly_sorted(texts(out@)),
        forall|n: Seq<char>| texts(out@).contains(n) <==> is_referenced(input@, n),
        texts(out@).to_set() == referenced_set(input@),
        out@.len() == referenced_set(input@).len(),
{
    let set = referenced_name_set(input);
    proof {
        set.listing_is_view();
    }
    set.into_names()
}

/// The warning given when the avatar skeleton holds a name twice.
pub open spec fn avatar_duplicates_warning() -> Seq<char> {
    "아바타에 동일한 본 이름이 있어 매칭이 모호할 수 있습니다."@
}

/// The warning given when the clothing skeleton holds a name twice.
pub open spec fn clothing_duplicates_warning() -> Seq<char> {
    "의상 본 이름 중복으로 이동/이름변경 결과가 불안정할 수 있습니다."@
}

/// The warning given when the clothing has no mesh.
pub open spec fn no_smrs_warning() -> Seq<char> {
    "의상 SMR이 없어 병합 이동 대상이 없습니다."@
}

/// The warnings of an analysis, in their fixed order: duplicates in the
/// avatar, duplicates in the clothing, no mesh. One that does not apply is
/// left out.
pub open spec fn warnings_of(input: InputView) -> Seq<Seq<char>> {
    (if has_duplicates(bone_names(input.avatar_bones)) {
        seq![avatar_duplicates_warning()]
    } else {
        seq![]
    }) + (if has_duplicates(bone_names(input.clothing_bones)) {
        seq![clothing_duplicates_warning()]
    } else {
        seq![]
    }) + (if input.clothing_smrs.len() == 0 {
        seq![no_smrs_warning()]
    } else {
        seq![]
    })
}

/// The three warnings differ from one another.
pub proof fn warnings_are_distinct()
    ensures
        avatar_duplicates_warning() != clothing_duplicates_warning(),
        avatar_duplicates_warning() != no_smrs_warning(),
        clothing_duplicates_warning() != no_smrs_warning(),
{
    reveal_strlit("아바타에 동일한 본 이름이 있어 매칭이 모호할 수 있습니다.");
    reveal_strlit("의상 본 이름 중복으로 이동/이름변경 결과가 불안정할 수 있습니다.");
    reveal_strlit("의상 SMR이 없어 병합 이동 대상이 없습니다.");
    assert(avatar_duplicates_warning()[0] == '아');
    assert(clothing_duplicates_warning()[0] == '의');
    assert(no_smrs_warning()[0] == '의');
    assert(clothing_duplicates_warning()[3] == '본');
    assert(no_smrs_warning()[3] == 'S');
}

/// `report` is the report of `input`: every field is what the analysis
/// defines for it.
pub open spec fn report_matches(input: InputView, report: ReportView) -> bool {
    &&& is_duplicate_listing(bone_names(input.avatar_bones), report.duplicate_avatar_bone_names)
    &&& is_duplicate_listing(
        bone_names(input.clothing_bones),
        report.duplicate_clothing_bone_names,
    )
    &&& report.referenced_clothing_bones == referenced_set(input).len()
    &&& report.estimated_moved_bones == moved_bones(input).len()
    &&& report.estimated_moved_smrs == input.clothing_smrs.len()
    &&& report.estimated_renamed_bones == bones_to_rename(input).len()
    &&& report.estimated_renamed_smrs == smrs_to_rename(input).len()
    &&& report.warnings == warnings_of(input)
}

/// An input has one report only: two reports of the same input are equal,
/// field by field and in the order of their lists.
pub proof fn report_is_unique(input: InputView, first: ReportView, second: ReportView)
    requires
        report_matches(input, first),
        report_matches(input, second),
    ensures
        first == second,
{
    sorted_listing_unique(first.duplicate_avatar_bone_names, second.duplicate_avatar_bone_names);
    sorted_listing_unique(
        first.duplicate_clothing_bone_names,
        second.duplicate_clothing_bone_names,
    );
}

/// With the suffix switched off nothing is to be renamed, whatever the
/// skeletons and meshes hold.
pub proof fn empty_suffix_renames_nothing(input: InputView, report: ReportView)
    requires
        report_matches(input, report),
        normalized_suffix(input.suffix).len() == 0,
    ensures
        report.estimated_renamed_bones == 0,
        report.estimated_renamed_smrs == 0,
{
}

/// A duplicate listing is empty exactly when no name occurs twice.
proof fn listing_empty_iff(names: Seq<Seq<char>>, listing: Seq<Seq<char>>)
    requires
        is_duplicate_listing(names, listing),
    ensures
        listing.len() > 0 <==> has_duplicates(names),
{
    if listing.len() > 0 {
        assert(listing.contains(listing[0]));
        assert(occurrences(names, listing[0]) > 1);
    }
    if has_duplicates(names) {
        let n = choose|n: Seq<char>| occurrences(names, n) > 1;
        assert(listing.contains(n));
    }
}

proof fn filter_len_step(s: Seq<Seq<char>>, i: int, p: spec_fn(Seq<char>) -> bool)
    requires
        s.no_duplicates(),
        0 <= i < s.len(),
    ensures
        s.take(i).to_set().filter(p).finite(),
        s.take(i + 1).to_set().filter(p).len() == s.take(i).to_set().filter(p).len() + (if p(s[i]) {
            1nat
        } else {
            0nat
        }),
{
    let lower = s.take(i).to_set();
    let upper = s.take(i + 1).to_set();
    vstd::seq_lib::seq_to_set_is_finite(s.take(i));
    lower.lemma_len_filter(p);
    assert(s.take(i + 1) =~= s.take(i).push(s[i]));
    s.take(i).lemma_push_to_set_commute(s[i]);
    assert(upper == lower.insert(s[i]));
    if lower.contains(s[i]) {
        let j = choose|j: int| 0 <= j < s.take(i).len() && s.take(i)[j] == s[i];
        assert(s[j] == s[i]);
    }
    if p(s[i]) {
        assert(upper.filter(p) =~= lower.filter(p).insert(s[i]));
    } else {
        assert(upper.filter(p) =~= lower.filter(p));
    }
}

/// How many members of `referenced` are members of `avatar` too.
fn count_shared(referenced: &NameSet, avatar: &NameSet) -> (count: usize)
    requires
        referenced.wf(),
        avatar.wf(),
    ensures
        count == referenced@.intersect(avatar@).len(),
{
    let names = referenced.names();
    let ghost listing = referenced.listing();
    let ghost p = |n: Seq<char>| avatar@.contains(n);
    proof {
        referenced.listing_is_view();
        assert(listing.take(0).to_set().filter(p) =~= Set::<Seq<char>>::empty());
    }
    let mut count: usize = 0;
    let mut i: usize = 0;
    while i < names.len()
        invariant
            listing == referenced.listing(),
            listing == texts(names@),
            listing.no_duplicates(),
            avatar.wf(),
            p == (|n: Seq<char>| avatar@.contains(n)),
            i <= names.len(),
            count <= i,
            count == listing.take(i as int).to_set().filter(p).len(),
        decreases names.len() - i,
    {
        proof {
            filter_len_step(listing, i as int, p);
            assert(listing[i as int] == names@[i as int]@);
        }
        if avatar.contains(names[i].as_str()) {
            count += 1;
        }
        i += 1;
    }
    proof {
        assert(listing.take(i as int) =~= listing);
        assert(referenced@.filter(p) =~= referenced@.intersect(avatar@));
    }
    count
}

/// How many members of `referenced` do not end with `suffix`.
fn count_names_lacking(referenced: &NameSet, suffix: &Vec<char>) -> (count: usize)
    requires
        referenced.wf(),
    ensures
        count == referenced@.filter(name_lacks(suffix@)).len(),
{
    let names = referenced.names();
    let ghost listing = referenced.listing();
    let ghost p = name_lacks(suffix@);
    proof {
        referenced.listing_is_view();
        assert(listing.take(0).to_set().filter(p) =~= Set::<Seq<char>>::empty());
    }
    let mut count: usize = 0;
    let mut i: usize = 0;
    while i < names.len()
        invariant
            listing == referenced.listing(),
            listing == texts(names@),
            listing.no_duplicates(),
            p == name_lacks(suffix@),
            i <= names.len(),
            count <= i,
            count == listing.take(i as int).to_set().filter(p).len(),
        decreases names.len() - i,
    {
        proof {
            filter_len_step(listing, i as int, p);
            assert(listing[i as int] == names@[i as int]@);
        }
        let name = chars_of(names[i].as_str());
        if !chars_end_with(&name, suffix) {
            count += 1;
        }
        i += 1;
    }
    proof {
        assert(listing.take(i as int) =~= listing);
    }
    count
}

/// How many of `smrs` have a name that does not end with `suffix`.
fn count_smrs_lacking(smrs: &Vec<SmrInfo>, suffix: &Vec<char>) -> (count: usize)
    ensures
        count == smr_views(smrs@).filter(smr_lacks(suffix@)).len(),
{
    let ghost views = smr_views(smrs@);
    let ghost p = smr_lacks(suffix@);
    proof {
        assert(views.take(0) =~= Seq::<SmrView>::empty());
        assert(Seq::<SmrView>::empty().filter(p) =~= Seq::<SmrView>::empty()) by {
            reveal(Seq::filter);
        }
    }
    let mut count: usize = 0;
    let mut i: usize = 0;
    while i < smrs.len()
        invariant
            views == smr_views(smrs@),
            p == smr_lacks(suffix@),
            i <= smrs.len(),
            count <= i,
            count == views.take(i as int).filter(p).len(),
        decreases smrs.len() - i,
    {
        proof {
            assert(views[i as int] == smrs@[i as int]@);
            views.lemma_take_succ_push(i as int);
            views.take(i as int).lemma_filter_len_push(p, views[i as int]);
        }
        let name = chars_of(smrs[i].name.as_str());
        if !chars_end_with(&name, suffix) {
            count += 1;
        }
        i += 1;
    }
    proof {
        assert(views.take(i as int) =~= views);
    }
    count
}

/// Analyzes a proposed merge. Every input is accepted, empty lists and an
/// empty suffix too; the input is left as it is.
pub fn analyze(input: &VrmInput) -> (report: VrmReport)
    ensures
        report_matches(input@, report@),
        normalized_suffix(input@.suffix).len() == 0 ==> report.estimated_renamed_bones == 0
            && report.estimated_renamed_smrs == 0,
{
    let avatar_duplicates = duplicate_names(input.avatar_bones.as_slice());
    let clothing_duplicates = duplicate_names(input.clothing_bones.as_slice());
    let avatar_names = name_set_of(&input.avatar_bones);
    let referenced = referenced_name_set(input);
    let estimated_moved_bones = count_shared(&referenced, &avatar_names);
    let suffix = normalize_suffix(input.suffix.as_str());
    let suffix_chars = chars_of(suffix.as_str());
    let estimated_renamed_bones = if suffix_chars.len() == 0 {
        0
    } else {
        count_names_lacking(&referenced, &suffix_chars)
    };
    let estimated_renamed_smrs = if suffix_chars.len() == 0 {
        0
    } else {
        count_smrs_lacking(&input.clothing_smrs, &suffix_chars)
    };
    let mut warnings: Vec<String> = Vec::new();
    if avatar_duplicates.len() > 0 {
        warnings.push(
            String::from_str("아바타에 동일한 본 이름이 있어 매칭이 모호할 수 있습니다."),
        );
    }
    if clothing_duplicates.len() > 0 {
        warnings.push(
            String::from_str(
                "의상 본 이름 중복으로 이동/이름변경 결과가 불안정할 수 있습니다.",
            ),
        );
    }
    if input.clothing_smrs.len() == 0 {
        warnings.push(String::from_str("의상 SMR이 없어 병합 이동 대상이 없습니다."));
    }
    proof {
        listing_empty_iff(bone_names(input@.avatar_bones), texts(avatar_duplicates@));
        listing_empty_iff(bone_names(input@.clothing_bones), texts(clothing_duplicates@));
        assert(texts(warnings@) =~= warnings_of(input@));
        assert(Set::<Seq<char>>::empty().len() == 0);
        assert(Seq::<SmrView>::empty().len() == 0);
    }
    let referenced_clothing_bones = referenced.len();
    VrmReport {
        duplicate_avatar_bone_names: avatar_duplicates,
        duplicate_clothing_bone_names: clothing_duplicates,
        referenced_clothing_bones,
        estimated_moved_bones,
        estimated_moved_smrs: input.clothing_smrs.len(),
        estimated_renamed_bones,
        estimated_renamed_smrs,
        warnings,
    }
}

} // verus!
