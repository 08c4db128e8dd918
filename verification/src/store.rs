use vstd::prelude::*;
use vstd::string::StringExecFns;
use crate::text::{contains_sub, contains_str, ext_of, extension_of, ends_with,
    lemma_concat_ends_with};

verus! {

/// What a look at a path found: nothing, a directory, or some other
/// entry (a plain file, say).
#[derive(Clone, Copy, Debug, PartialEq, Eq, Structural)]
pub enum PathState {
    Missing,
    IsDirectory,
    IsOther,
}

/// What to do about a directory the store needs: create it, keep it, or
/// warn that a non-directory entry occupies the path — the occupant is
/// never destroyed.
#[derive(Clone, Copy, Debug, PartialEq, Eq, Structural)]
pub enum DirStep {
    Create,
    Keep,
    WarnOccupied,
}

/// Decides how to ensure a needed directory exists: an absent path is
/// created, an existing directory is kept, and anything else is flagged
/// without being overwritten.
pub fn dir_step(state: PathState) -> (a: DirStep)
    ensures
        state is Missing ==> a is Create,
        state is IsDirectory ==> a is Keep,
        state is IsOther ==> a is WarnOccupied,
{
    match state {
        PathState::Missing => DirStep::Create,
        PathState::IsDirectory => DirStep::Keep,
        PathState::IsOther => DirStep::WarnOccupied,
    }
}

/// A store operation that could not be planned: a scratch file without
/// an extension, or an image URI of no recognized image type.
#[derive(Debug, Clone)]
pub enum StoreError {
    MissingExtension(String),
    UnknownImageType(String),
}

/// The scratch directory under the storage root.
pub open spec fn scratch_dir(root: Seq<char>) -> Seq<char> {
    root + "/generated"@
}

/// The path of a file inside the scratch directory.
pub open spec fn scratch_file(root: Seq<char>, name: Seq<char>) -> Seq<char> {
    scratch_dir(root) + "/"@ + name
}

/// The directory of a named slot under the storage root.
pub open spec fn slot_dir(root: Seq<char>, slot: Seq<char>) -> Seq<char> {
    root + "/"@ + slot
}

/// The path of a slot's artifact of the given extension: the file is
/// renamed to the slot's own name, keeping the extension.
pub open spec fn slot_file(root: Seq<char>, slot: Seq<char>, ext: Seq<char>) -> Seq<char> {
    slot_dir(root, slot) + "/"@ + slot + "."@ + ext
}

/// Builds the slot directory path.
pub fn slot_dir_path(root: &str, slot: &str) -> (p: String)
    ensures
        p@ == slot_dir(root@, slot@),
{
    let mut p = root.to_owned();
    p.append("/");
    p.append(slot);
    p
}

/// Builds the path of a slot's artifact of the given extension.
pub fn slot_file_path(root: &str, slot: &str, ext: &str) -> (p: String)
    ensures
        p@ == slot_file(root@, slot@, ext@),
{
    let mut p = slot_dir_path(root, slot);
    p.append("/");
    p.append(slot);
    p.append(".");
    p.append(ext);
    proof {
        assert(p@ =~= slot_file(root@, slot@, ext@));
    }
    p
}

/// Builds the scratch directory path.
pub fn scratch_dir_path(root: &str) -> (p: String)
    ensures
        p@ == scratch_dir(root@),
{
    let mut p = root.to_owned();
    p.append("/generated");
    p
}

/// One file copy a save performs: source in the scratch directory,
/// destination in the slot directory.
#[derive(Debug, Clone)]
pub struct CopyOp {
    pub src: String,
    pub dest: String,
}

/// The first position at or after `i` of a scratch file name without an
/// extension, if any.
pub open spec fn first_missing_ext(files: Seq<String>, i: int) -> Option<int>
    decreases files.len() - i + 1,
{
    if i < 0 || i >= files.len() {
        None
    } else if ext_of(files[i]@) is None {
        Some(i)
    } else {
        first_missing_ext(files, i + 1)
    }
}

/// Plans a save: every file found in the scratch directory is copied
/// into the slot's directory under the slot's own name with the file's
/// original extension kept. A scratch file without an extension fails
/// the plan; the first such file is named.
pub fn save_plan(root: &str, slot: &str, files: &Vec<String>) -> (r: Result<
    Vec<CopyOp>,
    StoreError,
>)
    ensures
        r is Ok <==> first_missing_ext(files@, 0) is None,
        r matches Ok(ops) ==> {
            &&& ops@.len() == files@.len()
            &&& forall|i: int|
                0 <= i < files@.len() ==> (#[trigger] ops@[i]).src@ == scratch_file(
                    root@,
                    files@[i]@,
                )
            &&& forall|i: int| 0 <= i < files@.len() ==> ext_of((#[trigger] files@[i])@) is Some
            &&& forall|i: int|
                0 <= i < files@.len() ==> (#[trigger] ops@[i]).dest@ == slot_file(
                    root@,
                    slot@,
                    ext_of(files@[i]@)->0,
                )
        },
        r matches Err(e) ==> (first_missing_ext(files@, 0) matches Some(j)
            && (e matches StoreError::MissingExtension(n) && n@ == files@[j]@)),
{
    let mut ops: Vec<CopyOp> = Vec::new();
    let scratch = scratch_dir_path(root);
    let mut i: usize = 0;
    while i < files.len()
        invariant
            0 <= i <= files@.len(),
            scratch@ == scratch_dir(root@),
            first_missing_ext(files@, 0) == first_missing_ext(files@, i as int),
            ops@.len() == i,
            forall|j: int|
                0 <= j < i ==> (#[trigger] ops@[j]).src@ == scratch_file(root@, files@[j]@),
            forall|j: int| 0 <= j < i ==> ext_of((#[trigger] files@[j])@) is Some,
            forall|j: int|
                0 <= j < i ==> (#[trigger] ops@[j]).dest@ == slot_file(
                    root@,
                    slot@,
                    ext_of(files@[j]@)->0,
                ),
        decreases files@.len() - i,
    {
        let name = &files[i];
        match extension_of(name.as_str()) {
            Some(ext) => {
                let mut src = scratch.clone();
                src.append("/");
                src.append(name.as_str());
                let dest = slot_file_path(root, slot, ext.as_str());
                proof {
                    assert(src@ =~= scratch_file(root@, files@[i as int]@));
                    assert(ext_of(files@[i as int]@) == Some(ext@));
                    assert(dest@ == slot_file(root@, slot@, ext_of(files@[i as int]@)->0));
                }
                let ghost prev = ops@;
                ops.push(CopyOp { src, dest });
                proof {
                    assert forall|j: int|
                        0 <= j < i + 1 implies (#[trigger] ops@[j]).dest@ == slot_file(
                        root@,
                        slot@,
                        ext_of(files@[j]@)->0,
                    ) by {
                        if j < i as int {
                            assert(ops@[j] == prev[j]);
                        } else {
                            assert(ops@[j].dest@ == dest@);
                        }
                    }
                }
            },
            None => {
                return Err(StoreError::MissingExtension(name.clone()));
            },
        }
        i = i + 1;
    }
    Ok(ops)
}

/// Which of the three recognized artifact types a slot holds: an image
/// as jpg or png, and a theme definition as yml.
#[derive(Clone, Copy, Debug, PartialEq, Eq, Structural)]
pub struct SlotContents {
    pub jpg: bool,
    pub png: bool,
    pub yml: bool,
}

/// One external action a load dispatches: set the wallpaper to an image
/// path, or apply the theme definition at a path.
#[derive(Debug, Clone)]
pub enum LoadAction {
    SetWallpaper(String),
    ApplyTheme(String),
}

/// The mathematical value of a load action.
pub enum LoadActionV {
    SetWallpaper(Seq<char>),
    ApplyTheme(Seq<char>),
}

impl View for LoadAction {
    type V = LoadActionV;

    open spec fn view(&self) -> LoadActionV {
        match self {
            LoadAction::SetWallpaper(p) => LoadActionV::SetWallpaper(p@),
            LoadAction::ApplyTheme(p) => LoadActionV::ApplyTheme(p@),
        }
    }
}

/// The values of a sequence of load actions.
pub open spec fn actions_view(s: Seq<LoadAction>) -> Seq<LoadActionV> {
    s.map_values(|a: LoadAction| a@)
}

/// The actions a load of the given slot dispatches, in the fixed order
/// jpg, png, yml: one per artifact the slot holds, none for an artifact
/// it lacks.
pub open spec fn load_plan_spec(root: Seq<char>, slot: Seq<char>, p: SlotContents) -> Seq<
    LoadActionV,
> {
    (if p.jpg {
        seq![LoadActionV::SetWallpaper(slot_file(root, slot, "jpg"@))]
    } else {
        Seq::empty()
    }) + (if p.png {
        seq![LoadActionV::SetWallpaper(slot_file(root, slot, "png"@))]
    } else {
        Seq::empty()
    }) + (if p.yml {
        seq![LoadActionV::ApplyTheme(slot_file(root, slot, "yml"@))]
    } else {
        Seq::empty()
    })
}

/// Plans a load: for each artifact the slot holds, in the fixed order
/// jpg, png, yml, the action that restores it; an artifact the slot
/// lacks is skipped without error.
pub fn load_plan(root: &str, slot: &str, present: SlotContents) -> (acts: Vec<LoadAction>)
    ensures
        actions_view(acts@) == load_plan_spec(root@, slot@, present),
{
    let mut acts: Vec<LoadAction> = Vec::new();
    if present.jpg {
        acts.push(LoadAction::SetWallpaper(slot_file_path(root, slot, "jpg")));
    }
    if present.png {
        acts.push(LoadAction::SetWallpaper(slot_file_path(root, slot, "png")));
    }
    if present.yml {
        acts.push(LoadAction::ApplyTheme(slot_file_path(root, slot, "yml")));
    }
    proof {
        assert(actions_view(acts@) =~= load_plan_spec(root@, slot@, present));
    }
    acts
}

/// The image extension a URI implies: `.jpg` when the URI holds that
/// token, else `.png` when it holds that one, else unknown.
pub open spec fn inferred_image_ext(uri: Seq<char>) -> Option<Seq<char>> {
    if contains_sub(uri, ".jpg"@) {
        Some(".jpg"@)
    } else if contains_sub(uri, ".png"@) {
        Some(".png"@)
    } else {
        None
    }
}

/// The scratch files a download writes: the image under the fixed
/// `generated` name with its inferred extension, and the theme
/// definition beside it.
#[derive(Debug, Clone)]
pub struct DownloadTargets {
    pub theme_path: String,
    pub image_path: String,
}

/// Plans where a fetched image and its theme definition are written: in
/// the scratch directory, under the fixed `generated` name, the image
/// keeping the extension its URI implies. A URI of no recognized image
/// type is a named error.
pub fn download_targets(root: &str, image_uri: &str) -> (r: Result<DownloadTargets, StoreError>)
    ensures
        r is Ok <==> inferred_image_ext(image_uri@) is Some,
        r matches Ok(t) ==> (inferred_image_ext(image_uri@) matches Some(e)
            && t.image_path@ == scratch_dir(root@) + "/generated"@ + e
            && t.theme_path@ == scratch_dir(root@) + "/generated.yml"@),
        r matches Err(err) ==> (err matches StoreError::UnknownImageType(u) && u@
            == image_uri@),
{
    let scratch = scratch_dir_path(root);
    let mut theme_path = scratch.clone();
    theme_path.append("/generated.yml");
    let mut image_path = scratch;
    image_path.append("/generated");
    if contains_str(image_uri, ".jpg") {
        image_path.append(".jpg");
        proof {
            assert(image_path@ =~= scratch_dir(root@) + "/generated"@ + ".jpg"@);
        }
        Ok(DownloadTargets { theme_path, image_path })
    } else if contains_str(image_uri, ".png") {
        image_path.append(".png");
        proof {
            assert(image_path@ =~= scratch_dir(root@) + "/generated"@ + ".png"@);
        }
        Ok(DownloadTargets { theme_path, image_path })
    } else {
        Err(StoreError::UnknownImageType(image_uri.to_owned()))
    }
}

/// Law: a slot saved and then loaded restores what was saved. A scratch
/// file whose extension is jpg is copied by the save plan to the slot's
/// own `<slot>.jpg` path; when the slot holds that artifact at load
/// time, the load plan hands the wallpaper-setter exactly that path —
/// one that ends with `<slot>.jpg` — and likewise for png, and for yml
/// with the theme-apply action. The plan holds exactly one action per
/// artifact the slot holds: an absent artifact is skipped without
/// error, yielding no action at all of its kind.
pub proof fn lemma_save_load_round_trip(root: Seq<char>, slot: Seq<char>, p: SlotContents)
    ensures
        p.jpg ==> load_plan_spec(root, slot, p).contains(
            LoadActionV::SetWallpaper(slot_file(root, slot, "jpg"@)),
        ),
        p.png ==> load_plan_spec(root, slot, p).contains(
            LoadActionV::SetWallpaper(slot_file(root, slot, "png"@)),
        ),
        p.yml ==> load_plan_spec(root, slot, p).contains(
            LoadActionV::ApplyTheme(slot_file(root, slot, "yml"@)),
        ),
        ends_with(slot_file(root, slot, "jpg"@), slot + "."@ + "jpg"@),
        ends_with(slot_file(root, slot, "png"@), slot + "."@ + "png"@),
        ends_with(slot_file(root, slot, "yml"@), slot + "."@ + "yml"@),
        load_plan_spec(root, slot, p).len() == (if p.jpg { 1int } else { 0int })
            + (if p.png { 1int } else { 0int }) + (if p.yml { 1int } else { 0int }),
        !p.yml ==> forall|k: int|
            0 <= k < load_plan_spec(root, slot, p).len() ==> !(load_plan_spec(
                root,
                slot,
                p,
            )[k] is ApplyTheme),
        !p.jpg && !p.png ==> forall|k: int|
            0 <= k < load_plan_spec(root, slot, p).len() ==> !(load_plan_spec(
                root,
                slot,
                p,
            )[k] is SetWallpaper),
{
    let plan = load_plan_spec(root, slot, p);
    if p.jpg {
        assert(plan[0] == LoadActionV::SetWallpaper(slot_file(root, slot, "jpg"@)));
    }
    if p.png {
        let idx: int = if p.jpg { 1 } else { 0 };
        assert(plan[idx] == LoadActionV::SetWallpaper(slot_file(root, slot, "png"@)));
    }
    if p.yml {
        let idx: int = (if p.jpg { 1int } else { 0int }) + (if p.png { 1int } else { 0int });
        assert(plan[idx] == LoadActionV::ApplyTheme(slot_file(root, slot, "yml"@)));
    }
    lemma_concat_ends_with(slot_dir(root, slot) + "/"@, slot + "."@ + "jpg"@);
    assert(slot_file(root, slot, "jpg"@) =~= (slot_dir(root, slot) + "/"@) + (slot + "."@
        + "jpg"@));
    lemma_concat_ends_with(slot_dir(root, slot) + "/"@, slot + "."@ + "png"@);
    assert(slot_file(root, slot, "png"@) =~= (slot_dir(root, slot) + "/"@) + (slot + "."@
        + "png"@));
    lemma_concat_ends_with(slot_dir(root, slot) + "/"@, slot + "."@ + "yml"@);
    assert(slot_file(root, slot, "yml"@) =~= (slot_dir(root, slot) + "/"@) + (slot + "."@
        + "yml"@));
}

} // verus!
