use synth::resolution::parse_resolution;
use synth::store::{
    dir_step, download_targets, load_plan, save_plan, DirStep, LoadAction, PathState,
    SlotContents, StoreError,
};
use synth::text::extension_of;

#[test]
fn save_plan_renames_every_scratch_file() {
    let files = vec!["generated.jpg".to_owned(), "generated.yml".to_owned()];
    let ops = save_plan("/home/u/.synth", "alpha", &files).unwrap();
    assert_eq!(ops.len(), 2);
    assert_eq!(ops[0].src, "/home/u/.synth/generated/generated.jpg");
    assert_eq!(ops[0].dest, "/home/u/.synth/alpha/alpha.jpg");
    assert_eq!(ops[1].src, "/home/u/.synth/generated/generated.yml");
    assert_eq!(ops[1].dest, "/home/u/.synth/alpha/alpha.yml");
}

#[test]
fn save_plan_fails_on_a_file_without_extension() {
    let files = vec!["generated.jpg".to_owned(), "README".to_owned()];
    let e = save_plan("/r", "alpha", &files).unwrap_err();
    assert!(matches!(e, StoreError::MissingExtension(n) if n == "README"));
}

#[test]
fn dir_step_creates_missing_and_never_clobbers() {
    assert_eq!(dir_step(PathState::Missing), DirStep::Create);
    assert_eq!(dir_step(PathState::IsDirectory), DirStep::Keep);
    assert_eq!(dir_step(PathState::IsOther), DirStep::WarnOccupied);
}

#[test]
fn save_then_load_round_trip_restores_the_saved_names() {
    let files = vec!["generated.jpg".to_owned(), "generated.yml".to_owned()];
    let ops = save_plan("/r", "alpha", &files).unwrap();
    let dests: Vec<&str> = ops.iter().map(|o| o.dest.as_str()).collect();
    assert!(dests.contains(&"/r/alpha/alpha.jpg"));
    assert!(dests.contains(&"/r/alpha/alpha.yml"));

    // The slot now holds a jpg and a yml, no png: loading dispatches the
    // wallpaper-setter on the jpg and the theme-apply on the yml, and
    // skips the png without error.
    let present = SlotContents { jpg: true, png: false, yml: true };
    let acts = load_plan("/r", "alpha", present);
    assert_eq!(acts.len(), 2);
    match &acts[0] {
        LoadAction::SetWallpaper(p) => {
            assert!(p.ends_with("alpha.jpg"));
            assert_eq!(p, "/r/alpha/alpha.jpg");
        },
        other => panic!("expected a wallpaper action, got {:?}", other),
    }
    match &acts[1] {
        LoadAction::ApplyTheme(p) => assert_eq!(p, "/r/alpha/alpha.yml"),
        other => panic!("expected a theme action, got {:?}", other),
    }
}

#[test]
fn load_plan_of_an_empty_slot_does_nothing() {
    let acts = load_plan("/r", "alpha", SlotContents { jpg: false, png: false, yml: false });
    assert!(acts.is_empty());
}

#[test]
fn load_plan_keeps_the_fixed_artifact_order() {
    let acts = load_plan("/r", "beta", SlotContents { jpg: true, png: true, yml: true });
    assert_eq!(acts.len(), 3);
    assert!(matches!(&acts[0], LoadAction::SetWallpaper(p) if p == "/r/beta/beta.jpg"));
    assert!(matches!(&acts[1], LoadAction::SetWallpaper(p) if p == "/r/beta/beta.png"));
    assert!(matches!(&acts[2], LoadAction::ApplyTheme(p) if p == "/r/beta/beta.yml"));
}

#[test]
fn download_targets_keep_the_inferred_extension() {
    let t = download_targets("/r", "https://img/full/wall.jpg").unwrap();
    assert_eq!(t.image_path, "/r/generated/generated.jpg");
    assert_eq!(t.theme_path, "/r/generated/generated.yml");

    let t = download_targets("/r", "https://img/full/wall.png?x=1").unwrap();
    assert_eq!(t.image_path, "/r/generated/generated.png");

    // jpg wins when both tokens occur, as the first recognized type.
    let t = download_targets("/r", "https://img/wall.png/wall.jpg").unwrap();
    assert_eq!(t.image_path, "/r/generated/generated.jpg");
}

#[test]
fn download_targets_reject_an_unknown_image_type() {
    let e = download_targets("/r", "https://img/full/wall.gif").unwrap_err();
    assert!(matches!(e, StoreError::UnknownImageType(u) if u == "https://img/full/wall.gif"));
}

#[test]
fn extension_of_takes_the_text_after_the_last_dot() {
    assert_eq!(extension_of("generated.jpg").as_deref(), Some("jpg"));
    assert_eq!(extension_of("archive.tar.gz").as_deref(), Some("gz"));
    assert_eq!(extension_of("README"), None);
    assert_eq!(extension_of(".bashrc"), None);
}

#[test]
fn parse_resolution_reads_the_dimensions_token() {
    let output = "screen #0:\n  dimensions:    1920x1080 pixels (508x285 millimeters)\n";
    assert_eq!(parse_resolution(output).as_deref(), Some("1920x1080"));
}

#[test]
fn parse_resolution_rejects_output_without_dimensions() {
    assert_eq!(parse_resolution("no display found"), None);
    assert_eq!(parse_resolution("dimensions:"), None);
    assert_eq!(parse_resolution("dimensions:   "), None);
}

#[test]
fn load_plan_of_a_png_only_slot_sets_the_wallpaper_from_the_png() {
    let acts = load_plan("/r", "gamma", SlotContents { jpg: false, png: true, yml: false });
    assert_eq!(acts.len(), 1);
    assert!(matches!(&acts[0], LoadAction::SetWallpaper(p) if p.ends_with("gamma.png")));
}

#[test]
fn save_plan_of_an_empty_scratch_directory_copies_nothing() {
    let ops = save_plan("/r", "alpha", &Vec::new()).unwrap();
    assert!(ops.is_empty());
}
