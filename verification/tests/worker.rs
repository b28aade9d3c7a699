use image_mirror::action::CompressorAction;
use image_mirror::worker::{
    encode_step, move_step, removal, settle, Compressor, EntryKind, Failure, Removal, Step,
    Verdict, Worker,
};

fn target(dest: &str, quality: i32) -> Worker {
    Worker::new("temp".to_string(), dest.to_string(), Compressor::new(quality))
}

#[test]
fn create_is_encoded_from_source_into_mirror() {
    let w = target("outA", 50);
    let step = w.plan(&CompressorAction::Create("photos/x.jpg".to_string()));
    assert_eq!(
        step,
        Ok(Step::Encode {
            source: "temp/photos/x.jpg".to_string(),
            directory: "outA/photos".to_string(),
            destination: "outA/photos/x.jpg".to_string(),
        })
    );
}

#[test]
fn two_targets_plan_the_same_action_below_their_own_roots() {
    let a = target("outA", 50);
    let b = target("outB", 10);
    let action = CompressorAction::Create("photos/x.jpg".to_string());
    let step_a = a.plan(&action);
    let step_b = b.plan(&action);
    assert_ne!(step_a, step_b);
    assert_eq!(
        step_b,
        Ok(Step::Encode {
            source: "temp/photos/x.jpg".to_string(),
            directory: "outB/photos".to_string(),
            destination: "outB/photos/x.jpg".to_string(),
        })
    );
    assert_eq!(a.profile().quality(), 50);
    assert_eq!(b.profile().quality(), 10);
}

#[test]
fn planning_twice_gives_the_same_step() {
    let w = target("outA", 50);
    let action = CompressorAction::Create("a.jpg".to_string());
    assert_eq!(w.plan(&action), w.plan(&action));
}

#[test]
fn remove_targets_the_mirror_entry() {
    let w = target("outA", 50);
    assert_eq!(
        w.plan(&CompressorAction::Remove("photos/x.jpg".to_string())),
        Ok(Step::Remove { path: "outA/photos/x.jpg".to_string() })
    );
}

#[test]
fn rename_moves_inside_the_mirror() {
    let w = target("outB", 10);
    assert_eq!(
        w.plan(&CompressorAction::Rename("a.jpg".to_string(), "sub/b.jpg".to_string())),
        Ok(Step::Move {
            from: "outB/a.jpg".to_string(),
            directory: "outB/sub".to_string(),
            to: "outB/sub/b.jpg".to_string(),
        })
    );
}

#[test]
fn rename_at_top_level_has_the_root_as_directory() {
    let w = target("outA", 50);
    assert_eq!(
        w.plan(&CompressorAction::Rename("a.jpg".to_string(), "b.jpg".to_string())),
        Ok(Step::Move {
            from: "outA/a.jpg".to_string(),
            directory: "outA".to_string(),
            to: "outA/b.jpg".to_string(),
        })
    );
}

#[test]
fn destination_without_parent_fails_for_that_action_only() {
    let w = Worker::new("temp".to_string(), String::new(), Compressor::new(50));
    assert_eq!(w.plan(&CompressorAction::Create(String::new())), Err(Failure::NoParent));
    assert_eq!(
        w.plan(&CompressorAction::Rename("a.jpg".to_string(), String::new())),
        Err(Failure::NoParent)
    );
    assert_eq!(
        w.plan(&CompressorAction::Create("a.jpg".to_string())),
        Ok(Step::Encode {
            source: "temp/a.jpg".to_string(),
            directory: String::new(),
            destination: "a.jpg".to_string(),
        })
    );
}

#[test]
fn steps_from_given_paths() {
    assert_eq!(
        encode_step("s/a".to_string(), "d/a".to_string(), Some("d".to_string())),
        Ok(Step::Encode {
            source: "s/a".to_string(),
            directory: "d".to_string(),
            destination: "d/a".to_string(),
        })
    );
    assert_eq!(encode_step("s/a".to_string(), "/".to_string(), None), Err(Failure::NoParent));
    assert_eq!(
        move_step("d/a".to_string(), "d/b".to_string(), Some("d".to_string())),
        Ok(Step::Move { from: "d/a".to_string(), directory: "d".to_string(), to: "d/b".to_string() })
    );
    assert_eq!(move_step("d/a".to_string(), "/".to_string(), None), Err(Failure::NoParent));
}

#[test]
fn removal_by_kind() {
    assert_eq!(removal(EntryKind::Directory), Removal::Tree);
    assert_eq!(removal(EntryKind::File), Removal::File);
    assert_eq!(removal(EntryKind::Missing), Removal::Nothing);
}

#[test]
fn failures_never_stop_the_consumer() {
    assert_eq!(settle(Ok(())), Verdict::Proceed);
    assert_eq!(settle(Err(Failure::Codec)), Verdict::ReportAndProceed(Failure::Codec));
    assert_eq!(settle(Err(Failure::Io)), Verdict::ReportAndProceed(Failure::Io));
    assert_eq!(settle(Err(Failure::NoParent)), Verdict::ReportAndProceed(Failure::NoParent));
}

#[test]
fn action_clone_is_equal() {
    let a = CompressorAction::Rename("a".to_string(), "b".to_string());
    assert_eq!(a.clone(), a);
    let c = CompressorAction::Create("c".to_string());
    assert_eq!(c.clone(), c);
    let r = CompressorAction::Remove("r".to_string());
    assert_eq!(r.clone(), r);
    assert_ne!(c, CompressorAction::Remove("c".to_string()));
}
