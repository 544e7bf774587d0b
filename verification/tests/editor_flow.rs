use super_tux_showdown::anim::{AnimEnd, MirrorRule};
use super_tux_showdown::editor::{EditState, Editor, EditorEvent, PreliminaryTask};
use super_tux_showdown::selection::{click_outcome, ClickOutcome};

#[test]
fn full_setup_reaches_main() {
    let mut e = Editor::default();
    assert_eq!(e, Editor { state: EditState::NoMesh, task: None });
    e.handle(EditorEvent::MeshReady);
    assert_eq!(e, Editor { state: EditState::LoadingMesh, task: None });
    e.handle(EditorEvent::MeshLoaded);
    assert_eq!(e.task, Some(PreliminaryTask::SetName));
    e.handle(EditorEvent::NameCommitted);
    assert_eq!(e.task, Some(PreliminaryTask::ForwardFacing));
    e.handle(EditorEvent::Done);
    assert_eq!(e.task, Some(PreliminaryTask::RightFacing));
    e.handle(EditorEvent::Done);
    assert_eq!(e.task, Some(PreliminaryTask::LeftFacing));
    e.handle(EditorEvent::Done);
    assert_eq!(e, Editor { state: EditState::Main, task: None });
}

#[test]
fn events_out_of_place_are_ignored() {
    let mut e = Editor::default();
    e.handle(EditorEvent::MeshLoaded);
    e.handle(EditorEvent::Done);
    e.handle(EditorEvent::NameCommitted);
    assert_eq!(e, Editor::default());
    let mut s = Editor { state: EditState::PreliminarySetup, task: Some(PreliminaryTask::SetName) };
    s.handle(EditorEvent::Done);
    assert_eq!(s.task, Some(PreliminaryTask::SetName));
    let mut m = Editor { state: EditState::Main, task: None };
    m.handle(EditorEvent::MeshReady);
    assert_eq!(m, Editor { state: EditState::LoadingMesh, task: None });
}

#[test]
fn saving() {
    assert!(!EditState::NoMesh.can_save());
    assert!(!EditState::LoadingMesh.can_save());
    assert!(EditState::PreliminarySetup.can_save());
    assert!(EditState::Main.can_save());
    assert_eq!(EditState::PreliminarySetup.save_label(), "preliminary");
    assert_eq!(EditState::Main.save_label(), "main");
    assert_eq!(EditState::default(), EditState::NoMesh);
    assert_eq!(PreliminaryTask::default(), PreliminaryTask::SetName);
}

#[test]
fn animation_rules_hold_their_data() {
    let rule = MirrorRule::Separate { name: "idle_left".to_string() };
    assert!(matches!(rule, MirrorRule::Separate { ref name } if name == "idle_left"));
    let end = AnimEnd::Loop { frame: 3 };
    assert!(matches!(end, AnimEnd::Loop { frame: 3 }));
    assert!(matches!(MirrorRule::NoChange, MirrorRule::NoChange));
    assert!(matches!(AnimEnd::End, AnimEnd::End));
}

#[test]
fn debug_clicks() {
    assert_eq!(click_outcome(true, false), ClickOutcome::SelectPlayer);
    assert_eq!(click_outcome(true, true), ClickOutcome::SelectPlayer);
    assert_eq!(click_outcome(false, true), ClickOutcome::Swallow);
    assert_eq!(click_outcome(false, false), ClickOutcome::Deselect);
}
