use std::collections::HashMap;
use wmde_comp::workspaces::{cleanup_tiling_drag, Workspaces};

fn session() -> Workspaces {
    Workspaces { active: HashMap::from([(1, 11), (2, 22)]), spaces: vec![11, 12, 22, 23] }
}

#[test]
fn an_output_that_is_there_is_cleaned_alone() {
    let cleanup = cleanup_tiling_drag(&session(), 1, Some(2));
    assert_eq!(cleanup.workspaces, vec![11]);
    assert!(!cleanup.swept);
}

#[test]
fn a_sweep_spares_the_workspace_that_the_drag_goes_on_in() {
    let cleanup = cleanup_tiling_drag(&session(), 3, Some(2));
    assert_eq!(cleanup.workspaces, vec![11, 12, 23]);
    assert!(cleanup.swept);
}

#[test]
fn the_last_sweep_spares_nothing() {
    let cleanup = cleanup_tiling_drag(&session(), 3, None);
    assert_eq!(cleanup.workspaces, vec![11, 12, 22, 23]);
    assert!(cleanup.swept);
    assert_eq!(cleanup_tiling_drag(&session(), 3, Some(4)).workspaces, vec![11, 12, 22, 23]);
    assert_eq!(session().active_space(2), Some(22));
    assert_eq!(session().active_space(3), None);
}
