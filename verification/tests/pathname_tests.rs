use oculus_symlink_cleaner::pathname::backup_path_for;
use oculus_symlink_cleaner::pathname::slot_path_for;
use oculus_symlink_cleaner::pathname::validate_target_path;

#[test]
fn accepts_expected_final_component() {
    assert!(validate_target_path("/opt/games/hyperbolic-magnetism-beat-saber"));
}

#[test]
fn accepts_windows_style_path() {
    assert!(validate_target_path("C:\\Games\\hyperbolic-magnetism-beat-saber"));
}

#[test]
fn accepts_bare_expected_name() {
    assert!(validate_target_path("hyperbolic-magnetism-beat-saber"));
}

#[test]
fn accepts_trailing_separator() {
    assert!(validate_target_path("/opt/games/hyperbolic-magnetism-beat-saber/"));
}

#[test]
fn rejects_other_final_component() {
    assert!(!validate_target_path("/opt/games/foo"));
}

#[test]
fn rejects_prefix_of_expected_name() {
    assert!(!validate_target_path("/opt/games/hyperbolic-magnetism-beat"));
}

#[test]
fn rejects_extended_expected_name() {
    assert!(!validate_target_path("/opt/games/hyperbolic-magnetism-beat-saber2"));
}

#[test]
fn rejects_backup_name() {
    assert!(!validate_target_path("/opt/games/hyperbolic-magnetism-beat-saber.bsmbak"));
}

#[test]
fn rejects_empty_path() {
    assert!(!validate_target_path(""));
}

#[test]
fn rejects_bare_root() {
    assert!(!validate_target_path("/"));
}

#[test]
fn rejects_name_hidden_by_separator() {
    assert!(!validate_target_path("/opt/hyperbolic-magnetism-beat-saber/sub"));
}

#[test]
fn backup_path_is_sibling_with_suffix() {
    assert_eq!(
        backup_path_for("/opt/games/hyperbolic-magnetism-beat-saber"),
        "/opt/games/hyperbolic-magnetism-beat-saber.bsmbak",
    );
}

#[test]
fn backup_path_on_windows_style_path() {
    assert_eq!(
        backup_path_for("C:\\Games\\hyperbolic-magnetism-beat-saber"),
        "C:\\Games\\hyperbolic-magnetism-beat-saber.bsmbak",
    );
}

#[test]
fn backup_path_of_bare_name() {
    assert_eq!(
        backup_path_for("hyperbolic-magnetism-beat-saber"),
        "hyperbolic-magnetism-beat-saber.bsmbak",
    );
}

#[test]
fn slot_path_is_the_target_itself() {
    assert_eq!(
        slot_path_for("/opt/games/hyperbolic-magnetism-beat-saber"),
        "/opt/games/hyperbolic-magnetism-beat-saber",
    );
}

#[test]
fn slot_path_strips_trailing_separator() {
    assert_eq!(
        slot_path_for("/opt/games/hyperbolic-magnetism-beat-saber//"),
        "/opt/games/hyperbolic-magnetism-beat-saber",
    );
}
