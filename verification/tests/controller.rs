use nimble_gui::Action;
use nimble_gui::NimbleGui;
use nimble_gui::OpFailure;
use nimble_gui::PathField;

fn failure(detail: &str) -> Result<(), OpFailure> {
    Err(OpFailure { detail: detail.to_string() })
}

#[test]
fn fresh_session_is_empty() {
    let s = NimbleGui::default();
    assert_eq!(s.sync_repo_url, "");
    assert_eq!(s.sync_path, "");
    assert!(!s.sync_dry_run);
    assert_eq!(s.gen_srf_path, "");
    assert_eq!(s.launch_path, "");
    assert_eq!(s.message, None);
}

#[test]
fn show_message_fills_the_outcome_slot() {
    let mut s = NimbleGui::default();
    s.show_message("hello".to_string(), false);
    assert_eq!(s.message, Some(("hello".to_string(), false)));
    s.show_message("boom".to_string(), true);
    assert_eq!(s.message, Some(("boom".to_string(), true)));
}

#[test]
fn empty_sync_form_submits_empty_values() {
    let s = NimbleGui::default();
    let (url, path, dry_run) = s.sync_inputs();
    assert_eq!(url, "");
    assert_eq!(path, "");
    assert!(!dry_run);
}

#[test]
fn sync_success_outcome() {
    let mut s = NimbleGui::default();
    s.complete_action(Action::Sync, Ok(()));
    assert_eq!(s.message, Some(("Sync completed successfully".to_string(), false)));
}

#[test]
fn gen_srf_success_outcome() {
    let mut s = NimbleGui::default();
    s.complete_action(Action::GenSrf, Ok(()));
    assert_eq!(s.message, Some(("SRF generated successfully".to_string(), false)));
}

#[test]
fn launch_success_outcome() {
    let mut s = NimbleGui::default();
    s.complete_action(Action::Launch, Ok(()));
    assert_eq!(s.message, Some(("Launch completed successfully".to_string(), false)));
}

#[test]
fn sync_failure_embeds_detail() {
    let mut s = NimbleGui::default();
    s.complete_action(Action::Sync, failure("connection refused"));
    assert_eq!(s.message, Some(("Sync error: connection refused".to_string(), true)));
}

#[test]
fn gen_srf_failure_embeds_detail() {
    let mut s = NimbleGui::default();
    s.set_gen_srf_path("/tmp/project".to_string());
    s.complete_action(Action::GenSrf, failure("missing manifest"));
    assert_eq!(s.message, Some(("Gen SRF error: missing manifest".to_string(), true)));
    assert_eq!(s.gen_srf_path, "/tmp/project");
}

#[test]
fn launch_failure_embeds_detail() {
    let mut s = NimbleGui::default();
    s.complete_action(Action::Launch, failure("no such file"));
    assert_eq!(s.message, Some(("Launch error: no such file".to_string(), true)));
}

#[test]
fn completion_leaves_form_fields_alone() {
    let mut s = NimbleGui::default();
    s.set_sync_repo_url("https://example.org/repo".to_string());
    s.set_sync_path("/srv/mods".to_string());
    s.set_sync_dry_run(true);
    s.set_gen_srf_path("/srv/srf".to_string());
    s.set_launch_path("/srv/game".to_string());
    s.complete_action(Action::Sync, failure("timeout"));
    assert_eq!(s.sync_repo_url, "https://example.org/repo");
    assert_eq!(s.sync_path, "/srv/mods");
    assert!(s.sync_dry_run);
    assert_eq!(s.gen_srf_path, "/srv/srf");
    assert_eq!(s.launch_path, "/srv/game");
}

#[test]
fn repeating_a_completion_changes_nothing() {
    let mut once = NimbleGui::default();
    once.complete_action(Action::GenSrf, failure("missing manifest"));
    let first = once.message.clone();
    once.complete_action(Action::GenSrf, failure("missing manifest"));
    assert_eq!(once.message, first);
    assert_eq!(once.message, Some(("Gen SRF error: missing manifest".to_string(), true)));
}

#[test]
fn later_outcome_overwrites_earlier_one() {
    let mut s = NimbleGui::default();
    s.complete_action(Action::Sync, Ok(()));
    s.complete_action(Action::Launch, failure("no such file"));
    assert_eq!(s.message, Some(("Launch error: no such file".to_string(), true)));
    s.complete_action(Action::Launch, Ok(()));
    assert_eq!(s.message, Some(("Launch completed successfully".to_string(), false)));
}

#[test]
fn latest_edit_wins_and_groups_stay_apart() {
    let mut s = NimbleGui::default();
    s.set_gen_srf_path("/old/spot".to_string());
    s.set_sync_repo_url("https://first.example".to_string());
    s.set_sync_repo_url("https://second.example".to_string());
    s.set_sync_path("/srv/mods".to_string());
    let (url, path, dry_run) = s.sync_inputs();
    assert_eq!(url, "https://second.example");
    assert_eq!(path, "/srv/mods");
    assert!(!dry_run);
    assert_eq!(s.gen_srf_input(), "/old/spot");
    assert_eq!(s.launch_input(), "");
    assert_eq!(s.message, None);
}

#[test]
fn chosen_folder_overwrites_the_target_field() {
    let mut s = NimbleGui::default();
    s.set_launch_path("/somewhere/else".to_string());
    s.apply_folder_choice(PathField::LaunchPath, Some("/home/user/game".to_string()));
    assert_eq!(s.launch_input(), "/home/user/game");
    assert_eq!(s.sync_path, "");
    assert_eq!(s.gen_srf_path, "");
}

#[test]
fn canceled_pick_changes_nothing() {
    let mut s = NimbleGui::default();
    s.set_sync_path("/kept/just/so".to_string());
    s.apply_folder_choice(PathField::SyncPath, None);
    assert_eq!(s.sync_path, "/kept/just/so");
    assert_eq!(s.sync_repo_url, "");
    assert_eq!(s.message, None);
    s.apply_folder_choice(PathField::GenSrfPath, None);
    assert_eq!(s.gen_srf_path, "");
}

#[test]
fn picked_folder_reaches_submission_verbatim() {
    let mut s = NimbleGui::default();
    s.apply_folder_choice(PathField::LaunchPath, Some("/home/user/game".to_string()));
    let path = s.launch_input();
    assert_eq!(path, "/home/user/game");
    s.complete_action(Action::Launch, Ok(()));
    assert_eq!(s.launch_path, "/home/user/game");
}
