use tuckr_ui::command::{help_page, Command};
use tuckr_ui::groups::{load_groups, DirEntry, Listing, ScanError};
use tuckr_ui::hook::HookType;
use tuckr_ui::page::{Page, PageKind};
use tuckr_ui::scheduler::STARTUP_TICK;
use tuckr_ui::session::{PersistedState, TemplateApp};

fn session_names(names: &[&str]) -> Vec<String> {
    names.iter().map(|name| name.to_string()).collect()
}

fn busy_session() -> TemplateApp<u32> {
    let mut session: TemplateApp<u32> = TemplateApp::new(None);
    session.groups = session_names(&["zsh", "git"]);
    session.found_groups = Some(session_names(&["zsh", "git", "vim"]));
    session.exclude = session_names(&["work"]);
    session.force = true;
    session.adopt = false;
    session.label = "zsh".to_string();
    session.output = "earlier output\n".to_string();
    session.opened_hook = Some("/dots/Hooks/zsh/post.sh".to_string());
    session.code = "echo done\n".to_string();
    session.dropped_files = session_names(&["/tmp/dropped"]);
    session.push_files = Some(session_names(&["/home/me/.zshrc"]));
    session.new_hook_type = HookType::Pre;
    session.select_page(PageKind::Add);
    session
}

#[test]
fn new_session_is_empty_on_the_help_page() {
    let session: TemplateApp<u32> = TemplateApp::new(None);
    assert_eq!(session.page, Page::Help);
    assert!(session.groups.is_empty());
    assert_eq!(session.found_groups, None);
    assert!(session.exclude.is_empty());
    assert!(!session.force);
    assert!(!session.adopt);
    assert_eq!(session.label, "");
    assert_eq!(session.output, "");
    assert_eq!(session.opened_hook, None);
    assert_eq!(session.code, "");
    assert!(session.dropped_files.is_empty());
    assert_eq!(session.push_files, None);
    assert_eq!(session.new_hook_type, HookType::Post);
    assert_eq!(session.refresh.tick(), STARTUP_TICK);
    assert!(!session.refresh.is_pending());
}

#[test]
fn default_session_is_the_new_one() {
    let session: TemplateApp<u32> = TemplateApp::default();
    assert_eq!(session.persisted(), TemplateApp::<u32>::new(None).persisted());
    assert_eq!(session.output, "");
    assert_eq!(session.refresh.tick(), STARTUP_TICK);
}

#[test]
fn selecting_a_page_takes_over_the_shared_fields() {
    let mut session = busy_session();
    session.select_page(PageKind::Add);
    assert_eq!(
        session.page,
        Page::Add { exclude: session_names(&["work"]), force: true, adopt: false }
    );
    session.select_page(PageKind::Remove);
    assert_eq!(session.page, Page::Remove { exclude: session_names(&["work"]) });
    session.select_page(PageKind::SetHooks);
    assert_eq!(
        session.page,
        Page::SetHooks { exclude: session_names(&["work"]), force: true, adopt: false }
    );
    session.select_page(PageKind::Push);
    assert_eq!(session.page, Page::Push { files: Some(session_names(&["/home/me/.zshrc"])) });
    session.select_page(PageKind::Help);
    assert_eq!(session.page, Page::Help);
    session.select_page(PageKind::Status);
    assert_eq!(session.page, Page::Status);
    session.select_page(PageKind::Pop);
    assert_eq!(session.page, Page::Pop);
    session.select_page(PageKind::Init);
    assert_eq!(session.page, Page::Init);
    session.select_page(PageKind::EditHooks);
    assert_eq!(session.page, Page::EditHooks);
}

#[test]
fn selecting_a_page_changes_nothing_else() {
    let mut session = busy_session();
    let before = session.persisted();
    session.select_page(PageKind::Pop);
    let after = session.persisted();
    assert_eq!(after.page, Page::Pop);
    assert_eq!(after.groups, before.groups);
    assert_eq!(after.found_groups, before.found_groups);
    assert_eq!(after.exclude, before.exclude);
    assert_eq!(after.force, before.force);
    assert_eq!(after.adopt, before.adopt);
    assert_eq!(after.label, before.label);
    assert_eq!(after.push_files, before.push_files);
    assert_eq!(session.output, "earlier output\n");
    assert_eq!(session.dropped_files, session_names(&["/tmp/dropped"]));
}

#[test]
fn shared_fields_survive_switching_pages() {
    let mut session = busy_session();
    session.select_page(PageKind::Add);
    session.select_page(PageKind::Status);
    session.select_page(PageKind::SetHooks);
    assert_eq!(
        session.page,
        Page::SetHooks { exclude: session_names(&["work"]), force: true, adopt: false }
    );
    assert_eq!(session.exclude, session_names(&["work"]));
    assert!(session.force);
    assert!(!session.adopt);
}

#[test]
fn an_open_page_keeps_its_parameters_when_the_session_changes() {
    let mut session = busy_session();
    session.select_page(PageKind::Add);
    session.force = false;
    session.exclude.push("more".to_string());
    assert_eq!(
        session.page,
        Page::Add { exclude: session_names(&["work"]), force: true, adopt: false }
    );
}

#[test]
fn nothing_selected_resolves_to_all_groups() {
    let session: TemplateApp<u32> = TemplateApp::new(None);
    assert_eq!(session.resolved_groups(), session_names(&["*"]));
}

#[test]
fn a_selection_resolves_to_itself() {
    let session = busy_session();
    assert_eq!(session.resolved_groups(), session_names(&["zsh", "git"]));
}

#[test]
fn execute_add_end_to_end() {
    let mut session: TemplateApp<u32> = TemplateApp::new(None);
    session.exclude = session_names(&["work"]);
    session.force = true;
    session.adopt = false;
    session.groups = session_names(&["zsh", "git"]);
    session.select_page(PageKind::Add);
    let command = session.execute();
    assert_eq!(
        command,
        Some(Command::Add {
            groups: session_names(&["zsh", "git"]),
            exclude: session_names(&["work"]),
            force: true,
            adopt: false,
        })
    );
    assert_eq!(session.output, "");
    assert_eq!(session.label, "");
}

#[test]
fn execute_without_selection_runs_on_all_groups() {
    let mut session: TemplateApp<u32> = TemplateApp::new(None);
    session.select_page(PageKind::Pop);
    assert_eq!(session.execute(), Some(Command::Pop { groups: session_names(&["*"]) }));
}

#[test]
fn execute_help_logs_the_help_text() {
    let mut session = busy_session();
    session.select_page(PageKind::Help);
    assert_eq!(session.execute(), None);
    assert_eq!(session.output, format!("earlier output\n{}", help_page()));
    assert_eq!(session.label, "zsh");
}

#[test]
fn execute_push_without_files_logs_and_prompts() {
    let mut session: TemplateApp<u32> = TemplateApp::new(None);
    session.select_page(PageKind::Push);
    assert_eq!(session.page, Page::Push { files: None });
    assert_eq!(session.execute(), None);
    assert_eq!(session.output, "select a path");
    assert_eq!(session.label, "select a path");
}

#[test]
fn execute_appends_to_the_log() {
    let mut session: TemplateApp<u32> = TemplateApp::new(None);
    session.select_page(PageKind::Push);
    assert_eq!(session.execute(), None);
    assert_eq!(session.execute(), None);
    assert_eq!(session.output, "select a pathselect a path");
}

#[test]
fn execute_push_goes_into_the_first_selected_group() {
    let mut session = busy_session();
    session.pick_push_files(session_names(&["/home/me/.gitconfig"]));
    assert_eq!(
        session.execute(),
        Some(Command::Push {
            group: "zsh".to_string(),
            files: session_names(&["/home/me/.gitconfig"]),
        })
    );
    assert_eq!(session.output, "earlier output\n");
}

#[test]
fn execute_push_without_selection_goes_into_all_groups_name() {
    let mut session: TemplateApp<u32> = TemplateApp::new(None);
    session.pick_push_files(Vec::new());
    assert_eq!(
        session.execute(),
        Some(Command::Push { group: "*".to_string(), files: Vec::new() })
    );
}

#[test]
fn execute_hook_editor_logs_without_prompt() {
    let mut session = busy_session();
    session.select_page(PageKind::EditHooks);
    assert_eq!(session.execute(), None);
    assert_eq!(session.output, "earlier output\nediter");
    assert_eq!(session.label, "zsh");
}

#[test]
fn execute_status_reports_on_everything() {
    let mut session = busy_session();
    session.select_page(PageKind::Status);
    assert_eq!(session.execute(), Some(Command::Status { groups: None }));
}

#[test]
fn execute_leaves_the_page_open() {
    let mut session = busy_session();
    let before = session.persisted();
    let _ = session.execute();
    assert_eq!(session.persisted(), before);
}

#[test]
fn append_output_appends_verbatim() {
    let mut session: TemplateApp<u32> = TemplateApp::new(None);
    session.append_output("first\n");
    session.append_output("");
    session.append_output("second");
    assert_eq!(session.output, "first\nsecond");
}

#[test]
fn failed_scan_keeps_the_found_groups_and_logs() {
    let mut session = busy_session();
    session.merge_scan_result(Err(ScanError::NoSetupFolder), "no dotfiles\n".to_string());
    assert_eq!(session.found_groups, Some(session_names(&["zsh", "git", "vim"])));
    assert_eq!(session.output, "earlier output\nno dotfiles\n");
    assert_eq!(session.groups, session_names(&["zsh", "git"]));
}

#[test]
fn failed_first_scan_leaves_no_found_groups() {
    let mut session: TemplateApp<u32> = TemplateApp::new(None);
    session.merge_scan_result(Err(ScanError::NoSetupFolder), "nothing".to_string());
    assert_eq!(session.found_groups, None);
    assert_eq!(session.output, "nothing");
}

#[test]
fn good_scan_replaces_the_found_groups() {
    let mut session = busy_session();
    session.merge_scan_result(Ok(session_names(&["sway"])), String::new());
    assert_eq!(session.found_groups, Some(session_names(&["sway"])));
    assert_eq!(session.output, "earlier output\n");
}

#[test]
fn good_scan_does_not_select() {
    let mut session: TemplateApp<u32> = TemplateApp::new(None);
    session.merge_scan_result(Ok(session_names(&["a", "b"])), "scanned".to_string());
    assert_eq!(session.found_groups, Some(session_names(&["a", "b"])));
    assert!(session.groups.is_empty());
    assert_eq!(session.output, "scanned");
}

#[test]
fn good_scan_may_find_nothing() {
    let mut session = busy_session();
    session.merge_scan_result(Ok(Vec::new()), String::new());
    assert_eq!(session.found_groups, Some(Vec::new()));
}

#[test]
fn merge_leaves_the_scheduler_alone() {
    let mut session: TemplateApp<u32> = TemplateApp::new(None);
    assert!(session.refresh.maybe_launch(0, || 9));
    session.refresh.tick_once();
    session.merge_scan_result(Ok(Vec::new()), "x".to_string());
    assert_eq!(session.refresh.tick(), 1);
    assert_eq!(session.refresh.pending(), Some(&9));
}

#[test]
fn picked_files_open_a_push_page() {
    let mut session = busy_session();
    session.pick_push_files(session_names(&["/a", "/b"]));
    assert_eq!(session.page, Page::Push { files: Some(session_names(&["/a", "/b"])) });
    assert_eq!(session.push_files, None);
    session.select_page(PageKind::Add);
    session.select_page(PageKind::Push);
    assert_eq!(session.page, Page::Push { files: None });
}

#[test]
fn open_hook_decodes_the_file() {
    let mut session: TemplateApp<u32> = TemplateApp::new(None);
    let contents = "#!/bin/sh\necho héllo ✓\n".as_bytes().to_vec();
    session.open_hook("/dots/Hooks/zsh/pre.sh".to_string(), &contents);
    assert_eq!(session.opened_hook, Some("/dots/Hooks/zsh/pre.sh".to_string()));
    assert_eq!(session.code, "#!/bin/sh\necho héllo ✓\n");
}

#[test]
fn open_hook_replaces_invalid_bytes() {
    let mut session: TemplateApp<u32> = TemplateApp::new(None);
    let contents = vec![b'o', b'k', 0xff, b'!'];
    session.open_hook("broken.sh".to_string(), &contents);
    assert_eq!(session.code, "ok\u{fffd}!");
    assert_eq!(session.opened_hook, Some("broken.sh".to_string()));
}

#[test]
fn open_hook_of_an_empty_file() {
    let mut session = busy_session();
    session.open_hook("empty.sh".to_string(), &Vec::new());
    assert_eq!(session.code, "");
    assert_eq!(session.opened_hook, Some("empty.sh".to_string()));
    assert_eq!(session.output, "earlier output\n");
}

#[test]
fn show_hook_sets_path_and_text() {
    let mut session = busy_session();
    session.show_hook("new.sh".to_string(), "true\n".to_string());
    assert_eq!(session.opened_hook, Some("new.sh".to_string()));
    assert_eq!(session.code, "true\n");
    assert_eq!(session.label, "zsh");
}

#[test]
fn nothing_to_save_without_an_open_hook() {
    let mut session: TemplateApp<u32> = TemplateApp::new(None);
    session.code = "unsaved".to_string();
    assert_eq!(session.hook_to_save(), None);
}

#[test]
fn open_hook_is_saved_under_its_path() {
    let session = busy_session();
    let path = "/dots/Hooks/zsh/post.sh".to_string();
    let code = "echo done\n".to_string();
    assert_eq!(session.hook_to_save(), Some((&path, &code)));
}

#[test]
fn saving_is_logged() {
    let mut session = busy_session();
    session.hook_saved(Ok(()));
    assert_eq!(session.output, "earlier output\nsaved");
    session.hook_saved(Err("permission denied".to_string()));
    assert_eq!(session.output, "earlier output\nsavedpermission denied");
}

#[test]
fn dropped_files_replace_the_remembered_ones() {
    let mut session = busy_session();
    session.collect_dropped(session_names(&["/x", "/y"]));
    assert_eq!(session.dropped_files, session_names(&["/x", "/y"]));
}

#[test]
fn an_update_without_a_drop_keeps_the_remembered_files() {
    let mut session = busy_session();
    session.collect_dropped(Vec::new());
    assert_eq!(session.dropped_files, session_names(&["/tmp/dropped"]));
}

#[test]
fn groups_line_lists_the_found_groups() {
    let session = busy_session();
    assert_eq!(session.groups_line(), "zsh, git, vim");
    assert_eq!(session.found_groups, Some(session_names(&["zsh", "git", "vim"])));
}

#[test]
fn groups_line_is_empty_while_nothing_is_known() {
    let mut session: TemplateApp<u32> = TemplateApp::new(None);
    assert_eq!(session.groups_line(), "");
    session.found_groups = Some(Vec::new());
    assert_eq!(session.groups_line(), "");
    session.found_groups = Some(session_names(&["one"]));
    assert_eq!(session.groups_line(), "one");
}

#[test]
fn persisted_part_holds_what_is_saved() {
    let session = busy_session();
    assert_eq!(
        session.persisted(),
        PersistedState {
            page: Page::Add { exclude: session_names(&["work"]), force: true, adopt: false },
            groups: session_names(&["zsh", "git"]),
            found_groups: Some(session_names(&["zsh", "git", "vim"])),
            exclude: session_names(&["work"]),
            force: true,
            adopt: false,
            label: "zsh".to_string(),
            opened_hook: Some("/dots/Hooks/zsh/post.sh".to_string()),
            code: "echo done\n".to_string(),
            push_files: Some(session_names(&["/home/me/.zshrc"])),
            new_hook_type: HookType::Pre,
        }
    );
}

#[test]
fn restore_brings_back_the_saved_part_and_resets_the_rest() {
    let mut session = busy_session();
    assert!(session.refresh.maybe_launch(0, || 3));
    session.refresh.tick_once();
    let saved = session.persisted();
    let restored: TemplateApp<u32> = TemplateApp::restore(session.persisted());
    assert_eq!(restored.persisted(), saved);
    assert_eq!(restored.page, session.page);
    assert_eq!(restored.groups, session.groups);
    assert_eq!(restored.found_groups, session.found_groups);
    assert_eq!(restored.exclude, session.exclude);
    assert_eq!(restored.force, session.force);
    assert_eq!(restored.adopt, session.adopt);
    assert_eq!(restored.label, session.label);
    assert_eq!(restored.opened_hook, session.opened_hook);
    assert_eq!(restored.code, session.code);
    assert_eq!(restored.push_files, session.push_files);
    assert_eq!(restored.new_hook_type, session.new_hook_type);
    assert_eq!(restored.output, "");
    assert!(restored.dropped_files.is_empty());
    assert_eq!(restored.refresh.tick(), STARTUP_TICK);
    assert!(!restored.refresh.is_pending());
}

#[test]
fn restore_of_a_new_session_is_a_new_session() {
    let fresh: TemplateApp<u32> = TemplateApp::new(None);
    let restored: TemplateApp<u32> = TemplateApp::restore(fresh.persisted());
    assert_eq!(restored.persisted(), fresh.persisted());
    assert_eq!(restored.page, Page::Help);
    assert_eq!(restored.output, "");
}

#[test]
fn a_panel_opens_with_what_was_saved() {
    let saved = busy_session().persisted();
    let opened: TemplateApp<u32> = TemplateApp::new(Some(busy_session().persisted()));
    assert_eq!(opened.persisted(), saved);
    assert_eq!(opened.output, "");
    assert!(opened.dropped_files.is_empty());
    assert_eq!(opened.refresh.tick(), STARTUP_TICK);
    assert!(!opened.refresh.is_pending());
}

#[test]
fn a_panel_opens_anew_when_nothing_was_saved() {
    let opened: TemplateApp<u32> = TemplateApp::new(None);
    let fresh: TemplateApp<u32> = TemplateApp::default();
    assert_eq!(opened.persisted(), fresh.persisted());
    assert_eq!(opened.page, Page::Help);
}

/// A stand-in for a scan beside the panel: done once the panel has counted
/// `done_at` updates.
#[derive(Debug)]
struct SlowScan {
    done_at: u32,
    report: (Result<Vec<String>, ScanError>, String),
}

fn harvest_when_done(session: &mut TemplateApp<SlowScan>) -> bool {
    let ticks = session.refresh.tick();
    let finished = session.refresh.pending().is_some_and(|scan| ticks >= scan.done_at);
    match session.refresh.try_harvest(finished) {
        Some(scan) => {
            let (found, diagnostic) = scan.report;
            session.merge_scan_result(found, diagnostic);
            true
        }
        None => false,
    }
}

#[test]
fn a_scan_is_merged_once_it_is_done() {
    let mut session: TemplateApp<SlowScan> = TemplateApp::new(None);
    session.refresh.request_refresh(10);
    let launched = session.refresh.maybe_launch(10, || {
        let listing = Listing::Entries(vec![
            DirEntry { name: "zsh".to_string(), is_dir: true },
            DirEntry { name: "notes".to_string(), is_dir: false },
        ]);
        SlowScan { done_at: 3, report: (load_groups(listing), "scanned\n".to_string()) }
    });
    assert!(launched);
    for update in 1..=2u32 {
        session.refresh.tick_once();
        assert!(!session.refresh.maybe_launch(0, || SlowScan {
            done_at: 0,
            report: (Ok(Vec::new()), String::new()),
        }));
        assert!(!harvest_when_done(&mut session));
        assert_eq!(session.refresh.tick(), update);
        assert_eq!(session.found_groups, None);
        assert_eq!(session.output, "");
    }
    session.refresh.tick_once();
    assert!(harvest_when_done(&mut session));
    assert_eq!(session.found_groups, Some(vec!["zsh".to_string()]));
    assert_eq!(session.output, "scanned\n");
    assert!(session.groups.is_empty());
    assert!(!session.refresh.is_pending());
    assert!(!harvest_when_done(&mut session));
}

#[test]
fn a_failed_scan_is_merged_without_losing_the_found_groups() {
    let mut session: TemplateApp<SlowScan> = TemplateApp::new(None);
    session.found_groups = Some(vec!["kept".to_string()]);
    assert!(session.refresh.maybe_launch(0, || SlowScan {
        done_at: 0,
        report: (load_groups(Listing::NoRoot), "no dotfiles".to_string()),
    }));
    assert!(harvest_when_done(&mut session));
    assert_eq!(session.found_groups, Some(vec!["kept".to_string()]));
    assert_eq!(session.output, "no dotfiles");
}
