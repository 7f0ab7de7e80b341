use tuckr_ui::hook::HookType;

#[test]
fn hook_labels() {
    assert_eq!(HookType::Pre.label(), "Pre");
    assert_eq!(HookType::Post.label(), "Post");
}

#[test]
fn hook_script_names_are_lower_case_with_extension() {
    assert_eq!(HookType::Pre.script_name(), "pre.sh");
    assert_eq!(HookType::Post.script_name(), "post.sh");
    assert_eq!(HookType::Pre.script_name(), format!("{}.sh", HookType::Pre.label().to_lowercase()));
    assert_eq!(HookType::Post.script_name(), format!("{}.sh", HookType::Post.label().to_lowercase()));
}

#[test]
fn new_hooks_run_after_deployment_by_default() {
    assert_eq!(HookType::default(), HookType::Post);
}
