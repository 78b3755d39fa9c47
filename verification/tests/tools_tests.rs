use dev_cli::config::global::{GlobalConfig, Shell};
use dev_cli::editor::{get_editor, open, open_failed, Editor, GenericEditor, VSCodeEditor, ZedEditor};
use dev_cli::error::DevError;
use dev_cli::package_manager::{
    detect_package_manager, has_node_modules, has_package_json, install_dependencies,
    install_dependencies_command, PackageManager, ProjectFiles,
};
use dev_cli::process::{command_succeeded, CommandLine, CommandOutput};
use dev_cli::shell::devbox::{
    devbox_config_path, devbox_instructions, exec_devbox_shell, exec_devbox_shell_failed,
    get_devbox_shell_command, has_devbox_config, init_devbox, is_devbox_installed,
    is_devbox_installed_command,
};
use dev_cli::ui::output::{status_icon, status_label, status_tone, Tone};
use dev_cli::ui::prompts::{
    prompt_remote_branch_action, remote_branch_question, InitType, RemoteBranchAction,
};
use dev_cli::git::worktree::WorktreeStatus;

fn ok() -> CommandOutput {
    CommandOutput { success: true, stdout: String::new(), stderr: String::new() }
}

fn failed() -> CommandOutput {
    CommandOutput { success: false, stdout: String::new(), stderr: String::new() }
}

fn files() -> ProjectFiles {
    ProjectFiles {
        yarn_lock: false,
        pnpm_lock: false,
        package_lock: false,
        package_json: false,
        node_modules: false,
        devbox_json: false,
    }
}

fn config(editor: &str) -> GlobalConfig {
    GlobalConfig {
        editor: editor.into(),
        dev_path: "/w".into(),
        auto_install_deps: true,
        auto_devbox: true,
        shell: Shell::Zsh,
    }
}

#[test]
fn editors_by_name() {
    assert_eq!(get_editor("zed"), Editor::Zed(ZedEditor));
    assert_eq!(get_editor("ZED"), Editor::Zed(ZedEditor));
    assert_eq!(get_editor("code"), Editor::VSCode(VSCodeEditor));
    assert_eq!(get_editor("VSCode"), Editor::VSCode(VSCodeEditor));
    assert_eq!(get_editor("Vim"), Editor::Generic(GenericEditor("Vim".into())));
    assert_eq!(get_editor(""), Editor::Generic(GenericEditor("".into())));
    assert_eq!(get_editor("zed ").name(), "zed ");
}

#[test]
fn editor_names_and_commands() {
    assert_eq!(ZedEditor.name(), "Zed");
    assert_eq!(ZedEditor.command(), "zed");
    assert_eq!(VSCodeEditor.name(), "VSCode");
    assert_eq!(VSCodeEditor.command(), "code");
    assert_eq!(get_editor("zed").name(), "Zed");
    assert_eq!(get_editor("zed").command(), "zed");
    assert_eq!(get_editor("vscode").name(), "VSCode");
    assert_eq!(get_editor("vscode").command(), "code");
    assert_eq!(get_editor("Vim").name(), "Vim");
    assert_eq!(get_editor("Vim").command(), "Vim");
}

#[test]
fn opening_needs_an_installed_editor() {
    let editor = get_editor("code");
    let probe = editor.is_installed_command();
    assert_eq!(probe, CommandLine { program: "which".into(), args: vec!["code".into()], dir: None });
    assert!(editor.is_installed(Some(&ok())));
    assert!(!editor.is_installed(Some(&failed())));
    assert!(!editor.is_installed(None));
    assert_eq!(
        editor.open("/r/f", Some(&ok())).unwrap(),
        CommandLine { program: "code".into(), args: vec!["/r/f".into()], dir: None }
    );
    assert_eq!(
        editor.open("/r/f", Some(&failed())).unwrap_err(),
        DevError::EditorNotFound("VSCode".into())
    );
    assert_eq!(
        open("/r/f", &config("Zed"), None).unwrap_err(),
        DevError::EditorNotFound("Zed".into())
    );
    assert_eq!(
        open("/r/f", &config("hx"), Some(&ok())).unwrap(),
        CommandLine { program: "hx".into(), args: vec!["/r/f".into()], dir: None }
    );
    assert_eq!(
        open_failed("No such file"),
        DevError::Other("Failed to open editor: No such file".into())
    );
}

#[test]
fn package_manager_names() {
    assert_eq!(PackageManager::Npm.name(), "npm");
    assert_eq!(PackageManager::Yarn.name(), "yarn");
    assert_eq!(PackageManager::Pnpm.name(), "pnpm");
    assert_eq!(PackageManager::Npm.install_command(), "npm install");
    assert_eq!(PackageManager::Yarn.install_command(), "yarn install");
    assert_eq!(PackageManager::Pnpm.install_command(), "pnpm install");
}

#[test]
fn package_manager_by_lock_file() {
    assert_eq!(detect_package_manager(&files()), None);
    assert_eq!(
        detect_package_manager(&ProjectFiles { package_json: true, ..files() }),
        Some(PackageManager::Npm)
    );
    assert_eq!(
        detect_package_manager(&ProjectFiles { package_lock: true, ..files() }),
        Some(PackageManager::Npm)
    );
    assert_eq!(
        detect_package_manager(&ProjectFiles { pnpm_lock: true, package_lock: true, package_json: true, ..files() }),
        Some(PackageManager::Pnpm)
    );
    assert_eq!(
        detect_package_manager(&ProjectFiles {
            yarn_lock: true,
            pnpm_lock: true,
            package_lock: true,
            package_json: true,
            ..files()
        }),
        Some(PackageManager::Yarn)
    );
    assert_eq!(detect_package_manager(&ProjectFiles { node_modules: true, ..files() }), None);
}

#[test]
fn project_files_from_answers() {
    assert_eq!(
        ProjectFiles::paths("/p"),
        vec![
            "/p/yarn.lock",
            "/p/pnpm-lock.yaml",
            "/p/package-lock.json",
            "/p/package.json",
            "/p/node_modules",
            "/p/devbox.json"
        ]
    );
    let f = ProjectFiles::from_answers(&vec![false, true, false, true, true, false]);
    assert_eq!(
        f,
        ProjectFiles { pnpm_lock: true, package_json: true, node_modules: true, ..files() }
    );
    assert!(has_package_json(&f));
    assert!(has_node_modules(&f));
    assert!(!has_devbox_config(&f));
    assert_eq!(ProjectFiles::from_answers(&vec![true]), ProjectFiles { yarn_lock: true, ..files() });
    assert_eq!(ProjectFiles::from_answers(&Vec::new()), files());
    let all = ProjectFiles::from_answers(&vec![true; 8]);
    assert!(all.yarn_lock && all.pnpm_lock && all.package_lock && all.package_json && all.node_modules && all.devbox_json);
}

#[test]
fn installing_dependencies() {
    let yarn = ProjectFiles { yarn_lock: true, ..files() };
    assert_eq!(
        install_dependencies_command(&yarn, "/p").unwrap(),
        CommandLine { program: "yarn".into(), args: vec!["install".into()], dir: Some("/p".into()) }
    );
    assert_eq!(install_dependencies_command(&files(), "/p"), None);
    assert!(install_dependencies(&yarn, Some(&ok())));
    assert!(!install_dependencies(&yarn, Some(&failed())));
    assert!(!install_dependencies(&yarn, None));
    assert!(!install_dependencies(&files(), Some(&ok())));
    assert!(command_succeeded(Some(&ok())));
    assert!(!command_succeeded(None));
}

#[test]
fn devbox_probe_and_paths() {
    assert_eq!(
        is_devbox_installed_command(),
        CommandLine { program: "which".into(), args: vec!["devbox".into()], dir: None }
    );
    assert!(is_devbox_installed(Some(&ok())));
    assert!(!is_devbox_installed(Some(&failed())));
    assert!(!is_devbox_installed(None));
    assert_eq!(devbox_config_path("/p"), "/p/devbox.json");
    assert_eq!(get_devbox_shell_command("/w/demo"), "cd /w/demo && devbox shell");
    assert!(has_devbox_config(&ProjectFiles { devbox_json: true, ..files() }));
}

#[test]
fn devbox_file_text() {
    assert_eq!(init_devbox(&vec!["nodejs".into()], true), None);
    let empty = init_devbox(&Vec::new(), false).unwrap();
    assert_eq!(
        empty,
        "{\n  \"$schema\": \"https://raw.githubusercontent.com/jetify-com/devbox/0.13.0/.schema/devbox.schema.json\",\n  \"packages\": [\n    \n  ],\n  \"shell\": {\n    \"init_hook\": [\n      \"echo 'Welcome to devbox!'\"\n    ],\n    \"scripts\": {\n      \"test\": \"echo \\\"No tests configured\\\"\"\n    }\n  }\n}"
    );
    let two = init_devbox(&vec!["nodejs@20".into(), "git".into()], false).unwrap();
    assert!(two.contains("\"packages\": [\n    \"nodejs@20\",\n    \"git\"\n  ],"));
    let parsed: serde_json::Value = serde_json::from_str(&two).unwrap();
    assert_eq!(parsed["packages"][0], "nodejs@20");
    assert_eq!(parsed["packages"][1], "git");
    assert_eq!(parsed["shell"]["scripts"]["test"], "echo \"No tests configured\"");
    let one = init_devbox(&vec!["git".into()], false).unwrap();
    assert!(one.contains("[\n    \"git\"\n  ]"));
}

#[test]
fn devbox_shell_decisions() {
    let with = ProjectFiles { devbox_json: true, ..files() };
    assert_eq!(
        exec_devbox_shell("/p", false, &with).unwrap(),
        CommandLine { program: "devbox".into(), args: vec!["shell".into()], dir: Some("/p".into()) }
    );
    assert_eq!(
        exec_devbox_shell("/p", true, &with).unwrap_err(),
        DevError::DevboxError("Already in a devbox shell. Cannot nest devbox shells.".into())
    );
    assert_eq!(
        exec_devbox_shell("/p", true, &files()).unwrap_err(),
        DevError::DevboxError("Already in a devbox shell. Cannot nest devbox shells.".into())
    );
    assert_eq!(
        exec_devbox_shell("/p", false, &files()).unwrap_err(),
        DevError::DevboxError("No devbox.json found at /p".into())
    );
    assert_eq!(
        exec_devbox_shell_failed("denied"),
        DevError::DevboxError("Failed to launch devbox shell: denied".into())
    );
    let inside = devbox_instructions("/p", true);
    assert_eq!(inside.headline, "Already in devbox shell. Navigate to the project:");
    assert_eq!(inside.command, "cd /p");
    let outside = devbox_instructions("/p", false);
    assert_eq!(outside.headline, "Enter devbox shell:");
    assert_eq!(outside.command, "cd /p && devbox shell");
}

#[test]
fn status_tones() {
    assert_eq!(status_tone(&WorktreeStatus::Clean), Tone::Green);
    assert_eq!(status_tone(&WorktreeStatus::Ahead(1)), Tone::Blue);
    assert_eq!(status_tone(&WorktreeStatus::Behind(1)), Tone::Yellow);
    assert_eq!(status_tone(&WorktreeStatus::Diverged { ahead: 1, behind: 1 }), Tone::Magenta);
    assert_eq!(status_tone(&WorktreeStatus::Modified), Tone::Red);
    assert_eq!(status_tone(&WorktreeStatus::Unknown), Tone::Dimmed);
    let icon = status_icon(&WorktreeStatus::Behind(4));
    assert_eq!(icon.text, "↓");
    assert_eq!(icon.tone, Tone::Yellow);
    let label = status_label(&WorktreeStatus::Behind(4));
    assert_eq!(label.text, "behind 4");
    assert_eq!(label.tone, Tone::Yellow);
}

#[test]
fn remote_branch_choices() {
    assert_eq!(
        RemoteBranchAction::offered(),
        vec![RemoteBranchAction::Checkout, RemoteBranchAction::CreateDivergent, RemoteBranchAction::Cancel]
    );
    assert_eq!(prompt_remote_branch_action(0), RemoteBranchAction::Checkout);
    assert_eq!(prompt_remote_branch_action(1), RemoteBranchAction::CreateDivergent);
    assert_eq!(prompt_remote_branch_action(2), RemoteBranchAction::Cancel);
    assert_eq!(RemoteBranchAction::Checkout.label(), "Checkout existing remote branch");
    assert_eq!(RemoteBranchAction::CreateDivergent.label(), "Create new local branch (will diverge)");
    assert_eq!(RemoteBranchAction::Cancel.label(), "Cancel");
    assert_eq!(
        remote_branch_question("f/x"),
        "Branch 'f/x' exists on remote. What would you like to do?"
    );
}

#[test]
fn init_type_labels() {
    assert_eq!(InitType::NewRepo.label(), "Create new repository");
    assert_eq!(InitType::ExistingDir("/p".into()).label(), "Initialize in existing directory");
    assert_eq!(InitType::CloneUrl("u".into()).label(), "Clone from URL");
}
