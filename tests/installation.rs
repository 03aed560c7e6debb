use biome_installer::install::{Fetched, InstallCommand, ResolutionStep};
use biome_installer::installer::{Installer, PathPlan, PathTarget};
use biome_installer::platform::Platform;
use biome_installer::version::Version;

/// What one run of `install` decides, with the environment given as values.
struct Run {
    binary: String,
    url: String,
    config_file: Option<String>,
    plan: PathPlan,
}

fn install(
    os: &str,
    home: &str,
    shell_var: Option<&str>,
    live_path: &str,
    config: &str,
    version: Option<&str>,
    latest_body: &str,
    no_prepend_path: bool,
) -> Run {
    let cmd = InstallCommand {
        version: version.map(|v| Version::parse(v).unwrap()),
        install_dir: None,
        no_prepend_path,
        non_interactive: true,
    };
    let platform = Platform::detect(os, "x86_64", None, shell_var);
    let prompting = cmd.should_prompt(false, true);
    let latest = match cmd.resolve_version(prompting, &Fetched::NotFetched, &Fetched::NotFetched) {
        ResolutionStep::FetchLatest => Fetched::Body(latest_body.to_string()),
        _ => Fetched::NotFetched,
    };
    let version = match cmd.resolve_version(prompting, &latest, &Fetched::NotFetched) {
        ResolutionStep::Use(v) => v,
        _ => panic!("no version resolved"),
    };
    let downloader = biome_installer::downloader::Downloader::new(Platform::detect(
        os,
        "x86_64",
        None,
        shell_var,
    ));
    let url = downloader.download_url(&version).unwrap();
    let dir = cmd.resolve_install_dir(Some(home), os).unwrap();
    let config_file = platform.shell.map(|s| s.config_file(home, os));
    let shell = platform.shell;
    let installer = Installer::new(platform, dir);
    let target = PathTarget::RcFile {
        shell,
        live_path: live_path.to_string(),
        config: config.to_string(),
    };
    let plan = cmd.prepend_install_dir_to_path_if_needed(prompting, None, &installer, &target);
    Run { binary: installer.binary_path(), url, config_file, plan }
}

fn config_after(run: &Run, before: &str) -> String {
    match &run.plan {
        PathPlan::WriteConfig(c) => c.clone(),
        _ => before.to_string(),
    }
}

const HOME: &str = "/tmp/home";

#[test]
fn installation_it_installs_the_latest_stable_version() {
    let run = install("linux", HOME, None, "/usr/bin", "", Some("2.0.5"), "", false);
    assert_eq!(run.binary, "/tmp/home/.biome/bin/biome");
    let windows = install("windows", "C:\\Users\\u", None, "", "", Some("2.0.5"), "", false);
    assert_eq!(windows.binary, "C:\\Users\\u\\.biome\\bin\\biome.exe");
}

#[test]
fn installation_it_installs_the_specified_version() {
    let run = install("linux", HOME, None, "/usr/bin", "", Some("2.0.5"), "9.9.9", false);
    assert_eq!(run.binary, "/tmp/home/.biome/bin/biome");
    assert!(run.url.ends_with("/@biomejs/biome@2.0.5/biome-linux-x64"));
}

#[test]
fn it_prepends_the_installation_directory_to_the_path_with_bash() {
    let run = install("linux", HOME, Some("/bin/bash"), "/usr/bin", "", Some("2.0.5"), "", false);
    assert_eq!(run.config_file.as_deref(), Some("/tmp/home/.bashrc"));
    assert!(config_after(&run, "").contains("export PATH=\"/tmp/home/.biome/bin:$PATH\""));
}

#[test]
fn it_does_not_prepend_the_installation_directory_to_the_path_with_bash() {
    let run = install("linux", HOME, Some("/bin/bash"), "/usr/bin", "", Some("2.0.5"), "", true);
    assert!(!config_after(&run, "").contains("export PATH=\"/tmp/home/.biome/bin:$PATH\""));
}

#[test]
fn it_prepends_the_installation_directory_to_the_path_with_zsh() {
    let run = install("linux", HOME, Some("/bin/zsh"), "/usr/bin", "", Some("2.0.5"), "", false);
    assert_eq!(run.config_file.as_deref(), Some("/tmp/home/.zshrc"));
    assert!(config_after(&run, "").contains("export PATH=\"/tmp/home/.biome/bin:$PATH\""));
}

#[test]
fn it_does_not_prepend_the_installation_directory_to_the_path_with_zsh() {
    let run = install("linux", HOME, Some("/bin/zsh"), "/usr/bin", "", Some("2.0.5"), "", true);
    assert!(!config_after(&run, "").contains("export PATH=\"/tmp/home/.biome/bin:$PATH\""));
}

#[test]
fn it_prepends_the_installation_directory_to_the_path_with_fish() {
    let run = install("linux", HOME, Some("/usr/bin/fish"), "/usr/bin", "", Some("2.0.5"), "", false);
    assert_eq!(run.config_file.as_deref(), Some("/tmp/home/.config/fish/config.fish"));
    assert!(config_after(&run, "").contains("set -gx PATH \"/tmp/home/.biome/bin\" $PATH"));
}

#[test]
fn it_does_not_prepend_the_installation_directory_to_the_path_with_fish() {
    let run = install("linux", HOME, Some("/usr/bin/fish"), "/usr/bin", "", Some("2.0.5"), "", true);
    assert!(!config_after(&run, "").contains("set -gx PATH \"/tmp/home/.biome/bin\" $PATH"));
}

#[test]
fn it_does_not_prepend_the_installation_directory_if_its_already_in_path() {
    let live = "/tmp/home/.biome/bin:/usr/bin";
    let run = install("linux", HOME, Some("/bin/bash"), live, "", Some("2.0.5"), "", false);
    assert!(matches!(run.plan, PathPlan::AlreadyPresent));
    assert!(!config_after(&run, "").contains("export PATH=\"/tmp/home/.biome/bin:$PATH\""));
}

#[test]
fn macos_it_installs_the_latest_stable_version() {
    let run = install("macos", HOME, None, "", "", None, "2.1.0\n", false);
    assert_eq!(run.binary, "/tmp/home/.biome/bin/biome");
    assert!(run.url.ends_with("/@biomejs/biome@2.1.0/biome-darwin-x64"));
}

#[test]
fn macos_it_installs_the_specified_version() {
    let run = install("macos", HOME, None, "", "", Some("2.0.6"), "2.1.0", false);
    assert_eq!(run.binary, "/tmp/home/.biome/bin/biome");
    assert!(run.url.contains("2.0.6"));
}

#[test]
fn it_adds_the_installation_directory_to_the_path_in_bash_profile() {
    let run = install("macos", HOME, Some("/bin/bash"), "", "", None, "2.1.0", false);
    assert_eq!(run.config_file.as_deref(), Some("/tmp/home/.bash_profile"));
    assert!(config_after(&run, "").contains("export PATH=\"/tmp/home/.biome/bin:$PATH\""));
}

#[test]
fn it_does_not_add_the_installation_directory_to_the_path_in_bash_profile_if_explicitly_requested() {
    let run = install("macos", HOME, Some("/bin/bash"), "", "", None, "2.1.0", true);
    assert!(!config_after(&run, "").contains("export PATH=\"/tmp/home/.biome/bin:$PATH\""));
}

#[test]
fn it_adds_the_installation_directory_to_the_path_in_zshrc() {
    let run = install("macos", HOME, Some("/bin/zsh"), "", "", None, "2.1.0", false);
    assert_eq!(run.config_file.as_deref(), Some("/tmp/home/.zshrc"));
    assert!(config_after(&run, "").contains("export PATH=\"/tmp/home/.biome/bin:$PATH\""));
}

#[test]
fn it_does_not_add_the_installation_directory_to_the_path_in_zshrc_if_explicitly_requested() {
    let run = install("macos", HOME, Some("/bin/zsh"), "", "", None, "2.1.0", true);
    assert!(!config_after(&run, "").contains("export PATH=\"/tmp/home/.biome/bin:$PATH\""));
}

#[test]
fn it_adds_the_installation_directory_to_the_path_in_fish_config() {
    let run = install("macos", HOME, Some("/bin/fish"), "", "", None, "2.1.0", false);
    assert_eq!(run.config_file.as_deref(), Some("/tmp/home/.config/fish/config.fish"));
    assert!(config_after(&run, "").contains("set -gx PATH \"/tmp/home/.biome/bin\" $PATH"));
}

#[test]
fn it_does_not_add_the_installation_directory_to_the_path_in_fish_config_if_explicitly_requested() {
    let run = install("macos", HOME, Some("/bin/fish"), "", "", None, "2.1.0", true);
    assert!(!config_after(&run, "").contains("set -gx PATH \"/tmp/home/.biome/bin\" $PATH"));
}
