use biome_installer::downloader::Downloader;
use biome_installer::error::InstallError;
use biome_installer::install::{chosen_version, Fetched, InstallCommand, ResolutionStep};
use biome_installer::platform::Platform;
use biome_installer::version::Version;

fn command(version: Option<Version>) -> InstallCommand {
    InstallCommand { version, install_dir: None, no_prepend_path: false, non_interactive: false }
}

fn body(s: &str) -> Fetched {
    Fetched::Body(s.to_string())
}

fn used(step: ResolutionStep) -> String {
    match step {
        ResolutionStep::Use(v) => v.to_string(),
        _ => panic!("expected a resolved version"),
    }
}

#[test]
fn explicit_version_wins() {
    let cmd = command(Some(Version::new(2, 0, 5)));
    let step = cmd.resolve_version(true, &Fetched::NotFetched, &Fetched::NotFetched);
    assert_eq!(used(step), "2.0.5");
}

#[test]
fn latest_endpoint_is_asked_first() {
    let cmd = command(None);
    assert!(matches!(
        cmd.resolve_version(false, &Fetched::NotFetched, &Fetched::NotFetched),
        ResolutionStep::FetchLatest
    ));
    assert_eq!(used(cmd.resolve_version(false, &body("2.1.0\n"), &Fetched::NotFetched)), "2.1.0");
}

#[test]
fn latest_and_explicit_select_the_same_artifact() {
    let from_latest = match command(None).resolve_version(false, &body("2.1.0"), &Fetched::NotFetched) {
        ResolutionStep::Use(v) => v,
        _ => panic!("expected a resolved version"),
    };
    let explicit = match command(Some(Version::new(2, 1, 0))).resolve_version(
        false,
        &Fetched::NotFetched,
        &Fetched::NotFetched,
    ) {
        ResolutionStep::Use(v) => v,
        _ => panic!("expected a resolved version"),
    };
    let d = Downloader::new(Platform::detect("linux", "x86_64", None, None));
    assert_eq!(d.download_url(&from_latest).unwrap(), d.download_url(&explicit).unwrap());
    assert_eq!(
        d.download_url(&from_latest).unwrap(),
        "https://github.com/biomejs/biome/releases/download/@biomejs/biome@2.1.0/biome-linux-x64"
    );
}

#[test]
fn stable_list_is_the_fallback() {
    let cmd = command(None);
    assert!(matches!(
        cmd.resolve_version(false, &Fetched::Unavailable, &Fetched::NotFetched),
        ResolutionStep::FetchList
    ));
    assert!(matches!(
        cmd.resolve_version(false, &body("garbage"), &Fetched::NotFetched),
        ResolutionStep::FetchList
    ));
    let list = body("\n2.0.6\n2.0.5\n");
    assert_eq!(used(cmd.resolve_version(false, &Fetched::Unavailable, &list)), "2.0.6");
}

#[test]
fn nothing_usable_is_a_resolution_error() {
    let cmd = command(None);
    assert!(matches!(
        cmd.resolve_version(false, &Fetched::Unavailable, &Fetched::Unavailable),
        ResolutionStep::Fail(InstallError::Resolution)
    ));
    assert!(matches!(
        cmd.resolve_version(false, &body(""), &body("nope\n")),
        ResolutionStep::Fail(InstallError::Resolution)
    ));
}

#[test]
fn prompting_offers_the_stable_list() {
    let cmd = command(None);
    assert!(matches!(
        cmd.resolve_version(true, &Fetched::NotFetched, &Fetched::NotFetched),
        ResolutionStep::FetchList
    ));
    match cmd.resolve_version(true, &Fetched::NotFetched, &body("2.1.0\n2.0.6\n")) {
        ResolutionStep::Choose(vs) => {
            let texts: Vec<String> = vs.iter().map(|v| v.to_string()).collect();
            assert_eq!(texts, vec!["2.1.0", "2.0.6"]);
            assert_eq!(chosen_version(None, &vs).to_string(), "2.1.0");
            assert_eq!(chosen_version(Some(vs[1].clone()), &vs).to_string(), "2.0.6");
        }
        _ => panic!("expected a choice"),
    }
    // an unusable list falls back to the latest endpoint
    assert!(matches!(
        cmd.resolve_version(true, &Fetched::NotFetched, &Fetched::Unavailable),
        ResolutionStep::FetchLatest
    ));
}

#[test]
fn prompting_needs_an_interactive_session() {
    let mut cmd = command(None);
    assert!(cmd.should_prompt(true, false));
    assert!(!cmd.should_prompt(false, false));
    assert!(!cmd.should_prompt(true, true));
    cmd.non_interactive = true;
    assert!(!cmd.should_prompt(true, false));
}

#[test]
fn path_prompt_only_when_it_can_be_acted_on() {
    let mut cmd = command(None);
    assert!(cmd.should_prompt_update_path(true, true));
    assert!(!cmd.should_prompt_update_path(false, true));
    assert!(!cmd.should_prompt_update_path(true, false));
    cmd.no_prepend_path = true;
    assert!(!cmd.should_prompt_update_path(true, true));
}
