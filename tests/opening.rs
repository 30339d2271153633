use url::Url;
use url_open::{
    conclude, dispatch_for, encode_newlines, open, Cause, Dispatch, OpenError, Outcome, Platform,
    SpawnFailure, UrlOpen,
};

fn spawn(program: &str, argument: &str) -> Dispatch {
    Dispatch::Spawn { program: program.to_string(), argument: argument.to_string() }
}

fn shell(target: &str) -> Dispatch {
    Dispatch::ShellExecute { verb: "open".to_string(), target: target.to_string() }
}

fn example() -> Url {
    Url::parse("https://www.example.com/").expect("URL should be parsable")
}

#[test]
fn linux_spawns_xdg_open_with_the_url_alone() {
    let d = example().open(Platform::Linux);
    assert_eq!(d, spawn("xdg-open", "https://www.example.com/"));
}

#[test]
fn macos_spawns_open_with_the_url_alone() {
    let d = example().open(Platform::MacOs);
    assert_eq!(d, spawn("open", "https://www.example.com/"));
}

#[test]
fn windows_asks_the_shell_for_the_open_verb() {
    let d = example().open(Platform::Windows);
    assert_eq!(d, shell("https://www.example.com/"));
}

#[test]
fn free_function_and_method_agree() {
    let url = example();
    for platform in [Platform::Windows, Platform::MacOs, Platform::Linux] {
        assert_eq!(open(&url, platform), url.open(platform));
    }
}

#[test]
fn url_is_handed_over_in_its_serialized_form() {
    let url = Url::parse("HTTPS://Example.COM/a b?q=1#top").expect("URL should be parsable");
    let d = url.open(Platform::Linux);
    assert_eq!(d, spawn("xdg-open", "https://example.com/a%20b?q=1#top"));
}

#[test]
fn opening_twice_gives_two_full_dispatches() {
    let url = example();
    let first = url.open(Platform::Linux);
    let second = url.open(Platform::Linux);
    assert_eq!(first, spawn("xdg-open", "https://www.example.com/"));
    assert_eq!(second, spawn("xdg-open", "https://www.example.com/"));
}

#[test]
fn windows_newline_is_percent_encoded() {
    let d = dispatch_for(Platform::Windows, "https://example.com/\n");
    assert_eq!(d, shell("https://example.com/%0A"));
}

#[test]
fn newline_is_percent_encoded_on_every_platform() {
    assert_eq!(
        dispatch_for(Platform::Linux, "https://example.com/\n"),
        spawn("xdg-open", "https://example.com/%0A")
    );
    assert_eq!(
        dispatch_for(Platform::MacOs, "https://example.com/\n"),
        spawn("open", "https://example.com/%0A")
    );
}

#[test]
fn url_without_newline_is_passed_unchanged() {
    let s = "https://example.com/p?x=%0A&y=é";
    assert_eq!(dispatch_for(Platform::Linux, s), spawn("xdg-open", s));
}

#[test]
fn encode_newlines_cases() {
    assert_eq!(encode_newlines(""), "");
    assert_eq!(encode_newlines("\n"), "%0A");
    assert_eq!(encode_newlines("a\nb\n\nc"), "a%0Ab%0A%0Ac");
    assert_eq!(encode_newlines("ü\nß"), "ü%0Aß");
    assert_eq!(encode_newlines("no newline\r\t"), "no newline\r\t");
}

#[test]
fn missing_binary_is_a_launch_failure() {
    let r = conclude(Outcome::NotStarted { reason: SpawnFailure::NotFound, os_code: Some(2) });
    assert_eq!(
        r,
        Err(OpenError::LaunchFailure(Cause::Spawn { reason: SpawnFailure::NotFound, os_code: Some(2) }))
    );
}

#[test]
fn refused_spawn_is_a_launch_failure() {
    let r = conclude(Outcome::NotStarted { reason: SpawnFailure::PermissionDenied, os_code: None });
    assert_eq!(
        r,
        Err(OpenError::LaunchFailure(Cause::Spawn {
            reason: SpawnFailure::PermissionDenied,
            os_code: None
        }))
    );
    let r = conclude(Outcome::NotStarted { reason: SpawnFailure::Other, os_code: Some(12) });
    assert_eq!(
        r,
        Err(OpenError::LaunchFailure(Cause::Spawn { reason: SpawnFailure::Other, os_code: Some(12) }))
    );
}

#[test]
fn started_process_is_success() {
    assert_eq!(conclude(Outcome::Started), Ok(()));
}

#[test]
fn shell_result_above_threshold_is_success() {
    assert_eq!(conclude(Outcome::ShellReturned { instance: 33, last_error: 0 }), Ok(()));
    assert_eq!(conclude(Outcome::ShellReturned { instance: 42, last_error: 5 }), Ok(()));
}

#[test]
fn shell_result_at_or_below_threshold_is_a_launch_failure() {
    assert_eq!(
        conclude(Outcome::ShellReturned { instance: 32, last_error: 5 }),
        Err(OpenError::LaunchFailure(Cause::Shell { instance: 32, system_error: 5 }))
    );
    assert_eq!(
        conclude(Outcome::ShellReturned { instance: 2, last_error: 2 }),
        Err(OpenError::LaunchFailure(Cause::Shell { instance: 2, system_error: 2 }))
    );
    assert_eq!(
        conclude(Outcome::ShellReturned { instance: -1, last_error: 1155 }),
        Err(OpenError::LaunchFailure(Cause::Shell { instance: -1, system_error: 1155 }))
    );
}

#[test]
fn platform_from_os_name() {
    assert_eq!(Platform::from_os_name("windows"), Some(Platform::Windows));
    assert_eq!(Platform::from_os_name("macos"), Some(Platform::MacOs));
    assert_eq!(Platform::from_os_name("linux"), Some(Platform::Linux));
    assert_eq!(Platform::from_os_name("freebsd"), None);
    assert_eq!(Platform::from_os_name("Linux"), None);
    assert_eq!(Platform::from_os_name(""), None);
}
