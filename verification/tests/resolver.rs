use clice::command::make_command;
use clice::install::{make_install_plan, plan_install_step, InstallStep};
use clice::platform::{expected_asset_name, Architecture, Os};
use clice::release::{find_asset_url, Release, ReleaseAsset};
use clice::resolver::Resolver;

fn asset(name: &str, url: &str) -> ReleaseAsset {
    ReleaseAsset {
        name: name.to_owned(),
        download_url: url.to_owned(),
    }
}

fn linux_release() -> Release {
    Release {
        version: "v0.3.1".to_owned(),
        assets: vec![asset(
            "clice-x86_64-linux-gnu.tar.gz",
            "https://example.invalid/linux.tar.gz",
        )],
    }
}

#[test]
fn fresh_resolver_has_no_cached_command() {
    let resolver = Resolver::new();
    assert!(resolver.cached_command().is_none());
    assert!(resolver.resource_dir_path().is_none());
}

#[test]
fn memoized_calls_return_identical_commands() {
    let mut resolver = Resolver::new();
    resolver.record_resolution(
        "clice-v0.3.1/clice/clice".to_owned(),
        "/work/clice-v0.3.1/clice/lib/clang/20".to_owned(),
    );
    let first = resolver.cached_command().expect("cache populated");
    let second = resolver.cached_command().expect("cache populated");
    assert_eq!(first.command, second.command);
    assert_eq!(first.args, second.args);
    assert_eq!(first.env, second.env);
    assert_eq!(first.command, "clice-v0.3.1/clice/clice");
}

#[test]
fn lookup_found_binary_launches_without_arguments() {
    let resolver = Resolver::new();
    let cmd = resolver
        .lookup_command(Some("/usr/local/bin/clice".to_owned()))
        .expect("lookup reported a path");
    assert_eq!(cmd.command, "/usr/local/bin/clice");
    assert!(cmd.args.is_empty());
    assert!(cmd.env.is_empty());
}

#[test]
fn lookup_miss_yields_no_command() {
    let resolver = Resolver::new();
    assert!(resolver.lookup_command(None).is_none());
}

#[test]
fn x86_fails_with_the_architecture_tag() {
    let err = expected_asset_name(Os::Linux, Architecture::X86).unwrap_err();
    assert!(err.contains("X86"));
    assert_eq!(err, "unsupported architecture: X86");
}

#[test]
fn x86_fails_without_consulting_the_release() {
    let err = make_install_plan(Os::Linux, Architecture::X86, &linux_release()).unwrap_err();
    assert_eq!(err, "unsupported architecture: X86");
}

#[test]
fn linux_x86_64_asset_name_matches_exactly() {
    let name = expected_asset_name(Os::Linux, Architecture::X8664).unwrap();
    assert_eq!(name, "clice-x86_64-linux-gnu.tar.gz");
}

#[test]
fn windows_and_mac_asset_names() {
    assert_eq!(
        expected_asset_name(Os::Windows, Architecture::X8664).unwrap(),
        "clice-x86_64-windows-msvc.tar.gz"
    );
    assert_eq!(
        expected_asset_name(Os::Mac, Architecture::Aarch64).unwrap(),
        "clice-aarch64-macos-darwin.tar.gz"
    );
}

#[test]
fn plan_for_matching_linux_asset() {
    let plan = make_install_plan(Os::Linux, Architecture::X8664, &linux_release()).unwrap();
    assert_eq!(plan.asset_url, "https://example.invalid/linux.tar.gz");
    assert_eq!(plan.version_dir, "clice-v0.3.1");
    assert_eq!(plan.binary_path, "clice-v0.3.1/clice/clice");
    assert_eq!(plan.resource_dir, "clice-v0.3.1/clice/lib/clang/20");
}

#[test]
fn download_is_attempted_only_when_the_binary_is_absent() {
    let plan = make_install_plan(Os::Linux, Architecture::X8664, &linux_release()).unwrap();
    assert!(matches!(
        plan_install_step(&plan, true),
        InstallStep::AlreadyInstalled
    ));
    match plan_install_step(&plan, false) {
        InstallStep::FetchArchive { url, dest_dir } => {
            assert_eq!(url, "https://example.invalid/linux.tar.gz");
            assert_eq!(dest_dir, "clice-v0.3.1");
        }
        InstallStep::AlreadyInstalled => panic!("binary absent, a fetch was owed"),
    }
}

#[test]
fn missing_mac_asset_is_named_in_the_error() {
    let err = make_install_plan(Os::Mac, Architecture::Aarch64, &linux_release()).unwrap_err();
    assert_eq!(
        err,
        "no asset found matching \"clice-aarch64-macos-darwin.tar.gz\""
    );
}

#[test]
fn empty_asset_list_is_a_missing_asset() {
    let release = Release {
        version: "v1".to_owned(),
        assets: Vec::new(),
    };
    let err = make_install_plan(Os::Linux, Architecture::X8664, &release).unwrap_err();
    assert_eq!(err, "no asset found matching \"clice-x86_64-linux-gnu.tar.gz\"");
}

#[test]
fn first_matching_asset_wins() {
    let assets = vec![
        asset("clice-x86_64-linux-gnu.tar.gz", "https://example.invalid/a"),
        asset("clice-x86_64-linux-gnu.tar.gz", "https://example.invalid/b"),
    ];
    let url = find_asset_url(&assets, &"clice-x86_64-linux-gnu.tar.gz".to_owned()).unwrap();
    assert_eq!(url, "https://example.invalid/a");
}

#[test]
fn asset_match_is_exact_not_fuzzy() {
    let assets = vec![asset(
        "clice-x86_64-linux-gnu.tar.gz.sha256",
        "https://example.invalid/sum",
    )];
    let err = find_asset_url(&assets, &"clice-x86_64-linux-gnu.tar.gz".to_owned()).unwrap_err();
    assert_eq!(err, "no asset found matching \"clice-x86_64-linux-gnu.tar.gz\"");
}

#[test]
fn resource_dir_argument_is_exactly_one_flag() {
    let cmd = make_command(
        "clice-v0.3.1/clice/clice".to_owned(),
        &Some("/work/clice-v0.3.1/clice/lib/clang/20".to_owned()),
    );
    assert_eq!(
        cmd.args,
        vec!["--resource-dir=/work/clice-v0.3.1/clice/lib/clang/20".to_owned()]
    );
    assert!(cmd.env.is_empty());
}

#[test]
fn command_without_resource_dir_has_no_arguments() {
    let cmd = make_command("clice".to_owned(), &None);
    assert!(cmd.args.is_empty());
    assert!(cmd.env.is_empty());
}

#[test]
fn recorded_resolution_carries_the_resource_dir_flag() {
    let mut resolver = Resolver::new();
    resolver.record_resolution(
        "clice-v0.3.1/clice/clice".to_owned(),
        "/work/clice-v0.3.1/clice/lib/clang/20".to_owned(),
    );
    let cmd = resolver.cached_command().expect("cache populated");
    assert_eq!(cmd.command, "clice-v0.3.1/clice/clice");
    assert_eq!(cmd.args.len(), 1);
    assert_eq!(
        cmd.args[0],
        "--resource-dir=/work/clice-v0.3.1/clice/lib/clang/20"
    );
    assert_eq!(
        resolver.resource_dir_path().as_deref(),
        Some("/work/clice-v0.3.1/clice/lib/clang/20")
    );
}
