use gaem_launcher::descriptor::{
    app_data_dir, curl, gaem, install_kind, jre, launch_command, path, DependencyDescriptor,
    InstallKind, GAEM_LINK, JAR_NAME, JRE_LINK, JRE_VERSION, SETUP,
};
use gaem_launcher::process::Invocation;

fn words(items: &[&str]) -> Vec<String> {
    items.iter().map(|s| s.to_string()).collect()
}

#[test]
fn app_data_dir_is_built_from_the_user_name() {
    assert_eq!(app_data_dir("alice"), "C:/Users/alice/AppData/Roaming/GaemApp");
    assert_eq!(app_data_dir(""), "C:/Users//AppData/Roaming/GaemApp");
}

#[test]
fn path_is_the_directory_of_the_current_user() {
    let dir = path();
    assert_eq!(dir, app_data_dir(&whoami::username()));
    assert!(dir.starts_with("C:/Users/"));
    assert!(dir.ends_with("/AppData/Roaming/GaemApp"));
}

#[test]
fn install_kind_goes_by_the_extension() {
    assert_eq!(install_kind("bellsoft.msi"), Some(InstallKind::CompressedInstaller));
    assert_eq!(install_kind("setup.exe"), Some(InstallKind::SelfExecuting));
    assert_eq!(install_kind(SETUP), Some(InstallKind::CompressedInstaller));
}

#[test]
fn install_kind_knows_no_other_extension() {
    assert_eq!(install_kind("archive.zip"), None);
    assert_eq!(install_kind("msi"), None);
    assert_eq!(install_kind("setup.msi.part"), None);
    assert_eq!(install_kind("setup.MSI"), None);
    assert_eq!(install_kind(""), None);
}

#[test]
fn a_descriptor_resolves_its_install_kind_once() {
    let made = DependencyDescriptor::new(
        "tool".to_string(),
        Some("1.2".to_string()),
        "https://example.org/tool.exe".to_string(),
        "tool.exe".to_string(),
        "tool".to_string(),
    );
    let d = made.unwrap();
    assert_eq!(d.name(), "tool");
    assert_eq!(d.required_version(), Some("1.2"));
    assert_eq!(d.url(), "https://example.org/tool.exe");
    assert_eq!(d.installer(), "tool.exe");
    assert_eq!(d.kind(), InstallKind::SelfExecuting);
    assert_eq!(d.binary(), "tool");
}

#[test]
fn the_install_kind_of_a_descriptor_is_that_of_its_extension() {
    for installer in ["a.msi", "a.exe", "b.tar.msi", ".exe", "установка.msi"] {
        let d = DependencyDescriptor::new(
            "tool".to_string(),
            None,
            "https://example.org/tool".to_string(),
            installer.to_string(),
            "tool".to_string(),
        )
        .unwrap();
        assert_eq!(Some(d.kind()), install_kind(d.installer()));
    }
}

#[test]
fn a_descriptor_without_a_pinned_version_says_so() {
    let d = DependencyDescriptor::new(
        "tool".to_string(),
        None,
        "https://example.org/tool.msi".to_string(),
        "tool.msi".to_string(),
        "tool".to_string(),
    )
    .unwrap();
    assert_eq!(d.required_version(), None);
    assert_eq!(d.kind(), InstallKind::CompressedInstaller);
}

#[test]
fn there_is_no_descriptor_for_an_unknown_installer() {
    let made = DependencyDescriptor::new(
        "tool".to_string(),
        None,
        "https://example.org/tool.tar.gz".to_string(),
        "tool.tar.gz".to_string(),
        "tool".to_string(),
    );
    assert!(made.is_none());
}

#[test]
fn the_pinned_runtime_is_described() {
    let d = jre();
    assert_eq!(d.name(), "jre");
    assert_eq!(d.required_version(), Some("18.0.1.1"));
    assert_eq!(JRE_VERSION, "18.0.1.1");
    assert_eq!(d.url(), JRE_LINK);
    assert_eq!(d.installer(), SETUP);
    assert_eq!(d.kind(), InstallKind::CompressedInstaller);
    assert_eq!(install_kind(d.installer()), Some(d.kind()));
    assert_eq!(d.binary(), "java");
}

#[test]
fn the_payload_is_described() {
    let d = gaem("D:/games".to_string());
    assert_eq!(d.name, "gaem");
    assert_eq!(d.url, GAEM_LINK);
    assert_eq!(d.file, JAR_NAME);
    assert_eq!(d.file, "term-paper.jar");
    assert_eq!(d.directory, "D:/games");
    assert_eq!(d.location(), "D:/games/term-paper.jar");
}

#[test]
fn curl_follows_redirects_and_writes_into_the_directory() {
    let inv = curl("https://example.org/a.jar", "D:/games");
    let expected = Invocation {
        program: "curl".to_string(),
        args: words(&["-LO", "https://example.org/a.jar"]),
        working_dir: Some("D:/games".to_string()),
    };
    assert_eq!(inv, expected);
}

#[test]
fn the_version_query_runs_the_binary() {
    let inv = jre().probe_command();
    let expected = Invocation {
        program: "java".to_string(),
        args: words(&["--version"]),
        working_dir: None,
    };
    assert_eq!(inv, expected);
}

#[test]
fn a_package_is_installed_by_the_front_end() {
    let inv = jre().install_command("D:/games");
    let expected = Invocation {
        program: "msiexec".to_string(),
        args: words(&["/i", SETUP, "/quiet"]),
        working_dir: Some("D:/games".to_string()),
    };
    assert_eq!(inv, expected);
}

#[test]
fn a_self_executing_installer_is_run_itself() {
    let d = DependencyDescriptor::new(
        "tool".to_string(),
        None,
        "https://example.org/tool.exe".to_string(),
        "tool.exe".to_string(),
        "tool".to_string(),
    )
    .unwrap();
    let inv = d.install_command("D:/games");
    let expected = Invocation {
        program: "D:/games/tool.exe".to_string(),
        args: words(&["/S"]),
        working_dir: Some("D:/games".to_string()),
    };
    assert_eq!(inv, expected);
}

#[test]
fn the_payload_is_run_with_the_runtime() {
    let inv = launch_command("java", "D:/games", "term-paper.jar");
    let expected = Invocation {
        program: "java".to_string(),
        args: words(&["-jar", "D:/games/term-paper.jar"]),
        working_dir: Some("D:/games".to_string()),
    };
    assert_eq!(inv, expected);
}

#[test]
fn a_command_can_be_copied() {
    let inv = launch_command("java", "D:/games", "term-paper.jar");
    assert_eq!(inv.duplicate(), inv);
    let bare = jre().probe_command();
    assert_eq!(bare.duplicate(), bare);
}
