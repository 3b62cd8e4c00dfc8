use hydra_installer::locator::{
    command_program, icon_file, join_file, parent_dir, record_path, InstallationLocator,
    InstallationRecord,
};

fn record(
    name: &str,
    publisher: &str,
    location: Option<&str>,
    uninstall: Option<&str>,
    icon: Option<&str>,
) -> InstallationRecord {
    InstallationRecord {
        display_name: name.to_string(),
        publisher: publisher.to_string(),
        install_location: location.map(|s| s.to_string()),
        uninstall_command: uninstall.map(|s| s.to_string()),
        display_icon: icon.map(|s| s.to_string()),
    }
}

fn hydra(location: Option<&str>, uninstall: Option<&str>, icon: Option<&str>) -> InstallationRecord {
    record("Hydra", "Los Broxas", location, uninstall, icon)
}

#[test]
fn locate_from_quoted_uninstall_command() {
    let stores = vec![vec![hydra(None, Some("\"C:\\Apps\\X\\Uninstall.exe\" /S"), None)]];
    assert_eq!(
        InstallationLocator::hydra().locate(&stores),
        Some("C:\\Apps\\X\\Hydra.exe".to_string())
    );
}

#[test]
fn locate_from_display_icon() {
    let stores = vec![vec![hydra(None, None, Some("C:\\Apps\\X\\icon.ico,0"))]];
    assert_eq!(InstallationLocator::hydra().locate(&stores), Some("C:\\Apps\\X".to_string()));
}

#[test]
fn install_location_wins() {
    let stores = vec![vec![hydra(
        Some("D:\\Games\\Hydra"),
        Some("\"C:\\Apps\\X\\Uninstall.exe\" /S"),
        Some("C:\\Apps\\Y\\icon.ico,0"),
    )]];
    assert_eq!(InstallationLocator::hydra().locate(&stores), Some("D:\\Games\\Hydra".to_string()));
}

#[test]
fn empty_install_location_falls_back() {
    let stores = vec![vec![hydra(Some(""), Some("C:\\Apps\\X\\Uninstall.exe /S"), None)]];
    assert_eq!(
        InstallationLocator::hydra().locate(&stores),
        Some("C:\\Apps\\X\\Hydra.exe".to_string())
    );
}

#[test]
fn quoted_path_with_spaces() {
    let stores = vec![vec![hydra(
        None,
        Some("  \"C:\\Program Files\\Hydra\\Uninstall Hydra.exe\" /currentuser /S"),
        None,
    )]];
    assert_eq!(
        InstallationLocator::hydra().locate(&stores),
        Some("C:\\Program Files\\Hydra\\Hydra.exe".to_string())
    );
}

#[test]
fn identity_must_match_exactly() {
    let stores = vec![vec![
        record("hydra", "Los Broxas", Some("C:\\a"), None, None),
        record("Hydra", "Los broxas", Some("C:\\b"), None, None),
        record("Hydra ", "Los Broxas", Some("C:\\c"), None, None),
    ]];
    assert_eq!(InstallationLocator::hydra().locate(&stores), None);
}

#[test]
fn record_without_path_is_passed_over() {
    let stores = vec![
        vec![hydra(None, None, None), hydra(None, Some("Uninstall.exe"), None)],
        vec![hydra(None, None, Some("E:\\H\\Hydra.exe,0"))],
    ];
    assert_eq!(InstallationLocator::hydra().locate(&stores), Some("E:\\H".to_string()));
}

#[test]
fn stores_are_searched_in_order() {
    let stores = vec![
        vec![record("Other", "Someone", Some("C:\\other"), None, None)],
        vec![hydra(Some("C:\\first"), None, None)],
        vec![hydra(Some("C:\\second"), None, None)],
    ];
    assert_eq!(InstallationLocator::hydra().locate(&stores), Some("C:\\first".to_string()));
}

#[test]
fn nothing_found_in_empty_stores() {
    assert_eq!(InstallationLocator::hydra().locate(&vec![]), None);
    assert_eq!(InstallationLocator::hydra().locate(&vec![vec![], vec![]]), None);
}

#[test]
fn locator_for_another_application() {
    let locator = InstallationLocator {
        display_name: "Tool".to_string(),
        publisher: "Acme".to_string(),
        executable: "tool.exe".to_string(),
    };
    let stores = vec![vec![record("Tool", "Acme", None, Some("C:\\Acme\\Tool\\unins000.exe"), None)]];
    assert_eq!(locator.locate(&stores), Some("C:\\Acme\\Tool\\tool.exe".to_string()));
}

#[test]
fn record_path_strategies() {
    assert_eq!(record_path(&hydra(None, None, None), "Hydra.exe"), None);
    assert_eq!(
        record_path(&hydra(None, Some("\"C:\\Uninstall.exe\""), None), "Hydra.exe"),
        Some("C:\\Hydra.exe".to_string())
    );
}

#[test]
fn command_program_forms() {
    assert_eq!(command_program("\"C:\\A B\\u.exe\" /S"), "C:\\A B\\u.exe");
    assert_eq!(command_program("C:\\A\\u.exe /S"), "C:\\A\\u.exe");
    assert_eq!(command_program("\t C:\\A\\u.exe"), "C:\\A\\u.exe");
    assert_eq!(command_program("\"C:\\A\\u.exe"), "C:\\A\\u.exe");
    assert_eq!(command_program(""), "");
}

#[test]
fn icon_file_drops_index() {
    assert_eq!(icon_file("C:\\A\\i.ico,0"), "C:\\A\\i.ico");
    assert_eq!(icon_file("C:\\A\\i.ico"), "C:\\A\\i.ico");
}

#[test]
fn parent_dir_forms() {
    assert_eq!(parent_dir("C:\\Apps\\X\\Uninstall.exe"), Some("C:\\Apps\\X".to_string()));
    assert_eq!(parent_dir("C:\\Uninstall.exe"), Some("C:\\".to_string()));
    assert_eq!(parent_dir("\\u.exe"), Some("\\".to_string()));
    assert_eq!(parent_dir("C:/Apps/u.exe"), Some("C:/Apps".to_string()));
    assert_eq!(parent_dir("u.exe"), None);
    assert_eq!(parent_dir(""), None);
}

#[test]
fn join_file_forms() {
    assert_eq!(join_file("C:\\Apps", "Hydra.exe"), "C:\\Apps\\Hydra.exe");
    assert_eq!(join_file("C:\\", "Hydra.exe"), "C:\\Hydra.exe");
}
