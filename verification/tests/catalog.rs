use mcvcli::backups::{extension, BackupFormat};
use mcvcli::mcjars::{Build, InstallationStep, InstallationStepRemove};
use mcvcli::modrinth::ModrinthApi;
use mcvcli::mojang::format_uuid;

#[test]
fn format_uuid_inserts_hyphens() {
    assert_eq!(
        format_uuid("069a79f444e94726a5befca90e38aaf5"),
        Some("069a79f4-44e9-4726-a5be-fca90e38aaf5".to_string())
    );
}

#[test]
fn format_uuid_normalises_existing_hyphens() {
    assert_eq!(
        format_uuid("069a79f4-44e9-4726-a5be-fca90e38aaf5"),
        Some("069a79f4-44e9-4726-a5be-fca90e38aaf5".to_string())
    );
    assert_eq!(
        format_uuid("069a-79f4-44e94726a5befca90e38aaf5"),
        Some("069a79f4-44e9-4726-a5be-fca90e38aaf5".to_string())
    );
}

#[test]
fn format_uuid_refuses_short_input() {
    assert_eq!(format_uuid(""), None);
    assert_eq!(format_uuid("abc"), None);
    assert_eq!(format_uuid("069a79f4-44e9-4726-a5be"), None);
}

#[test]
fn backup_extensions() {
    assert_eq!(extension(&BackupFormat::Zip), "zip");
    assert_eq!(extension(&BackupFormat::Tar), "tar");
    assert_eq!(extension(&BackupFormat::TarGz), "tar.gz");
    assert_eq!(extension(&BackupFormat::TarXz), "tar.xz");
}

#[test]
fn modrinth_api_keeps_url() {
    let api = ModrinthApi::new("https://api.modrinth.com".to_string());
    assert_eq!(api.url(), "https://api.modrinth.com");
}

#[test]
fn build_holds_installation_steps() {
    let build = Build {
        id: 7,
        kind: "VANILLA".to_string(),
        name: "1.21.1".to_string(),
        version_id: Some("1.21.1".to_string()),
        project_version_id: None,
        installation: vec![vec![InstallationStep::Remove(InstallationStepRemove {
            location: "libraries".to_string(),
        })]],
    };
    assert_eq!(build.installation.len(), 1);
    assert!(matches!(
        build.installation[0][0],
        InstallationStep::Remove(_)
    ));
}
