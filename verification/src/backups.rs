use vstd::prelude::*;

verus! {

/// The archive format of one backup.
#[derive(Debug, Clone, Copy, PartialEq, Eq, Structural)]
pub enum BackupFormat {
    Zip,
    Tar,
    TarGz,
    TarXz,
}

/// The file extension a backup of this format is stored under.
pub fn extension(format: &BackupFormat) -> (r: String)
    ensures
        format == BackupFormat::Zip ==> r@ == "zip"@,
        format == BackupFormat::Tar ==> r@ == "tar"@,
        format == BackupFormat::TarGz ==> r@ == "tar.gz"@,
        format == BackupFormat::TarXz ==> r@ == "tar.xz"@,
{
    match format {
        BackupFormat::Zip => "zip".to_owned(),
        BackupFormat::Tar => "tar".to_owned(),
        BackupFormat::TarGz => "tar.gz".to_owned(),
        BackupFormat::TarXz => "tar.xz".to_owned(),
    }
}

} // verus!
