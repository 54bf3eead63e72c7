use vstd::prelude::*;

verus! {

/// A server type a remote build catalog offers.
#[derive(Debug, Clone)]
pub struct Type {
    pub name: String,
}

/// One game version a catalog offers, with the runtime it needs.
#[derive(Debug, Clone)]
pub struct Version {
    pub kind: String,
    pub java: u8,
}

/// One concrete build a catalog offers, with the steps that install it.
#[derive(Debug, Clone)]
pub struct Build {
    pub id: u32,
    pub kind: String,
    pub name: String,

    pub version_id: Option<String>,
    pub project_version_id: Option<String>,

    pub installation: Vec<Vec<InstallationStep>>,
}

/// One step of a build's installation recipe. Steps come in groups that can
/// run side by side; the groups run in order.
#[derive(Debug, Clone)]
pub enum InstallationStep {
    Download(InstallationStepDownload),
    Unzip(InstallationStepUnzip),
    Remove(InstallationStepRemove),
}

/// Fetch a file of a known size to a path.
#[derive(Debug, Clone)]
pub struct InstallationStepDownload {
    pub url: String,
    pub file: String,
    pub size: u64,
}

/// Unpack an archive into a directory.
#[derive(Debug, Clone)]
pub struct InstallationStepUnzip {
    pub file: String,
    pub location: String,
}

/// Delete a file or directory.
#[derive(Debug, Clone)]
pub struct InstallationStepRemove {
    pub location: String,
}

} // verus!
