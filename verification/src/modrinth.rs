use vstd::prelude::*;

verus! {

/// A project listing as the mod catalog reports it.
#[derive(Debug, Clone)]
pub struct Project {
    pub id: Option<String>,
    pub project_id: Option<String>,
    pub title: String,
    pub description: String,
    pub downloads: u32,

    pub installed_version: Option<Version>,
    pub installed_latest_version: Option<Version>,

    pub versions: Vec<String>,
}

/// One released version of a project.
#[derive(Debug, Clone)]
pub struct Version {
    pub id: String,
    pub project_id: String,
    pub game_versions: Vec<String>,

    pub name: Option<String>,
    pub version_number: Option<String>,

    pub files: Vec<File>,
}

/// One downloadable file of a version.
#[derive(Debug, Clone)]
pub struct File {
    pub primary: bool,
    pub filename: String,
    pub url: String,
    pub size: u64,
}

/// A handle on the mod catalog: the base address its queries go to.
pub struct ModrinthApi {
    url: String,
}

impl ModrinthApi {
    /// The base address this handle queries.
    pub closed spec fn spec_url(&self) -> Seq<char> {
        self.url@
    }

    /// A handle that queries the catalog at `url`.
    pub fn new(url: String) -> (r: ModrinthApi)
        ensures
            r.spec_url() == url@,
    {
        ModrinthApi { url }
    }

    /// The base address, for the caller that performs the queries.
    pub fn url(&self) -> (r: &String)
        ensures
            r@ == self.spec_url(),
    {
        &self.url
    }
}

} // verus!
