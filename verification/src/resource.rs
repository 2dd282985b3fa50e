//! What the operator is shown of a cluster.

use vstd::prelude::*;

verus! {

/// A cluster with what a probe of its API server told.
#[derive(Debug, Clone)]
pub struct Cluster {
    pub name: String,
    pub url: String,
    pub version: String,
    pub platform: String,
    /// Whether the API server answered.
    pub status: bool,
}

impl Cluster {
    /// A cluster that has not answered: version and platform are `Unknown`.
    pub fn unknown(name: String, url: String) -> (c: Cluster)
        ensures
            c.name == name,
            c.url == url,
            c.version@ == "Unknown"@,
            c.platform@ == "Unknown"@,
            !c.status,
    {
        Cluster {
            name,
            url,
            version: "Unknown".to_string(),
            platform: "Unknown".to_string(),
            status: false,
        }
    }

    /// The API server answered with its version and platform.
    pub fn reached(&mut self, version: String, platform: String)
        ensures
            final(self).name == old(self).name,
            final(self).url == old(self).url,
            final(self).version == version,
            final(self).platform == platform,
            final(self).status,
    {
        self.version = version;
        self.platform = platform;
        self.status = true;
    }
}

} // verus!
