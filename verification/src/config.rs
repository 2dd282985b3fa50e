//! The cluster configuration of an operator: the clusters that are known, and
//! the contexts that name a cluster, a user and a namespace.

use vstd::prelude::*;

verus! {

/// A configuration file, as it is read.
#[derive(Debug, Clone)]
pub struct KubernetesConfig {
    pub api_version: String,
    pub clusters: Vec<Cluster>,
    pub contexts: Vec<Context>,
    pub current_context: String,
    pub active_view_context: Option<String>,
}

/// A cluster under its name.
#[derive(Debug, Clone)]
pub struct Cluster {
    pub name: String,
    pub cluster: ClusterInfo,
}

/// How a cluster is reached.
#[derive(Debug, Clone)]
pub struct ClusterInfo {
    pub server: String,
    pub certificate_authority_data: String,
}

/// A context under its name.
#[derive(Debug, Clone)]
pub struct Context {
    pub name: String,
    pub context: ContextInfo,
}

/// What a context selects.
#[derive(Debug, Clone)]
pub struct ContextInfo {
    pub cluster: String,
    pub user: String,
    pub namespace: Option<String>,
}

impl KubernetesConfig {
    /// The context at position `at` names the cluster `cluster_name`.
    pub open spec fn selects(&self, at: int, cluster_name: Seq<char>) -> bool {
        0 <= at < self.contexts@.len() && self.contexts@[at].context.cluster@ == cluster_name
    }

    /// The position of the first context that names the cluster
    /// `cluster_name`, or nothing where no context does.
    pub fn context_for_cluster(&self, cluster_name: &str) -> (r: Option<usize>)
        ensures
            match r {
                Some(at) => self.selects(at as int, cluster_name@) && forall|j: int|
                    0 <= j < at ==> !self.selects(j, cluster_name@),
                None => forall|j: int| !self.selects(j, cluster_name@),
            },
    {
        let wanted = cluster_name.to_string();
        let mut at: usize = 0;
        while at < self.contexts.len()
            invariant
                at <= self.contexts@.len(),
                wanted@ == cluster_name@,
                forall|j: int| 0 <= j < at ==> !self.selects(j, cluster_name@),
            decreases self.contexts@.len() - at,
        {
            if self.contexts[at].context.cluster == wanted {
                return Some(at);
            }
            at = at + 1;
        }
        None
    }
}

} // verus!
