//! Grouping a chunk's vectors into clusters.

use vstd::prelude::*;

verus! {

/// A cluster: its id and the positions of its members among the chunk's
/// deduplicated mentions.
#[derive(Debug, Clone)]
pub struct ClusterGroup {
    pub cluster_id: i32,
    pub indices: Vec<usize>,
}

/// Partitions vectors into groups of their positions.
#[derive(Debug, Clone)]
pub struct Clusterer {
    pub worker_id: String,
}

/// `0, 1, ..., n - 1`.
pub open spec fn all_positions(n: nat) -> Seq<usize> {
    Seq::new(n, |i: int| i as usize)
}

impl Clusterer {
    pub fn new(worker_id: String) -> (r: Self)
        ensures
            r.worker_id@ == worker_id@,
    {
        Clusterer { worker_id }
    }

    /// Puts every vector into one cluster with id 1.
    pub fn cluster(&self, embeddings: &Vec<Vec<u8>>) -> (r: Vec<ClusterGroup>)
        ensures
            r.len() == 1,
            r@[0].cluster_id == 1,
            r@[0].indices@ == all_positions(embeddings.len() as nat),
    {
        let mut indices: Vec<usize> = Vec::new();
        let mut i: usize = 0;
        while i < embeddings.len()
            invariant
                i <= embeddings.len(),
                indices@ =~= all_positions(i as nat),
            decreases embeddings.len() - i,
        {
            indices.push(i);
            i = i + 1;
        }
        let mut r: Vec<ClusterGroup> = Vec::new();
        r.push(ClusterGroup { cluster_id: 1, indices });
        r
    }
}

} // verus!
