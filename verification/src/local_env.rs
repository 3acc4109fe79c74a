//! The environment that endpoints run in.
use vstd::prelude::*;

use crate::ids::NodeId;

verus! {

/// A safekeeper of the environment, with the port on which it serves computes.
#[derive(Clone, Copy, Debug, PartialEq, Eq, Structural)]
pub struct SafekeeperConf {
    pub id: NodeId,
    pub compute_port: u16,
}

/// What endpoints need to know of the environment.
#[derive(Debug, PartialEq, Eq)]
pub struct LocalEnv {
    /// The directory with one subdirectory for each endpoint.
    pub endpoints_path: String,
    /// The directory of the programs that are launched.
    pub neon_distrib_dir: String,
    pub safekeepers: Vec<SafekeeperConf>,
}

/// What a [`LocalEnv`] denotes.
#[verifier::ext_equal]
pub struct LocalEnvView {
    pub endpoints_path: Seq<char>,
    pub neon_distrib_dir: Seq<char>,
    pub safekeepers: Seq<SafekeeperConf>,
}

impl View for LocalEnv {
    type V = LocalEnvView;

    open spec fn view(&self) -> LocalEnvView {
        LocalEnvView {
            endpoints_path: self.endpoints_path@,
            neon_distrib_dir: self.neon_distrib_dir@,
            safekeepers: self.safekeepers@,
        }
    }
}

impl Clone for LocalEnv {
    fn clone(&self) -> (r: Self)
        ensures
            r@ == self@,
    {
        let r = LocalEnv {
            endpoints_path: self.endpoints_path.clone(),
            neon_distrib_dir: self.neon_distrib_dir.clone(),
            safekeepers: self.safekeepers.clone(),
        };
        assert(r@ =~= self@);
        r
    }
}

/// The first safekeeper with the given id.
pub open spec fn find_safekeeper(safekeepers: Seq<SafekeeperConf>, id: NodeId) -> Option<
    SafekeeperConf,
>
    decreases safekeepers.len(),
{
    if safekeepers.len() == 0 {
        None
    } else if safekeepers[0].id == id {
        Some(safekeepers[0])
    } else {
        find_safekeeper(safekeepers.skip(1), id)
    }
}

impl LocalEnv {
    /// Looks up the first safekeeper with the given id.
    pub fn safekeeper(&self, id: NodeId) -> (r: Option<SafekeeperConf>)
        ensures
            r == find_safekeeper(self@.safekeepers, id),
    {
        let ghost all = self.safekeepers@;
        let mut i: usize = 0;
        assert(all.skip(0) =~= all);
        while i < self.safekeepers.len()
            invariant
                i <= self.safekeepers@.len(),
                all == self.safekeepers@,
                find_safekeeper(all, id) == find_safekeeper(all.skip(i as int), id),
            decreases self.safekeepers@.len() - i,
        {
            assert(all.skip(i as int)[0] == all[i as int]);
            if self.safekeepers[i].id == id {
                return Some(self.safekeepers[i]);
            }
            assert(all.skip(i as int).skip(1) =~= all.skip(i + 1));
            i = i + 1;
        }
        None
    }
}

} // verus!
