//! Files that the operating system asks the app to open before its window
//! is ready to take them: they wait in a queue, each path once.

use vstd::prelude::*;
use crate::cli::views;
use crate::text::str_eq;

verus! {

broadcast use vstd::string::group_string_axioms;

/// The files waiting for the window, and whether the window has taken them.
#[derive(Debug, Clone, Default)]
pub struct OpenedFiles {
    pub pending_paths: Vec<String>,
    pub frontend_ready: bool,
}

/// The queue after `paths` arrive: each path not yet waiting is added, in
/// order, once.
pub open spec fn queued(pending: Seq<Seq<char>>, paths: Seq<Seq<char>>) -> Seq<Seq<char>>
    decreases paths.len(),
{
    if paths.len() == 0 {
        pending
    } else {
        let before = queued(pending, paths.drop_last());
        if before.contains(paths.last()) {
            before
        } else {
            before.push(paths.last())
        }
    }
}

fn contains_path(paths: &Vec<String>, path: &String) -> (b: bool)
    ensures
        b == views(paths@).contains(path@),
{
    let mut i: usize = 0;
    while i < paths.len()
        invariant
            i <= paths@.len(),
            forall|k: int| 0 <= k < i ==> #[trigger] paths@[k]@ != path@,
        decreases paths@.len() - i,
    {
        if str_eq(paths[i].as_str(), path.as_str()) {
            assert(views(paths@)[i as int] == path@);
            return true;
        }
        i = i + 1;
    }
    proof {
        if views(paths@).contains(path@) {
            let k = choose|k: int| 0 <= k < views(paths@).len() && views(paths@)[k] == path@;
            assert(paths@[k]@ == path@);
        }
    }
    false
}

impl OpenedFiles {
    /// Hands the waiting files to the window, which is ready from now on.
    pub fn take_initial_files(&mut self) -> (r: Vec<String>)
        ensures
            r@ == old(self).pending_paths@,
            final(self).pending_paths@.len() == 0,
            final(self).frontend_ready,
    {
        self.frontend_ready = true;
        let mut taken: Vec<String> = Vec::new();
        std::mem::swap(&mut taken, &mut self.pending_paths);
        taken
    }

    /// Queues files that arrive before the window is ready; once it is
    /// ready, nothing is queued.
    pub fn queue_before_frontend_ready(&mut self, paths: &Vec<String>)
        ensures
            final(self).frontend_ready == old(self).frontend_ready,
            old(self).frontend_ready ==> final(self).pending_paths@ == old(self).pending_paths@,
            !old(self).frontend_ready ==> views(final(self).pending_paths@) == queued(
                views(old(self).pending_paths@),
                views(paths@),
            ),
    {
        if self.frontend_ready {
            return;
        }
        let ghost start = views(self.pending_paths@);
        let mut i: usize = 0;
        while i < paths.len()
            invariant
                i <= paths@.len(),
                !self.frontend_ready,
                self.frontend_ready == old(self).frontend_ready,
                start == views(old(self).pending_paths@),
                views(self.pending_paths@) == queued(start, views(paths@).subrange(0, i as int)),
            decreases paths@.len() - i,
        {
            proof {
                let p = views(paths@).subrange(0, i + 1);
                assert(p.drop_last() =~= views(paths@).subrange(0, i as int));
                assert(p.last() == paths@[i as int]@);
            }
            if !contains_path(&self.pending_paths, &paths[i]) {
                self.pending_paths.push(paths[i].clone());
                assert(views(self.pending_paths@) =~= queued(
                    start,
                    views(paths@).subrange(0, i as int),
                ).push(paths@[i as int]@));
            }
            i = i + 1;
        }
        assert(views(paths@).subrange(0, paths@.len() as int) =~= views(paths@));
    }
}

} // verus!
