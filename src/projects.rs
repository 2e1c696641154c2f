//! The list of recently opened projects, most recent first.
//!
//! Reading and writing the list's file, and reading the clock, are the host's
//! part; the list itself is kept here.
use vstd::prelude::*;

verus! {

/// Longest the list grows.
pub const MAX_RECENT: usize = 10;

/// One project in the list.
pub struct RecentProject {
    pub name: String,
    pub path: String,
    /// When it was last opened, in seconds since the Unix epoch (UTC).
    pub last_opened: i64,
    pub template: String,
}

/// The persisted list of recent projects.
pub struct ProjectConfig {
    pub recent_projects: Vec<RecentProject>,
}

/// The entries of `s` whose path differs from `path`, in their order.
pub open spec fn without_path(s: Seq<RecentProject>, path: Seq<char>) -> Seq<RecentProject>
    decreases s.len(),
{
    if s.len() == 0 {
        Seq::empty()
    } else {
        let rest = without_path(s.drop_last(), path);
        if s.last().path@ == path {
            rest
        } else {
            rest.push(s.last())
        }
    }
}

/// The list after opening a project: `p` first, then the other entries
/// without any for the same path, cut to the longest length.
pub open spec fn with_recent(s: Seq<RecentProject>, p: RecentProject) -> Seq<RecentProject> {
    let all = seq![p] + without_path(s, p.path@);
    if all.len() > MAX_RECENT {
        all.subrange(0, MAX_RECENT as int)
    } else {
        all
    }
}

impl ProjectConfig {
    /// An empty list.
    pub fn new() -> (r: ProjectConfig)
        ensures
            r.recent_projects@.len() == 0,
    {
        ProjectConfig { recent_projects: Vec::new() }
    }

    /// Removes every entry for `path`, keeping the others in order.
    pub fn remove_recent_project(&mut self, path: String)
        ensures
            final(self).recent_projects@ == without_path(old(self).recent_projects@, path@),
    {
        let mut rest = self.recent_projects.split_off(0);
        let ghost orig = rest@;
        assert(orig =~= old(self).recent_projects@);
        let mut kept: Vec<RecentProject> = Vec::new();
        while rest.len() > 0
            invariant
                rest@.len() <= orig.len(),
                rest@ == orig.subrange(orig.len() - rest@.len(), orig.len() as int),
                kept@ == without_path(orig.subrange(0, orig.len() - rest@.len()), path@),
            decreases rest@.len(),
        {
            let ghost done = orig.len() - rest@.len();
            let p = rest.remove(0);
            assert(p == orig[done]);
            assert(orig.subrange(0, done + 1).drop_last() =~= orig.subrange(0, done));
            if p.path != path {
                kept.push(p);
            }
            assert(rest@ =~= orig.subrange(orig.len() - rest@.len(), orig.len() as int));
        }
        assert(orig.subrange(0, orig.len() as int) =~= orig);
        self.recent_projects = kept;
    }

    /// Puts the project at `path` first, opened at `now`, dropping an older
    /// entry for the same path and the entries past the longest length.
    pub fn add_recent_project(
        &mut self,
        name: String,
        path: String,
        template: String,
        now: i64,
    )
        ensures
            final(self).recent_projects@ == with_recent(
                old(self).recent_projects@,
                RecentProject { name, path, last_opened: now, template },
            ),
    {
        self.remove_recent_project(path.clone());
        let ghost p = RecentProject { name, path, last_opened: now, template };
        self.recent_projects.insert(0, RecentProject { name, path, last_opened: now, template });
        assert(self.recent_projects@ =~= seq![p] + without_path(old(self).recent_projects@, p.path@));
        self.recent_projects.truncate(MAX_RECENT);
    }
}

} // verus!
