//! Which remote each local branch tracks.

use crate::text::same;
use vstd::prelude::*;

verus! {

/// The table that a list of settings amounts to: each setting names a
/// branch and its remote, and a later setting for a branch replaces an
/// earlier one.
pub open spec fn table(settings: Seq<(Seq<char>, Seq<char>)>) -> Map<Seq<char>, Seq<char>>
    decreases settings.len(),
{
    if settings.len() == 0 {
        Map::empty()
    } else {
        table(settings.drop_last()).insert(settings.last().0, settings.last().1)
    }
}

/// The views of a list of settings.
pub open spec fn setting_views(settings: Seq<(String, String)>) -> Seq<(Seq<char>, Seq<char>)> {
    Seq::new(settings.len(), |i: int| (settings[i].0@, settings[i].1@))
}

/// Settings for other branches do not matter to what the table says of
/// `branch`.
proof fn lemma_table_skips(settings: Seq<(Seq<char>, Seq<char>)>, branch: Seq<char>, n: int)
    requires
        0 <= n <= settings.len(),
        forall|j: int| n <= j < settings.len() ==> settings[j].0 != branch,
    ensures
        table(settings).dom().contains(branch) == table(settings.take(n)).dom().contains(branch),
        table(settings).dom().contains(branch) ==> table(settings)[branch] == table(
            settings.take(n),
        )[branch],
    decreases settings.len() - n,
{
    if n == settings.len() {
        assert(settings.take(n) =~= settings);
    } else {
        let front = settings.drop_last();
        assert(front.take(n) =~= settings.take(n));
        lemma_table_skips(front, branch, n);
    }
}

/// The remote that each local branch is configured to track. A branch
/// without such a setting has no entry.
#[derive(Clone, Debug)]
pub struct BranchRemotes {
    settings: Vec<(String, String)>,
}

impl View for BranchRemotes {
    type V = Map<Seq<char>, Seq<char>>;

    closed spec fn view(&self) -> Map<Seq<char>, Seq<char>> {
        table(setting_views(self.settings@))
    }
}

impl BranchRemotes {
    /// The empty table.
    pub fn new() -> (r: Self)
        ensures
            r@ == Map::<Seq<char>, Seq<char>>::empty(),
    {
        let r = BranchRemotes { settings: Vec::new() };
        assert(setting_views(r.settings@) =~= Seq::empty());
        r
    }

    /// Records that `branch` tracks `remote`, in place of what the table
    /// said of `branch` before.
    pub fn insert(&mut self, branch: String, remote: String)
        ensures
            final(self)@ == old(self)@.insert(branch@, remote@),
    {
        let ghost before = setting_views(self.settings@);
        self.settings.push((branch, remote));
        proof {
            let after = setting_views(self.settings@);
            assert(after.drop_last() =~= before);
            assert(after.last() == (branch@, remote@));
        }
    }

    /// The remote that `branch` tracks, if the table has one for it.
    pub fn get(&self, branch: &str) -> (r: Option<&String>)
        ensures
            r is Some <==> self@.dom().contains(branch@),
            r matches Some(remote) ==> remote@ == self@[branch@],
    {
        let ghost all = setting_views(self.settings@);
        let mut i: usize = self.settings.len();
        while i > 0
            invariant
                i <= self.settings.len(),
                all == setting_views(self.settings@),
                forall|j: int| i <= j < all.len() ==> all[j].0 != branch@,
            decreases i,
        {
            i -= 1;
            if same(self.settings[i].0.as_str(), branch) {
                proof {
                    lemma_table_skips(all, branch@, i + 1);
                    assert(all.take(i + 1).drop_last() =~= all.take(i as int));
                    assert(all.take(i + 1).last() == all[i as int]);
                }
                return Some(&self.settings[i].1);
            }
        }
        proof {
            lemma_table_skips(all, branch@, 0);
            assert(all.take(0) =~= Seq::empty());
        }
        None
    }
}

} // verus!
