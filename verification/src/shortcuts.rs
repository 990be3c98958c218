//! Global keyboard shortcuts: which shortcut applies which profile.
use crate::profile::Profile;
use vstd::prelude::*;

verus! {

/// A shortcut to register, and the index of the profile it applies.
#[derive(Debug, Clone, PartialEq, Eq)]
pub struct ShortcutBinding {
    pub shortcut: String,
    pub profile_index: usize,
}

/// The profile has a shortcut, and it is not empty.
pub open spec fn has_shortcut(p: Profile) -> bool {
    p.shortcut is Some && p.shortcut->0@.len() > 0
}

/// The shortcuts of the profiles in list order, each with its profile's index;
/// profiles without a shortcut or with an empty one get none.
pub open spec fn bindings_of(profiles: Seq<Profile>) -> Seq<(Seq<char>, int)>
    decreases profiles.len(),
{
    if profiles.len() == 0 {
        Seq::empty()
    } else {
        let rest = bindings_of(profiles.drop_last());
        let last = profiles.last();
        if has_shortcut(last) {
            rest.push((last.shortcut->0@, profiles.len() - 1))
        } else {
            rest
        }
    }
}

pub open spec fn binding_views(v: Seq<ShortcutBinding>) -> Seq<(Seq<char>, int)> {
    v.map_values(|b: ShortcutBinding| (b.shortcut@, b.profile_index as int))
}

/// The shortcuts to register for the saved profiles.
pub fn shortcut_bindings(profiles: &Vec<Profile>) -> (r: Vec<ShortcutBinding>)
    ensures
        binding_views(r@) == bindings_of(profiles@),
{
    let mut out: Vec<ShortcutBinding> = Vec::new();
    let mut i: usize = 0;
    while i < profiles.len()
        invariant
            i <= profiles@.len(),
            binding_views(out@) == bindings_of(profiles@.take(i as int)),
        decreases profiles@.len() - i,
    {
        let ghost before = out@;
        assert(profiles@.take(i + 1).drop_last() =~= profiles@.take(i as int));
        assert(profiles@.take(i + 1).last() == profiles@[i as int]);
        match &profiles[i].shortcut {
            Some(s) => {
                if s.as_str().unicode_len() > 0 {
                    out.push(ShortcutBinding { shortcut: s.clone(), profile_index: i });
                    assert(binding_views(out@) =~= binding_views(before).push((s@, i as int)));
                }
            },
            None => {},
        }
        i = i + 1;
    }
    assert(profiles@.take(profiles@.len() as int) =~= profiles@);
    out
}

/// Every profile whose shortcut is set and not empty is bound, at its own
/// index, whatever its other fields hold; every binding is such a profile's
/// shortcut; and the bindings follow the order of the profiles.
pub proof fn lemma_bindings_complete(profiles: Seq<Profile>)
    ensures
        forall|i: int| 0 <= i < profiles.len() && has_shortcut(#[trigger] profiles[i])
            ==> exists|j: int| 0 <= j < bindings_of(profiles).len() && #[trigger] bindings_of(profiles)[j] == (profiles[i].shortcut->0@, i),
        forall|j: int| 0 <= j < bindings_of(profiles).len() ==> {
            let b = #[trigger] bindings_of(profiles)[j];
            &&& 0 <= b.1 < profiles.len()
            &&& has_shortcut(profiles[b.1])
            &&& b.0 == profiles[b.1].shortcut->0@
        },
        forall|j: int, k: int| 0 <= j < k < bindings_of(profiles).len() ==> #[trigger] bindings_of(profiles)[j].1 < #[trigger] bindings_of(profiles)[k].1,
    decreases profiles.len(),
{
    if profiles.len() > 0 {
        let init = profiles.drop_last();
        lemma_bindings_complete(init);
        let rest = bindings_of(init);
        let all = bindings_of(profiles);
        assert forall|i: int| 0 <= i < profiles.len() && has_shortcut(#[trigger] profiles[i])
            implies exists|j: int| 0 <= j < all.len() && #[trigger] all[j] == (profiles[i].shortcut->0@, i) by {
            if i < profiles.len() - 1 {
                assert(init[i] == profiles[i]);
                let j = choose|j: int| 0 <= j < rest.len() && #[trigger] rest[j] == (init[i].shortcut->0@, i);
                assert(all[j] == rest[j]);
            } else {
                assert(all[all.len() - 1] == (profiles[i].shortcut->0@, i));
            }
        }
        assert forall|j: int| 0 <= j < all.len() implies {
            let b = #[trigger] all[j];
            &&& 0 <= b.1 < profiles.len()
            &&& has_shortcut(profiles[b.1])
            &&& b.0 == profiles[b.1].shortcut->0@
        } by {
            if j < rest.len() {
                assert(all[j] == rest[j]);
                assert(init[rest[j].1] == profiles[rest[j].1]);
            }
        }
        assert forall|j: int, k: int| 0 <= j < k < all.len() implies #[trigger] all[j].1 < #[trigger] all[k].1 by {
            assert(all[j] == rest[j]);
            if k < rest.len() {
                assert(all[k] == rest[k]);
            }
        }
    }
}

} // verus!
