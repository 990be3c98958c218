//! Saved window profiles and the operations on the profile list.
use crate::uuid_text::{new_v4_uuid, V4_BITS, V4_MASK};
use std::collections::HashSet;
use vstd::prelude::*;

verus! {

/// A saved window layout for one game. The profile's identifier is a UUID held
/// as its 128-bit value.
#[derive(Debug, PartialEq, Eq)]
pub struct Profile {
    pub uuid: u128,
    pub name: String,
    pub process_name: String,
    pub auto: bool,
    pub delay: i32,
    pub window_height: i32,
    pub window_width: i32,
    pub window_pos_y: i32,
    pub window_pos_x: i32,
    pub remove_borders: bool,
    pub shortcut: Option<String>,
}

impl Clone for Profile {
    fn clone(&self) -> (r: Self)
        ensures
            r == *self,
    {
        let shortcut = match &self.shortcut {
            Some(s) => Some(s.clone()),
            None => None,
        };
        Profile {
            uuid: self.uuid,
            name: self.name.clone(),
            process_name: self.process_name.clone(),
            auto: self.auto,
            delay: self.delay,
            window_height: self.window_height,
            window_width: self.window_width,
            window_pos_y: self.window_pos_y,
            window_pos_x: self.window_pos_x,
            remove_borders: self.remove_borders,
            shortcut,
        }
    }
}

impl Default for Profile {
    /// A new profile: a fresh random identifier, the name "New Profile", no
    /// process, an 800 x 600 window at the origin with its borders kept, no
    /// delay, no automatic apply and no shortcut.
    fn default() -> (p: Self)
        ensures
            p.uuid & V4_MASK == V4_BITS,
            p.name@ == "New Profile"@,
            p.process_name@ == ""@,
            !p.auto,
            p.delay == 0,
            p.window_height == 600,
            p.window_width == 800,
            p.window_pos_y == 0,
            p.window_pos_x == 0,
            !p.remove_borders,
            p.shortcut is None,
    {
        Profile {
            uuid: new_v4_uuid(),
            name: "New Profile".to_owned(),
            process_name: "".to_owned(),
            auto: false,
            delay: 0,
            window_height: 600,
            window_width: 800,
            window_pos_y: 0,
            window_pos_x: 0,
            remove_borders: false,
            shortcut: None,
        }
    }
}

/// Errors of the profile operations.
#[derive(Debug, Clone, PartialEq, Eq)]
pub enum ProfileError {
    /// The application data directory could not be determined.
    ProfilePathError,
    /// No profile with the requested identifier exists.
    NotFound,
    /// Reading or writing the profile file failed.
    Io(String),
    /// The profile file is not valid JSON for a list of profiles.
    Json(String),
}

/// `s` holds a profile with identifier `id`.
pub open spec fn has_uuid(s: Seq<Profile>, id: u128) -> bool {
    exists|i: int| 0 <= i < s.len() && #[trigger] s[i].uuid == id
}

/// `i` is the index of the first profile in `s` with identifier `id`.
pub open spec fn is_first_with_uuid(s: Seq<Profile>, id: u128, i: int) -> bool {
    &&& 0 <= i < s.len()
    &&& s[i].uuid == id
    &&& forall|j: int| 0 <= j < i ==> #[trigger] s[j].uuid != id
}

/// The index of the first profile in `s` with identifier `id` (meaningful when
/// `has_uuid(s, id)`).
pub open spec fn first_with_uuid(s: Seq<Profile>, id: u128) -> int {
    choose|i: int| is_first_with_uuid(s, id, i)
}

/// The first occurrence is unique.
pub proof fn lemma_first_with_uuid(s: Seq<Profile>, id: u128, i: int)
    requires
        is_first_with_uuid(s, id, i),
    ensures
        first_with_uuid(s, id) == i,
        has_uuid(s, id),
{
    let k = first_with_uuid(s, id);
    assert(is_first_with_uuid(s, id, k));
    if k < i {
        assert(s[k].uuid != id);
    }
    if i < k {
        assert(s[i].uuid != id);
    }
}

/// Finds the index of the first profile with identifier `id`.
pub fn position_of_uuid(profiles: &Vec<Profile>, id: u128) -> (r: Option<usize>)
    ensures
        match r {
            Some(i) => is_first_with_uuid(profiles@, id, i as int),
            None => !has_uuid(profiles@, id),
        },
{
    let mut k: usize = 0;
    while k < profiles.len()
        invariant
            k <= profiles@.len(),
            forall|j: int| 0 <= j < k ==> #[trigger] profiles@[j].uuid != id,
        decreases profiles@.len() - k,
    {
        if profiles[k].uuid == id {
            return Some(k);
        }
        k = k + 1;
    }
    None
}

/// Appends `profile` to the list.
pub fn add_profile(profiles: &mut Vec<Profile>, profile: Profile)
    ensures
        final(profiles)@ == old(profiles)@.push(profile),
{
    profiles.push(profile);
}

/// Replaces the first profile that has the identifier of `profile` by
/// `profile`; fails with `NotFound`, leaving the list as it was, when no profile
/// has that identifier.
pub fn update_profile(profiles: &mut Vec<Profile>, profile: Profile) -> (r: Result<(), ProfileError>)
    ensures
        r is Ok <==> has_uuid(old(profiles)@, profile.uuid),
        r is Ok ==> final(profiles)@ == old(profiles)@.update(
            first_with_uuid(old(profiles)@, profile.uuid),
            profile,
        ),
        r is Err ==> r == Err::<(), ProfileError>(ProfileError::NotFound) && final(profiles)@
            == old(profiles)@,
{
    match position_of_uuid(profiles, profile.uuid) {
        Some(i) => {
            proof {
                lemma_first_with_uuid(profiles@, profile.uuid, i as int);
            }
            profiles.set(i, profile);
            Ok(())
        },
        None => Err(ProfileError::NotFound),
    }
}

/// Removes the first profile that has the identifier of `profile`; fails with
/// `NotFound`, leaving the list as it was, when no profile has that identifier.
pub fn delete_profile(profiles: &mut Vec<Profile>, profile: &Profile) -> (r: Result<(), ProfileError>)
    ensures
        r is Ok <==> has_uuid(old(profiles)@, profile.uuid),
        r is Ok ==> final(profiles)@ == old(profiles)@.remove(
            first_with_uuid(old(profiles)@, profile.uuid),
        ),
        r is Err ==> r == Err::<(), ProfileError>(ProfileError::NotFound) && final(profiles)@
            == old(profiles)@,
{
    match position_of_uuid(profiles, profile.uuid) {
        Some(i) => {
            proof {
                lemma_first_with_uuid(profiles@, profile.uuid, i as int);
            }
            profiles.remove(i);
            Ok(())
        },
        None => Err(ProfileError::NotFound),
    }
}

/// The profiles that `ids` selects, in the order of `ids`: for each identifier,
/// the first profile that carries it; identifiers that no profile carries are
/// skipped.
pub open spec fn reordered(profiles: Seq<Profile>, ids: Seq<u128>) -> Seq<Profile>
    decreases ids.len(),
{
    if ids.len() == 0 {
        Seq::empty()
    } else {
        let rest = reordered(profiles, ids.drop_last());
        let id = ids.last();
        if has_uuid(profiles, id) {
            rest.push(profiles[first_with_uuid(profiles, id)])
        } else {
            rest
        }
    }
}

/// Builds the list of profiles in the order given by `uuids` (see `reordered`).
pub fn reorder_profiles(profiles: &Vec<Profile>, uuids: &Vec<u128>) -> (r: Vec<Profile>)
    ensures
        r@ == reordered(profiles@, uuids@),
{
    let mut out: Vec<Profile> = Vec::new();
    let mut k: usize = 0;
    while k < uuids.len()
        invariant
            k <= uuids@.len(),
            out@ == reordered(profiles@, uuids@.take(k as int)),
        decreases uuids@.len() - k,
    {
        let id = uuids[k];
        assert(uuids@.take(k + 1).drop_last() =~= uuids@.take(k as int));
        match position_of_uuid(profiles, id) {
            Some(i) => {
                proof {
                    lemma_first_with_uuid(profiles@, id, i as int);
                }
                out.push(profiles[i].clone());
            },
            None => {},
        }
        k = k + 1;
    }
    assert(uuids@.take(uuids@.len() as int) =~= uuids@);
    out
}

/// The profiles of `legacy` whose identifier no profile of `current` carries,
/// in their order in `legacy`.
pub open spec fn legacy_additions(current: Seq<Profile>, legacy: Seq<Profile>) -> Seq<Profile>
    decreases legacy.len(),
{
    if legacy.len() == 0 {
        Seq::empty()
    } else {
        let rest = legacy_additions(current, legacy.drop_last());
        if has_uuid(current, legacy.last().uuid) {
            rest
        } else {
            rest.push(legacy.last())
        }
    }
}

/// Appends to `current` every legacy profile whose identifier is not already
/// taken by a profile of `current`, and returns how many were appended.
pub fn import_legacy_profiles(current: &mut Vec<Profile>, legacy: Vec<Profile>) -> (count: usize)
    ensures
        final(current)@ == old(current)@ + legacy_additions(old(current)@, legacy@),
        count == legacy_additions(old(current)@, legacy@).len(),
{
    broadcast use vstd::std_specs::hash::group_hash_axioms;
    let ghost orig = current@;
    let mut existing: HashSet<u128> = HashSet::new();
    let mut k: usize = 0;
    while k < current.len()
        invariant
            current@ == orig,
            k <= orig.len(),
            forall|id: u128| existing@.contains(id) <==> exists|j: int| 0 <= j < k && #[trigger] orig[j].uuid == id,
        decreases orig.len() - k,
    {
        let id = current[k].uuid;
        existing.insert(id);
        proof {
            assert forall|x: u128| existing@.contains(x) implies exists|j: int| 0 <= j < k + 1 && #[trigger] orig[j].uuid == x by {
                if x != id {
                    let j = choose|j: int| 0 <= j < k && #[trigger] orig[j].uuid == x;
                    assert(0 <= j < k + 1 && orig[j].uuid == x);
                } else {
                    assert(orig[k as int].uuid == x);
                }
            }
            assert forall|x: u128| (exists|j: int| 0 <= j < k + 1 && #[trigger] orig[j].uuid == x) implies existing@.contains(x) by {
                let j = choose|j: int| 0 <= j < k + 1 && #[trigger] orig[j].uuid == x;
                if j < k {
                    assert(0 <= j < k && orig[j].uuid == x);
                }
            }
        }
        k = k + 1;
    }
    let mut count: usize = 0;
    let mut i: usize = 0;
    while i < legacy.len()
        invariant
            i <= legacy@.len(),
            forall|id: u128| existing@.contains(id) <==> has_uuid(orig, id),
            current@ == orig + legacy_additions(orig, legacy@.take(i as int)),
            count == legacy_additions(orig, legacy@.take(i as int)).len(),
            count <= i,
        decreases legacy@.len() - i,
    {
        assert(legacy@.take(i + 1).drop_last() =~= legacy@.take(i as int));
        let id = legacy[i].uuid;
        if !existing.contains(&id) {
            current.push(legacy[i].clone());
            count = count + 1;
        }
        i = i + 1;
    }
    assert(legacy@.take(legacy@.len() as int) =~= legacy@);
    count
}

/// Deleting a profile right after adding it, when no other profile had its
/// identifier, gives back the list as it was.
pub proof fn lemma_delete_undoes_add(s: Seq<Profile>, p: Profile)
    requires
        !has_uuid(s, p.uuid),
    ensures
        has_uuid(s.push(p), p.uuid),
        s.push(p).remove(first_with_uuid(s.push(p), p.uuid)) == s,
{
    let t = s.push(p);
    assert(is_first_with_uuid(t, p.uuid, s.len() as int)) by {
        assert forall|j: int| 0 <= j < s.len() implies #[trigger] t[j].uuid != p.uuid by {
            assert(t[j] == s[j]);
        }
    }
    lemma_first_with_uuid(t, p.uuid, s.len() as int);
    assert(t.remove(s.len() as int) =~= s);
}

/// After an update, looking the identifier up finds the updated profile at the
/// same place, the list keeps its length and every other entry, and updating
/// again with the same profile changes nothing more.
pub proof fn lemma_update_then_lookup(s: Seq<Profile>, p: Profile)
    requires
        has_uuid(s, p.uuid),
    ensures
        ({
            let i = first_with_uuid(s, p.uuid);
            let t = s.update(i, p);
            &&& first_with_uuid(t, p.uuid) == i
            &&& t[i] == p
            &&& t.len() == s.len()
            &&& forall|j: int| 0 <= j < s.len() && j != i ==> t[j] == s[j]
            &&& t.update(first_with_uuid(t, p.uuid), p) == t
        }),
{
    let k = choose|k: int| 0 <= k < s.len() && #[trigger] s[k].uuid == p.uuid;
    let i = first_with_uuid(s, p.uuid);
    lemma_has_first(s, p.uuid, k);
    let t = s.update(i, p);
    assert(is_first_with_uuid(t, p.uuid, i));
    lemma_first_with_uuid(t, p.uuid, i);
    assert(t.update(i, p) =~= t);
}

/// A profile list that carries an identifier has a first profile carrying it.
pub proof fn lemma_has_first(s: Seq<Profile>, id: u128, k: int)
    requires
        0 <= k < s.len(),
        s[k].uuid == id,
    ensures
        is_first_with_uuid(s, id, first_with_uuid(s, id)),
    decreases k,
{
    if exists|j: int| 0 <= j < k && #[trigger] s[j].uuid == id {
        let j = choose|j: int| 0 <= j < k && #[trigger] s[j].uuid == id;
        lemma_has_first(s, id, j);
    } else {
        assert(is_first_with_uuid(s, id, k));
    }
}

/// No two profiles of the list share an identifier.
pub open spec fn uuids_unique(s: Seq<Profile>) -> bool {
    forall|i: int, j: int| 0 <= i < j < s.len() ==> #[trigger] s[i].uuid != #[trigger] s[j].uuid
}

/// The identifiers of the profiles, in list order.
pub open spec fn uuids_of(s: Seq<Profile>) -> Seq<u128> {
    s.map_values(|p: Profile| p.uuid)
}

/// Reordering a list whose identifiers are unique by its own order of
/// identifiers gives the list back.
pub proof fn lemma_reorder_identity(s: Seq<Profile>)
    requires
        uuids_unique(s),
    ensures
        reordered(s, uuids_of(s)) == s,
{
    lemma_reorder_prefix(s, s.len() as int);
    assert(uuids_of(s).take(s.len() as int) =~= uuids_of(s));
    assert(s.take(s.len() as int) =~= s);
}

proof fn lemma_reorder_prefix(s: Seq<Profile>, k: int)
    requires
        uuids_unique(s),
        0 <= k <= s.len(),
    ensures
        reordered(s, uuids_of(s).take(k)) == s.take(k),
    decreases k,
{
    if k > 0 {
        let ids = uuids_of(s);
        lemma_reorder_prefix(s, k - 1);
        assert(ids.take(k).drop_last() =~= ids.take(k - 1));
        assert(ids.take(k).last() == s[k - 1].uuid);
        assert(is_first_with_uuid(s, s[k - 1].uuid, k - 1)) by {
            assert forall|j: int| 0 <= j < k - 1 implies #[trigger] s[j].uuid != s[k - 1].uuid by {
                assert(s[j].uuid != s[k - 1].uuid);
            }
        }
        lemma_first_with_uuid(s, s[k - 1].uuid, k - 1);
        assert(s.take(k - 1).push(s[k - 1]) =~= s.take(k));
    } else {
        assert(s.take(0) =~= Seq::<Profile>::empty());
    }
}

/// Every legacy profile's identifier is carried by the list after the import.
pub proof fn lemma_import_covers(current: Seq<Profile>, legacy: Seq<Profile>, j: int)
    requires
        0 <= j < legacy.len(),
    ensures
        has_uuid(current + legacy_additions(current, legacy), legacy[j].uuid),
    decreases legacy.len(),
{
    let rest = legacy_additions(current, legacy.drop_last());
    let all = current + legacy_additions(current, legacy);
    if j < legacy.len() - 1 {
        lemma_import_covers(current, legacy.drop_last(), j);
        let t = current + rest;
        let k = choose|k: int| 0 <= k < t.len() && #[trigger] t[k].uuid == legacy[j].uuid;
        assert(all[k] == t[k]);
    } else if has_uuid(current, legacy[j].uuid) {
        let k = choose|k: int| 0 <= k < current.len() && #[trigger] current[k].uuid == legacy[j].uuid;
        assert(all[k] == current[k]);
    } else {
        assert(all[all.len() - 1] == legacy.last());
    }
}

/// Importing the same legacy profiles a second time adds nothing.
pub proof fn lemma_import_twice(current: Seq<Profile>, legacy: Seq<Profile>)
    ensures
        legacy_additions(current + legacy_additions(current, legacy), legacy).len() == 0,
{
    let after = current + legacy_additions(current, legacy);
    lemma_no_additions(after, legacy, legacy.len() as int, current);
    assert(legacy.take(legacy.len() as int) =~= legacy);
}

proof fn lemma_no_additions(after: Seq<Profile>, legacy: Seq<Profile>, n: int, current: Seq<Profile>)
    requires
        0 <= n <= legacy.len(),
        after == current + legacy_additions(current, legacy),
    ensures
        legacy_additions(after, legacy.take(n)).len() == 0,
    decreases n,
{
    if n > 0 {
        assert(legacy.take(n).drop_last() =~= legacy.take(n - 1));
        assert(legacy.take(n).last() == legacy[n - 1]);
        lemma_no_additions(after, legacy, n - 1, current);
        lemma_import_covers(current, legacy, n - 1);
    }
}

} // verus!
