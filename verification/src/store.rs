//! The in-memory store of a workspace.
use vstd::prelude::*;
use vstd::string::*;

use crate::clock::{now_rfc3339, now_stamp};
use crate::failure::Failure;
use crate::model::{
    ApprovalRequest, ApprovalStatus, ApprovalView, AuditEntry, BaselineView, EntryView, Identity,
    IdentityView, NvSlot, NvView, ObjectPath, ObjectView, PcrBaseline, Policy, PolicyView, Profile,
    ProfileView, TpmObject,
};
use crate::table::{
    distinct, distinct_push, distinct_without, find, find_id, get, get_id, lookup, lookup_id,
    lookup_id_of_push, lookup_of_push, position, position_id, position_id_is, position_id_is_first,
    position_is, position_is_first, present, ref_rows, remove_all, rows, sorted, sorted_refs,
    without, without_keeps_others, without_removes, Ided, Keyed,
};
use crate::text::{contains, has, opt_str, own_opt, same, views};

pub mod roundtrips;

verus! {

/// A counter value that was recorded for a checkpoint.
#[derive(Debug)]
pub struct Counter {
    pub checkpoint_hash: String,
    pub value: u64,
}

pub ghost struct CounterView {
    pub checkpoint_hash: Seq<char>,
    pub value: u64,
}

impl View for Counter {
    type V = CounterView;

    open spec fn view(&self) -> CounterView {
        CounterView { checkpoint_hash: self.checkpoint_hash@, value: self.value }
    }
}

impl Keyed for TpmObject {
    open spec fn key_of(v: ObjectView) -> Seq<char> {
        v.path
    }

    fn key(&self) -> (k: &str) {
        self.path.as_str()
    }
}

impl Keyed for Profile {
    open spec fn key_of(v: ProfileView) -> Seq<char> {
        v.name
    }

    fn key(&self) -> (k: &str) {
        self.name.as_str()
    }
}

impl Keyed for Policy {
    open spec fn key_of(v: PolicyView) -> Seq<char> {
        v.name
    }

    fn key(&self) -> (k: &str) {
        self.name.as_str()
    }
}

impl Keyed for NvSlot {
    open spec fn key_of(v: NvView) -> Seq<char> {
        v.name
    }

    fn key(&self) -> (k: &str) {
        self.name.as_str()
    }
}

impl Keyed for PcrBaseline {
    open spec fn key_of(v: BaselineView) -> Seq<char> {
        v.name
    }

    fn key(&self) -> (k: &str) {
        self.name.as_str()
    }
}

impl Keyed for Identity {
    open spec fn key_of(v: IdentityView) -> Seq<char> {
        v.name
    }

    fn key(&self) -> (k: &str) {
        self.name.as_str()
    }
}

impl Keyed for Counter {
    open spec fn key_of(v: CounterView) -> Seq<char> {
        v.checkpoint_hash
    }

    fn key(&self) -> (k: &str) {
        self.checkpoint_hash.as_str()
    }
}

impl Ided for TpmObject {
    open spec fn id_of(v: ObjectView) -> u128 {
        v.id
    }

    fn id(&self) -> (k: u128) {
        self.id
    }
}

impl Ided for Identity {
    open spec fn id_of(v: IdentityView) -> u128 {
        v.id
    }

    fn id(&self) -> (k: u128) {
        self.id
    }
}

impl Ided for Policy {
    open spec fn id_of(v: PolicyView) -> u128 {
        v.id
    }

    fn id(&self) -> (k: u128) {
        self.id
    }
}

impl Ided for ApprovalRequest {
    open spec fn id_of(v: ApprovalView) -> u128 {
        v.id
    }

    fn id(&self) -> (k: u128) {
        self.id
    }
}

// ---------------------------------------------------------------------------
// The state
// ---------------------------------------------------------------------------

/// Everything that a store holds, each kind of record in insertion order.
#[verifier::ext_equal]
pub ghost struct StoreState {
    pub objects: Seq<ObjectView>,
    pub profiles: Seq<ProfileView>,
    pub policies: Seq<PolicyView>,
    pub nv_indices: Seq<NvView>,
    pub pcr_baselines: Seq<BaselineView>,
    pub audit_log: Seq<EntryView>,
    pub approvals: Seq<ApprovalView>,
    pub identities: Seq<IdentityView>,
    pub checkpoint_counters: Seq<CounterView>,
    pub next_audit_id: i64,
}

impl StoreState {
    /// No two identities share a name, no checkpoint has two counters, and the
    /// identifiers of the audit log ascend towards the next one.
    pub open spec fn wf(self) -> bool {
        &&& distinct::<Identity>(self.identities)
        &&& distinct::<Counter>(self.checkpoint_counters)
        &&& forall|i: int, j: int|
            #![trigger self.audit_log[i], self.audit_log[j]]
            0 <= i < j < self.audit_log.len() ==> self.audit_log[i].id < self.audit_log[j].id
        &&& forall|i: int|
            #![trigger self.audit_log[i]]
            0 <= i < self.audit_log.len() ==> self.audit_log[i].id < self.next_audit_id
    }

    /// There is an identifier left for another audit entry.
    pub open spec fn can_log(self) -> bool {
        self.next_audit_id < i64::MAX
    }

    /// The state after an action was logged.
    pub open spec fn logged(
        self,
        action: Seq<char>,
        object_path: Option<Seq<char>>,
        details: Seq<char>,
        timestamp: Seq<char>,
    ) -> StoreState {
        StoreState {
            audit_log: self.audit_log.push(
                EntryView { id: self.next_audit_id, timestamp, action, object_path, details },
            ),
            next_audit_id: (self.next_audit_id + 1) as i64,
            ..self
        }
    }

    /// The empty store.
    pub open spec fn empty() -> StoreState {
        StoreState {
            objects: Seq::empty(),
            profiles: Seq::empty(),
            policies: Seq::empty(),
            nv_indices: Seq::empty(),
            pcr_baselines: Seq::empty(),
            audit_log: Seq::empty(),
            approvals: Seq::empty(),
            identities: Seq::empty(),
            checkpoint_counters: Seq::empty(),
            next_audit_id: 1,
        }
    }
}

/// Logging keeps the store in order.
pub proof fn logging_keeps_order(
    s: StoreState,
    action: Seq<char>,
    object_path: Option<Seq<char>>,
    details: Seq<char>,
    timestamp: Seq<char>,
)
    requires
        s.wf(),
        s.can_log(),
    ensures
        s.logged(action, object_path, details, timestamp).wf(),
{
}

/// The first active profile.
pub open spec fn active_profile(s: Seq<ProfileView>) -> Option<ProfileView>
    decreases s.len(),
{
    if s.len() == 0 {
        None
    } else if s[0].is_active {
        Some(s[0])
    } else {
        active_profile(s.subrange(1, s.len() as int))
    }
}

/// The profiles once `name` is the active one.
pub open spec fn activated(s: Seq<ProfileView>, name: Seq<char>) -> Seq<ProfileView> {
    s.map_values(|p: ProfileView| ProfileView { is_active: p.name == name, ..p })
}

/// An audit entry passes the filters: its path is the wanted one, its action
/// holds the wanted text.
pub open spec fn passes(
    e: EntryView,
    object: Option<Seq<char>>,
    action: Option<Seq<char>>,
) -> bool {
    (object is Some ==> e.object_path == object) && (action is Some ==> contains(
        e.action,
        action->0,
    ))
}

/// The entries that pass the filters, newest first.
pub open spec fn newest(
    s: Seq<EntryView>,
    object: Option<Seq<char>>,
    action: Option<Seq<char>>,
) -> Seq<EntryView>
    decreases s.len(),
{
    if s.len() == 0 {
        Seq::empty()
    } else if passes(s.last(), object, action) {
        seq![s.last()] + newest(s.drop_last(), object, action)
    } else {
        newest(s.drop_last(), object, action)
    }
}

/// At most the first `limit` records.
pub open spec fn at_most<V>(s: Seq<V>, limit: int) -> Seq<V> {
    if s.len() <= limit {
        s
    } else {
        s.take(limit)
    }
}

/// The identities whose key is the given object.
pub open spec fn identities_of(s: Seq<IdentityView>, key_object_id: u128) -> Seq<IdentityView>
    decreases s.len(),
{
    if s.len() == 0 {
        Seq::empty()
    } else {
        let before = identities_of(s.drop_last(), key_object_id);
        if s.last().key_object_id == key_object_id {
            before.push(s.last())
        } else {
            before
        }
    }
}

/// The counters once `hash` has the given value.
pub open spec fn with_counter(s: Seq<CounterView>, hash: Seq<char>, value: u64) -> Seq<CounterView> {
    let v = CounterView { checkpoint_hash: hash, value };
    if present::<Counter>(s, hash) {
        s.update(position::<Counter>(s, hash), v)
    } else {
        s.push(v)
    }
}

/// `m` is the greatest recorded counter.
pub open spec fn is_max_counter(s: Seq<CounterView>, m: u64) -> bool {
    &&& exists|i: int| 0 <= i < s.len() && #[trigger] s[i].value == m
    &&& forall|i: int| 0 <= i < s.len() ==> #[trigger] s[i].value <= m
}

/// The names of NV indices with their numbers and sizes, ordered by name.
pub open spec fn nv_listing(s: Seq<NvView>) -> Seq<(Seq<char>, u32, usize)> {
    sorted::<NvSlot>(s).map_values(|n: NvView| (n.name, n.nv_index, n.size))
}

/// The views of a listing of NV indices.
pub open spec fn nv_triples(s: Seq<(String, u32, usize)>) -> Seq<(Seq<char>, u32, usize)> {
    s.map_values(|t: (String, u32, usize)| (t.0@, t.1, t.2))
}

/// The names under which register values are saved, in order.
pub open spec fn baseline_names(s: Seq<BaselineView>) -> Seq<Seq<char>> {
    sorted::<PcrBaseline>(s).map_values(|b: BaselineView| b.name)
}

/// The store of a workspace.
#[derive(Debug)]
pub struct MemoryStore {
    objects: Vec<TpmObject>,
    profiles: Vec<Profile>,
    policies: Vec<Policy>,
    nv_indices: Vec<NvSlot>,
    pcr_baselines: Vec<PcrBaseline>,
    audit_log: Vec<AuditEntry>,
    approvals: Vec<ApprovalRequest>,
    identities: Vec<Identity>,
    checkpoint_counters: Vec<Counter>,
    next_audit_id: i64,
}

impl View for MemoryStore {
    type V = StoreState;

    closed spec fn view(&self) -> StoreState {
        StoreState {
            objects: rows(self.objects@),
            profiles: rows(self.profiles@),
            policies: rows(self.policies@),
            nv_indices: rows(self.nv_indices@),
            pcr_baselines: rows(self.pcr_baselines@),
            audit_log: rows(self.audit_log@),
            approvals: rows(self.approvals@),
            identities: rows(self.identities@),
            checkpoint_counters: rows(self.checkpoint_counters@),
            next_audit_id: self.next_audit_id,
        }
    }
}

impl Default for MemoryStore {
    fn default() -> (s: MemoryStore)
        ensures
            s@ == StoreState::empty(),
            s@.wf(),
    {
        MemoryStore::new()
    }
}

/// The requests after the one at `at` was given a status at a time.
pub open spec fn with_status(
    s: Seq<ApprovalView>,
    at: int,
    status: ApprovalStatus,
    resolved_at: Seq<char>,
) -> Seq<ApprovalView> {
    s.update(at, ApprovalView { status, resolved_at: Some(resolved_at), ..s[at] })
}

impl MemoryStore {
    /// An empty store.
    pub fn new() -> (s: MemoryStore)
        ensures
            s@ == StoreState::empty(),
            s@.wf(),
    {
        let s = MemoryStore {
            objects: Vec::new(),
            profiles: Vec::new(),
            policies: Vec::new(),
            nv_indices: Vec::new(),
            pcr_baselines: Vec::new(),
            audit_log: Vec::new(),
            approvals: Vec::new(),
            identities: Vec::new(),
            checkpoint_counters: Vec::new(),
            next_audit_id: 1,
        };
        assert(s@ =~= StoreState::empty());
        s
    }

    // -- objects --

    /// Adds an object, unless its path is taken.
    pub fn insert_object(&mut self, obj: TpmObject) -> (r: Result<(), Failure>)
        requires
            old(self)@.wf(),
        ensures
            final(self)@.wf(),
            match r {
                Ok(_) => !present::<TpmObject>(old(self)@.objects, obj@.path) && final(self)@
                    == (StoreState { objects: old(self)@.objects.push(obj@), ..old(self)@ }),
                Err(e) => present::<TpmObject>(old(self)@.objects, obj@.path) && e@
                    == "UNIQUE constraint failed: objects.path"@ && final(self)@ == old(self)@,
            },
    {
        if find(&self.objects, obj.path.as_str()) < self.objects.len() {
            return Err(Failure::new("UNIQUE constraint failed: objects.path"));
        }
        self.objects.push(obj);
        assert(self@.objects =~= old(self)@.objects.push(obj@));
        Ok(())
    }

    /// The object at a path.
    pub fn get_object(&self, path: &ObjectPath) -> (r: Option<&TpmObject>)
        ensures
            match r {
                Some(o) => lookup::<TpmObject>(self@.objects, path@) == Some(o@),
                None => lookup::<TpmObject>(self@.objects, path@) is None,
            },
    {
        get(&self.objects, path.as_str())
    }

    /// The object with an identifier.
    pub fn get_object_by_id(&self, id: u128) -> (r: Option<&TpmObject>)
        ensures
            match r {
                Some(o) => lookup_id::<TpmObject>(self@.objects, id) == Some(o@),
                None => lookup_id::<TpmObject>(self@.objects, id) is None,
            },
    {
        get_id(&self.objects, id)
    }

    /// All objects, ordered by path.
    pub fn list_objects(&self) -> (r: Vec<&TpmObject>)
        ensures
            ref_rows(r@) == sorted::<TpmObject>(self@.objects),
    {
        sorted_refs(&self.objects)
    }

    /// Removes the object at a path; says whether there was one.
    pub fn delete_object(&mut self, path: &ObjectPath) -> (r: bool)
        requires
            old(self)@.wf(),
        ensures
            final(self)@.wf(),
            r == present::<TpmObject>(old(self)@.objects, path@),
            final(self)@ == (StoreState {
                objects: without::<TpmObject>(old(self)@.objects, path@),
                ..old(self)@
            }),
    {
        remove_all(&mut self.objects, path.as_str())
    }

    /// Gives the object at `old_path` a new path.
    pub fn rename_object(&mut self, old_path: &ObjectPath, new_path: ObjectPath) -> (r: Result<
        (),
        Failure,
    >)
        requires
            old(self)@.wf(),
        ensures
            final(self)@.wf(),
            match r {
                Ok(_) => present::<TpmObject>(old(self)@.objects, old_path@) && final(self)@ == ({
                    let at = position::<TpmObject>(old(self)@.objects, old_path@);
                    StoreState {
                        objects: old(self)@.objects.update(
                            at,
                            ObjectView { path: new_path@, ..old(self)@.objects[at] },
                        ),
                        ..old(self)@
                    }
                }),
                Err(e) => !present::<TpmObject>(old(self)@.objects, old_path@) && e@
                    == "object not found: "@ + old_path@ && final(self)@ == old(self)@,
            },
    {
        let at: usize = find(&self.objects, old_path.as_str());
        if at >= self.objects.len() {
            return Err(Failure::about("object not found: ", old_path.as_str()));
        }
        let ghost before = self@.objects;
        self.objects[at].path = new_path;
        assert(self@.objects =~= before.update(
            at as int,
            ObjectView { path: new_path@, ..before[at as int] },
        ));
        Ok(())
    }

    /// Checks that there is an object whose state could be set. The store in
    /// memory keeps no state beside the metadata.
    pub fn set_object_state(&self, path: &ObjectPath, _state: &str) -> (r: Result<(), Failure>)
        ensures
            match r {
                Ok(_) => present::<TpmObject>(self@.objects, path@),
                Err(e) => !present::<TpmObject>(self@.objects, path@) && e@
                    == "object not found: "@ + path@,
            },
    {
        if find(&self.objects, path.as_str()) < self.objects.len() {
            Ok(())
        } else {
            Err(Failure::about("object not found: ", path.as_str()))
        }
    }

    /// Notes that an object was used. The store in memory keeps no such time.
    pub fn touch_object(&self, _path: &ObjectPath) -> (r: Result<(), Failure>)
        ensures
            r is Ok,
    {
        Ok(())
    }

    /// How many objects there are.
    pub fn object_count(&self) -> (n: usize)
        ensures
            n == self@.objects.len(),
    {
        self.objects.len()
    }

    // -- profiles --

    /// Adds a profile.
    pub fn insert_profile(&mut self, profile: Profile)
        requires
            old(self)@.wf(),
        ensures
            final(self)@.wf(),
            final(self)@ == (StoreState {
                profiles: old(self)@.profiles.push(profile@),
                ..old(self)@
            }),
    {
        self.profiles.push(profile);
        assert(self@.profiles =~= old(self)@.profiles.push(profile@));
    }

    /// The first profile that is active.
    pub fn get_active_profile(&self) -> (r: Option<&Profile>)
        ensures
            match r {
                Some(p) => active_profile(self@.profiles) == Some(p@),
                None => active_profile(self@.profiles) is None,
            },
    {
        let ghost all = self@.profiles;
        let mut i: usize = 0;
        assert(all.subrange(0, all.len() as int) =~= all);
        while i < self.profiles.len()
            invariant
                i <= self.profiles@.len(),
                all == rows(self.profiles@),
                active_profile(all) == active_profile(all.subrange(i as int, all.len() as int)),
            decreases self.profiles@.len() - i,
        {
            let ghost rest = all.subrange(i as int, all.len() as int);
            assert(rest.subrange(1, rest.len() as int) =~= all.subrange(
                i + 1,
                all.len() as int,
            ));
            assert(rest[0] == self.profiles@[i as int]@);
            if self.profiles[i].is_active {
                return Some(&self.profiles[i]);
            }
            i += 1;
        }
        None
    }

    /// Whether there is a profile of that name.
    pub fn has_profile(&self, name: &str) -> (r: bool)
        ensures
            r == present::<Profile>(self@.profiles, name@),
    {
        find(&self.profiles, name) < self.profiles.len()
    }

    /// All profiles, ordered by name.
    pub fn list_profiles(&self) -> (r: Vec<&Profile>)
        ensures
            ref_rows(r@) == sorted::<Profile>(self@.profiles),
    {
        sorted_refs(&self.profiles)
    }

    /// Makes a profile the active one.
    pub fn set_active_profile(&mut self, name: &str) -> (r: Result<(), Failure>)
        requires
            old(self)@.wf(),
        ensures
            final(self)@.wf(),
            match r {
                Ok(_) => present::<Profile>(old(self)@.profiles, name@) && final(self)@ == (
                StoreState { profiles: activated(old(self)@.profiles, name@), ..old(self)@ }),
                Err(e) => !present::<Profile>(old(self)@.profiles, name@) && e@
                    == "profile not found: "@ + name@ && final(self)@ == old(self)@,
            },
    {
        if find(&self.profiles, name) >= self.profiles.len() {
            return Err(Failure::about("profile not found: ", name));
        }
        let ghost all = self@.profiles;
        let mut i: usize = 0;
        while i < self.profiles.len()
            invariant
                i <= self.profiles@.len() == all.len(),
                forall|k: int|
                    #![trigger self.profiles@[k]]
                    0 <= k < i ==> self.profiles@[k]@ == activated(all, name@)[k],
                forall|k: int|
                    #![trigger self.profiles@[k]]
                    i <= k < all.len() ==> self.profiles@[k]@ == all[k],
                self@ == (StoreState { profiles: rows(self.profiles@), ..old(self)@ }),
            decreases self.profiles@.len() - i,
        {
            let active = same(self.profiles[i].name.as_str(), name);
            self.profiles[i].is_active = active;
            i += 1;
        }
        assert(self@.profiles =~= activated(all, name@));
        Ok(())
    }

    // -- policies --

    /// Adds a policy.
    pub fn insert_policy(&mut self, policy: Policy)
        requires
            old(self)@.wf(),
        ensures
            final(self)@.wf(),
            final(self)@ == (StoreState {
                policies: old(self)@.policies.push(policy@),
                ..old(self)@
            }),
    {
        self.policies.push(policy);
        assert(self@.policies =~= old(self)@.policies.push(policy@));
    }

    /// The policy of a name.
    pub fn get_policy(&self, name: &str) -> (r: Option<&Policy>)
        ensures
            match r {
                Some(p) => lookup::<Policy>(self@.policies, name@) == Some(p@),
                None => lookup::<Policy>(self@.policies, name@) is None,
            },
    {
        get(&self.policies, name)
    }

    /// The policy with an identifier.
    pub fn get_policy_by_id(&self, id: u128) -> (r: Option<&Policy>)
        ensures
            match r {
                Some(p) => lookup_id::<Policy>(self@.policies, id) == Some(p@),
                None => lookup_id::<Policy>(self@.policies, id) is None,
            },
    {
        get_id(&self.policies, id)
    }

    /// All policies, ordered by name.
    pub fn list_policies(&self) -> (r: Vec<&Policy>)
        ensures
            ref_rows(r@) == sorted::<Policy>(self@.policies),
    {
        sorted_refs(&self.policies)
    }

    /// Removes the policies of a name; says whether there was one.
    pub fn delete_policy(&mut self, name: &str) -> (r: bool)
        requires
            old(self)@.wf(),
        ensures
            final(self)@.wf(),
            r == present::<Policy>(old(self)@.policies, name@),
            final(self)@ == (StoreState {
                policies: without::<Policy>(old(self)@.policies, name@),
                ..old(self)@
            }),
    {
        remove_all(&mut self.policies, name)
    }

    // -- NV indices --

    /// Reserves an NV index, with nothing written to it.
    pub fn insert_nv_index(&mut self, name: &str, nv_index: u32, size: usize)
        requires
            old(self)@.wf(),
        ensures
            final(self)@.wf(),
            final(self)@ == (StoreState {
                nv_indices: old(self)@.nv_indices.push(
                    NvView { name: name@, nv_index, size, data: None },
                ),
                ..old(self)@
            }),
    {
        self.nv_indices.push(NvSlot { name: name.to_owned(), nv_index, size, data: None });
        assert(self@.nv_indices =~= old(self)@.nv_indices.push(
            NvView { name: name@, nv_index, size, data: None },
        ));
    }

    /// The number and the size of an NV index.
    pub fn get_nv_index(&self, name: &str) -> (r: Option<(u32, usize)>)
        ensures
            match r {
                Some((nv_index, size)) => lookup::<NvSlot>(
                    self@.nv_indices,
                    name@,
                ) matches Some(n) && n.nv_index == nv_index && n.size == size,
                None => lookup::<NvSlot>(self@.nv_indices, name@) is None,
            },
    {
        match get(&self.nv_indices, name) {
            Some(n) => Some((n.nv_index, n.size)),
            None => None,
        }
    }

    /// All NV indices, ordered by name.
    pub fn list_nv_indices(&self) -> (r: Vec<(String, u32, usize)>)
        ensures
            nv_triples(r@) == nv_listing(self@.nv_indices),
    {
        let refs = sorted_refs(&self.nv_indices);
        let mut r: Vec<(String, u32, usize)> = Vec::new();
        let mut i: usize = 0;
        while i < refs.len()
            invariant
                i <= refs@.len(),
                ref_rows(refs@) == sorted::<NvSlot>(self@.nv_indices),
                nv_triples(r@) == nv_listing(self@.nv_indices).take(i as int),
            decreases refs@.len() - i,
        {
            let n: &NvSlot = refs[i];
            let ghost want = nv_listing(self@.nv_indices);
            let ghost before = nv_triples(r@);
            assert(ref_rows(refs@)[i as int] == n@);
            assert(want.len() == ref_rows(refs@).len() == refs@.len());
            assert(want[i as int] == (n.name@, n.nv_index, n.size));
            r.push((n.name.clone(), n.nv_index, n.size));
            assert(nv_triples(r@) =~= before.push(want[i as int]));
            i += 1;
            assert(nv_triples(r@) =~= want.take(i as int));
        }
        assert(ref_rows(refs@).len() == refs@.len());
        assert(nv_triples(r@) =~= nv_listing(self@.nv_indices));
        r
    }

    /// Writes data to an NV index.
    pub fn nv_write_data(&mut self, name: &str, data: Vec<u8>) -> (r: Result<(), Failure>)
        requires
            old(self)@.wf(),
        ensures
            final(self)@.wf(),
            match r {
                Ok(_) => present::<NvSlot>(old(self)@.nv_indices, name@) && final(self)@ == ({
                    let at = position::<NvSlot>(old(self)@.nv_indices, name@);
                    StoreState {
                        nv_indices: old(self)@.nv_indices.update(
                            at,
                            NvView { data: Some(data@), ..old(self)@.nv_indices[at] },
                        ),
                        ..old(self)@
                    }
                }),
                Err(e) => !present::<NvSlot>(old(self)@.nv_indices, name@) && e@
                    == "NV index not found: "@ + name@ && final(self)@ == old(self)@,
            },
    {
        let at: usize = find(&self.nv_indices, name);
        if at >= self.nv_indices.len() {
            return Err(Failure::about("NV index not found: ", name));
        }
        let ghost before = self@.nv_indices;
        self.nv_indices[at].data = Some(data);
        assert(self@.nv_indices =~= before.update(
            at as int,
            NvView { data: Some(data@), ..before[at as int] },
        ));
        Ok(())
    }

    /// What was written to an NV index.
    pub fn nv_read_data(&self, name: &str) -> (r: Option<&Vec<u8>>)
        ensures
            match r {
                Some(d) => lookup::<NvSlot>(self@.nv_indices, name@) matches Some(n) && n.data
                    == Some(d@),
                None => lookup::<NvSlot>(self@.nv_indices, name@) matches Some(n) ==> n.data
                    is None,
            },
    {
        match get(&self.nv_indices, name) {
            Some(n) => n.data.as_ref(),
            None => None,
        }
    }

    /// Removes the NV indices of a name; says whether there was one.
    pub fn delete_nv_index(&mut self, name: &str) -> (r: bool)
        requires
            old(self)@.wf(),
        ensures
            final(self)@.wf(),
            r == present::<NvSlot>(old(self)@.nv_indices, name@),
            final(self)@ == (StoreState {
                nv_indices: without::<NvSlot>(old(self)@.nv_indices, name@),
                ..old(self)@
            }),
    {
        remove_all(&mut self.nv_indices, name)
    }

    // -- register baselines --

    /// Saves register values under a name, in place of what had that name.
    pub fn save_pcr_baseline(&mut self, name: &str, bank: &str, values: &str)
        requires
            old(self)@.wf(),
        ensures
            final(self)@.wf(),
            final(self)@ == (StoreState {
                pcr_baselines: without::<PcrBaseline>(old(self)@.pcr_baselines, name@).push(
                    BaselineView { name: name@, bank: bank@, values: values@ },
                ),
                ..old(self)@
            }),
    {
        remove_all(&mut self.pcr_baselines, name);
        let ghost kept = self@.pcr_baselines;
        self.pcr_baselines.push(
            PcrBaseline { name: name.to_owned(), bank: bank.to_owned(), values: values.to_owned() },
        );
        assert(self@.pcr_baselines =~= kept.push(
            BaselineView { name: name@, bank: bank@, values: values@ },
        ));
    }

    /// The bank and the register values that were saved under a name.
    pub fn get_pcr_baseline(&self, name: &str) -> (r: Option<(String, String)>)
        ensures
            match r {
                Some((bank, values)) => lookup::<PcrBaseline>(self@.pcr_baselines, name@) == Some(
                    BaselineView { name: name@, bank: bank@, values: values@ },
                ),
                None => lookup::<PcrBaseline>(self@.pcr_baselines, name@) is None,
            },
    {
        proof {
            position_is_first::<PcrBaseline>(self@.pcr_baselines, name@);
        }
        match get(&self.pcr_baselines, name) {
            Some(b) => Some((b.bank.clone(), b.values.clone())),
            None => None,
        }
    }

    /// The names under which register values are saved, in order.
    pub fn list_pcr_baselines(&self) -> (r: Vec<String>)
        ensures
            views(r@) == baseline_names(self@.pcr_baselines),
    {
        let refs = sorted_refs(&self.pcr_baselines);
        let ghost want = baseline_names(self@.pcr_baselines);
        assert(ref_rows(refs@).len() == refs@.len());
        let mut r: Vec<String> = Vec::new();
        let mut i: usize = 0;
        while i < refs.len()
            invariant
                i <= refs@.len() == want.len(),
                ref_rows(refs@) == sorted::<PcrBaseline>(self@.pcr_baselines),
                want == baseline_names(self@.pcr_baselines),
                views(r@) == want.take(i as int),
            decreases refs@.len() - i,
        {
            let b: &PcrBaseline = refs[i];
            let ghost before = views(r@);
            assert(ref_rows(refs@)[i as int] == b@);
            r.push(b.name.clone());
            assert(views(r@) =~= before.push(want[i as int]));
            i += 1;
            assert(views(r@) =~= want.take(i as int));
        }
        assert(views(r@) =~= want);
        r
    }

    // -- audit log --

    /// Logs an action that took place at the given time.
    pub fn log_action_at(
        &mut self,
        action: &str,
        object_path: Option<&str>,
        details: &str,
        timestamp: &str,
    )
        requires
            old(self)@.wf(),
            old(self)@.can_log(),
        ensures
            final(self)@.wf(),
            final(self)@ == old(self)@.logged(action@, opt_str(object_path), details@, timestamp@),
    {
        let id: i64 = self.next_audit_id;
        self.next_audit_id = id + 1;
        let e = AuditEntry {
            id,
            timestamp: timestamp.to_owned(),
            action: action.to_owned(),
            object_path: own_opt(object_path),
            details: details.to_owned(),
        };
        self.audit_log.push(e);
        assert(self@.audit_log =~= old(self)@.audit_log.push(e@));
        assert(self@ =~= old(self)@.logged(action@, opt_str(object_path), details@, timestamp@));
    }

    /// Logs an action that takes place now.
    pub fn log_action(&mut self, action: &str, object_path: Option<&str>, details: &str)
        requires
            old(self)@.wf(),
            old(self)@.can_log(),
        ensures
            final(self)@.wf(),
            exists|timestamp: Seq<char>|
                final(self)@ == #[trigger] old(self)@.logged(
                    action@,
                    opt_str(object_path),
                    details@,
                    timestamp,
                ),
    {
        let timestamp = now_stamp();
        self.log_action_at(action, object_path, details, timestamp.as_str());
    }

    /// Logs an action; the store in memory does not keep the correlation.
    pub fn log_action_with_correlation(
        &mut self,
        action: &str,
        object_path: Option<&str>,
        details: &str,
        _correlation_id: &str,
    )
        requires
            old(self)@.wf(),
            old(self)@.can_log(),
        ensures
            final(self)@.wf(),
            exists|timestamp: Seq<char>|
                final(self)@ == #[trigger] old(self)@.logged(
                    action@,
                    opt_str(object_path),
                    details@,
                    timestamp,
                ),
    {
        self.log_action(action, object_path, details);
    }

    /// The newest entries that pass the filters, at most `limit` of them.
    pub fn list_audit_log(
        &self,
        filter_object: Option<&str>,
        filter_action: Option<&str>,
        limit: usize,
    ) -> (r: Vec<&AuditEntry>)
        ensures
            ref_rows(r@) == at_most(
                newest(self@.audit_log, opt_str(filter_object), opt_str(filter_action)),
                limit as int,
            ),
    {
        let ghost all = self@.audit_log;
        let ghost fo = opt_str(filter_object);
        let ghost fa = opt_str(filter_action);
        let mut r: Vec<&AuditEntry> = Vec::new();
        let mut i: usize = self.audit_log.len();
        assert(all.take(i as int) =~= all);
        assert(newest(all, fo, fa) =~= ref_rows(r@) + newest(all.take(i as int), fo, fa));
        while i > 0 && r.len() < limit
            invariant
                i <= all.len(),
                all == rows(self.audit_log@),
                fo == opt_str(filter_object),
                fa == opt_str(filter_action),
                r@.len() <= limit,
                newest(all, fo, fa) == ref_rows(r@) + newest(all.take(i as int), fo, fa),
            decreases i,
        {
            let e: &AuditEntry = &self.audit_log[i - 1];
            assert(all[i - 1] == e@);
            assert(all.take(i as int).last() == e@);
            assert(all.take(i as int).drop_last() =~= all.take(i - 1));
            let object_ok = match filter_object {
                None => true,
                Some(want) => match &e.object_path {
                    None => false,
                    Some(p) => same(p.as_str(), want),
                },
            };
            let action_ok = match filter_action {
                None => true,
                Some(want) => has(e.action.as_str(), want),
            };
            assert((object_ok && action_ok) == passes(e@, fo, fa));
            let ghost before = ref_rows(r@);
            if object_ok && action_ok {
                r.push(e);
                assert(ref_rows(r@) =~= before.push(e@));
                assert(before + (seq![e@] + newest(all.take(i - 1), fo, fa)) =~= ref_rows(r@)
                    + newest(all.take(i - 1), fo, fa));
            }
            i -= 1;
        }
        proof {
            let rest = newest(all.take(i as int), fo, fa);
            if i == 0 {
                assert(rest =~= Seq::<EntryView>::empty());
                assert(ref_rows(r@) =~= newest(all, fo, fa));
            } else {
                assert(ref_rows(r@) =~= newest(all, fo, fa).take(limit as int));
            }
        }
        r
    }

    // -- approvals --

    /// Adds a request for approval.
    pub fn insert_approval(&mut self, approval: ApprovalRequest)
        requires
            old(self)@.wf(),
        ensures
            final(self)@.wf(),
            final(self)@ == (StoreState {
                approvals: old(self)@.approvals.push(approval@),
                ..old(self)@
            }),
    {
        self.approvals.push(approval);
        assert(self@.approvals =~= old(self)@.approvals.push(approval@));
    }

    /// The request with an identifier.
    pub fn get_approval(&self, id: u128) -> (r: Option<&ApprovalRequest>)
        ensures
            match r {
                Some(a) => lookup_id::<ApprovalRequest>(self@.approvals, id) == Some(a@),
                None => lookup_id::<ApprovalRequest>(self@.approvals, id) is None,
            },
    {
        get_id(&self.approvals, id)
    }

    /// All requests, in the order in which they came.
    pub fn list_approvals(&self) -> (r: &Vec<ApprovalRequest>)
        ensures
            rows(r@) == self@.approvals,
    {
        &self.approvals
    }

    /// Sets the status of a request and the time at which it was resolved.
    pub fn update_approval_status_at(
        &mut self,
        id: u128,
        status: ApprovalStatus,
        resolved_at: &str,
    ) -> (r: Result<(), Failure>)
        requires
            old(self)@.wf(),
        ensures
            final(self)@.wf(),
            match r {
                Ok(_) => {
                    let at = position_id::<ApprovalRequest>(old(self)@.approvals, id);
                    &&& at < old(self)@.approvals.len()
                    &&& final(self)@ == (StoreState {
                        approvals: with_status(
                            old(self)@.approvals,
                            at,
                            status,
                            resolved_at@,
                        ),
                        ..old(self)@
                    })
                },
                Err(e) => position_id::<ApprovalRequest>(old(self)@.approvals, id)
                    == old(self)@.approvals.len() && e@ == "approval not found"@ && final(self)@
                    == old(self)@,
            },
    {
        let at: usize = find_id(&self.approvals, id);
        if at >= self.approvals.len() {
            return Err(Failure::new("approval not found"));
        }
        let ghost before = self@.approvals;
        self.approvals[at].status = status;
        self.approvals[at].resolved_at = Some(resolved_at.to_owned());
        assert(self@.approvals =~= before.update(
            at as int,
            ApprovalView { status, resolved_at: Some(resolved_at@), ..before[at as int] },
        ));
        Ok(())
    }

    /// Sets the status of a request, which is resolved now. The store in memory
    /// does not keep who resolved it.
    pub fn update_approval_status(
        &mut self,
        id: u128,
        status: ApprovalStatus,
        _resolved_by: Option<&str>,
    ) -> (r: Result<(), Failure>)
        requires
            old(self)@.wf(),
        ensures
            final(self)@.wf(),
            match r {
                Ok(_) => {
                    let at = position_id::<ApprovalRequest>(old(self)@.approvals, id);
                    &&& at < old(self)@.approvals.len()
                    &&& exists|now: Seq<char>|
                        final(self)@ == (StoreState {
                            approvals: #[trigger] with_status(old(self)@.approvals, at, status, now),
                            ..old(self)@
                        })
                },
                Err(e) => position_id::<ApprovalRequest>(old(self)@.approvals, id)
                    == old(self)@.approvals.len() && e@ == "approval not found"@ && final(self)@
                    == old(self)@,
            },
    {
        let now = now_rfc3339();
        self.update_approval_status_at(id, status, now.as_str())
    }

    // -- identities --

    /// Adds an identity, unless its name is taken.
    pub fn insert_identity(&mut self, identity: Identity) -> (r: Result<(), Failure>)
        requires
            old(self)@.wf(),
        ensures
            final(self)@.wf(),
            match r {
                Ok(_) => !present::<Identity>(old(self)@.identities, identity@.name)
                    && final(self)@ == (StoreState {
                    identities: old(self)@.identities.push(identity@),
                    ..old(self)@
                }),
                Err(e) => present::<Identity>(old(self)@.identities, identity@.name) && e@
                    == "UNIQUE constraint failed: identities.name"@ && final(self)@ == old(self)@,
            },
    {
        if find(&self.identities, identity.name.as_str()) < self.identities.len() {
            return Err(Failure::new("UNIQUE constraint failed: identities.name"));
        }
        proof {
            position_is_first::<Identity>(self@.identities, identity@.name);
            distinct_push::<Identity>(self@.identities, identity@);
        }
        self.identities.push(identity);
        assert(self@.identities =~= old(self)@.identities.push(identity@));
        Ok(())
    }

    /// The identity of a name.
    pub fn get_identity(&self, name: &str) -> (r: Option<&Identity>)
        ensures
            match r {
                Some(i) => lookup::<Identity>(self@.identities, name@) == Some(i@),
                None => lookup::<Identity>(self@.identities, name@) is None,
            },
    {
        get(&self.identities, name)
    }

    /// The identities that use a key.
    pub fn get_identity_by_key(&self, key_object_id: u128) -> (r: Vec<&Identity>)
        ensures
            ref_rows(r@) == identities_of(self@.identities, key_object_id),
    {
        let ghost all = self@.identities;
        let mut r: Vec<&Identity> = Vec::new();
        let mut i: usize = 0;
        assert(all.take(0) =~= Seq::<IdentityView>::empty());
        assert(ref_rows(r@) =~= identities_of(all.take(0), key_object_id));
        while i < self.identities.len()
            invariant
                i <= all.len(),
                all == rows(self.identities@),
                ref_rows(r@) == identities_of(all.take(i as int), key_object_id),
            decreases all.len() - i,
        {
            let x: &Identity = &self.identities[i];
            let ghost before = ref_rows(r@);
            assert(all.take(i + 1).drop_last() =~= all.take(i as int));
            assert(all.take(i + 1).last() == x@);
            if x.key_object_id == key_object_id {
                r.push(x);
                assert(ref_rows(r@) =~= before.push(x@));
            }
            i += 1;
        }
        assert(all.take(i as int) =~= all);
        r
    }

    /// All identities, ordered by name.
    pub fn list_identities(&self) -> (r: Vec<&Identity>)
        ensures
            ref_rows(r@) == sorted::<Identity>(self@.identities),
    {
        sorted_refs(&self.identities)
    }

    /// Gives an identity a new key and remembers the one that it replaces.
    pub fn update_identity_key(
        &mut self,
        name: &str,
        new_key_object_id: u128,
        rotated_from: u128,
    ) -> (r: Result<(), Failure>)
        requires
            old(self)@.wf(),
        ensures
            final(self)@.wf(),
            match r {
                Ok(_) => present::<Identity>(old(self)@.identities, name@) && final(self)@ == ({
                    let at = position::<Identity>(old(self)@.identities, name@);
                    StoreState {
                        identities: old(self)@.identities.update(
                            at,
                            IdentityView {
                                key_object_id: new_key_object_id,
                                rotated_from: Some(rotated_from),
                                ..old(self)@.identities[at]
                            },
                        ),
                        ..old(self)@
                    }
                }),
                Err(e) => !present::<Identity>(old(self)@.identities, name@) && e@
                    == "identity not found: "@ + name@ && final(self)@ == old(self)@,
            },
    {
        let at: usize = find(&self.identities, name);
        if at >= self.identities.len() {
            return Err(Failure::about("identity not found: ", name));
        }
        let ghost before = self@.identities;
        self.identities[at].key_object_id = new_key_object_id;
        self.identities[at].rotated_from = Some(rotated_from);
        assert(self@.identities =~= before.update(
            at as int,
            IdentityView {
                key_object_id: new_key_object_id,
                rotated_from: Some(rotated_from),
                ..before[at as int]
            },
        ));
        Ok(())
    }

    /// Attaches a certificate to an identity.
    pub fn set_identity_cert(&mut self, name: &str, certificate_pem: &str) -> (r: Result<
        (),
        Failure,
    >)
        requires
            old(self)@.wf(),
        ensures
            final(self)@.wf(),
            match r {
                Ok(_) => present::<Identity>(old(self)@.identities, name@) && final(self)@ == ({
                    let at = position::<Identity>(old(self)@.identities, name@);
                    StoreState {
                        identities: old(self)@.identities.update(
                            at,
                            IdentityView {
                                certificate_pem: Some(certificate_pem@),
                                ..old(self)@.identities[at]
                            },
                        ),
                        ..old(self)@
                    }
                }),
                Err(e) => !present::<Identity>(old(self)@.identities, name@) && e@
                    == "identity not found: "@ + name@ && final(self)@ == old(self)@,
            },
    {
        let at: usize = find(&self.identities, name);
        if at >= self.identities.len() {
            return Err(Failure::about("identity not found: ", name));
        }
        let ghost before = self@.identities;
        self.identities[at].certificate_pem = Some(certificate_pem.to_owned());
        assert(self@.identities =~= before.update(
            at as int,
            IdentityView { certificate_pem: Some(certificate_pem@), ..before[at as int] },
        ));
        Ok(())
    }

    /// Removes the identity of a name; says whether there was one.
    pub fn delete_identity(&mut self, name: &str) -> (r: bool)
        requires
            old(self)@.wf(),
        ensures
            final(self)@.wf(),
            r == present::<Identity>(old(self)@.identities, name@),
            final(self)@ == (StoreState {
                identities: without::<Identity>(old(self)@.identities, name@),
                ..old(self)@
            }),
    {
        proof {
            distinct_without::<Identity>(self@.identities, name@);
        }
        remove_all(&mut self.identities, name)
    }

    // -- checkpoint counters --

    /// Records the counter value of a checkpoint.
    pub fn set_checkpoint_counter(&mut self, checkpoint_hash: &str, counter: u64)
        requires
            old(self)@.wf(),
        ensures
            final(self)@.wf(),
            final(self)@ == (StoreState {
                checkpoint_counters: with_counter(
                    old(self)@.checkpoint_counters,
                    checkpoint_hash@,
                    counter,
                ),
                ..old(self)@
            }),
    {
        let at: usize = find(&self.checkpoint_counters, checkpoint_hash);
        let ghost before = self@.checkpoint_counters;
        proof {
            position_is_first::<Counter>(before, checkpoint_hash@);
        }
        if at < self.checkpoint_counters.len() {
            self.checkpoint_counters[at].value = counter;
            assert(self@.checkpoint_counters =~= with_counter(before, checkpoint_hash@, counter));
        } else {
            let c = Counter { checkpoint_hash: checkpoint_hash.to_owned(), value: counter };
            proof {
                distinct_push::<Counter>(before, c@);
            }
            self.checkpoint_counters.push(c);
            assert(self@.checkpoint_counters =~= with_counter(before, checkpoint_hash@, counter));
        }
    }

    /// The counter value of a checkpoint.
    pub fn get_checkpoint_counter(&self, checkpoint_hash: &str) -> (r: Option<u64>)
        ensures
            match r {
                Some(n) => lookup::<Counter>(
                    self@.checkpoint_counters,
                    checkpoint_hash@,
                ) matches Some(c) && c.value == n,
                None => lookup::<Counter>(self@.checkpoint_counters, checkpoint_hash@) is None,
            },
    {
        match get(&self.checkpoint_counters, checkpoint_hash) {
            Some(c) => Some(c.value),
            None => None,
        }
    }

    /// The greatest recorded counter value.
    pub fn max_checkpoint_counter(&self) -> (r: Option<u64>)
        ensures
            match r {
                Some(m) => is_max_counter(self@.checkpoint_counters, m),
                None => self@.checkpoint_counters.len() == 0,
            },
    {
        let ghost all = self@.checkpoint_counters;
        if self.checkpoint_counters.len() == 0 {
            return None;
        }
        let mut m: u64 = self.checkpoint_counters[0].value;
        let mut i: usize = 1;
        assert(all[0].value == m);
        while i < self.checkpoint_counters.len()
            invariant
                1 <= i <= all.len(),
                all == rows(self.checkpoint_counters@),
                exists|k: int| 0 <= k < i && #[trigger] all[k].value == m,
                forall|k: int| 0 <= k < i ==> #[trigger] all[k].value <= m,
            decreases all.len() - i,
        {
            let v: u64 = self.checkpoint_counters[i].value;
            assert(all[i as int].value == v);
            if v > m {
                m = v;
            }
            i += 1;
        }
        Some(m)
    }
}

// ---------------------------------------------------------------------------
// Laws
// ---------------------------------------------------------------------------

/// An object that was added is found under its path, and every other path
/// finds what it found before.
pub proof fn added_object_is_found(s: Seq<ObjectView>, o: ObjectView, other: Seq<char>)
    requires
        !present::<TpmObject>(s, o.path),
        other != o.path,
    ensures
        lookup::<TpmObject>(s.push(o), o.path) == Some(o),
        lookup::<TpmObject>(s.push(o), other) == lookup::<TpmObject>(s, other),
{
    lookup_of_push::<TpmObject>(s, o, o.path);
    lookup_of_push::<TpmObject>(s, o, other);
}

/// Where paths were distinct they stay so when an object is added or removed.
pub proof fn object_paths_stay_distinct(s: Seq<ObjectView>, o: ObjectView, removed: Seq<char>)
    requires
        distinct::<TpmObject>(s),
        !present::<TpmObject>(s, o.path),
    ensures
        distinct::<TpmObject>(s.push(o)),
        distinct::<TpmObject>(without::<TpmObject>(s, removed)),
{
    distinct_push::<TpmObject>(s, o);
    distinct_without::<TpmObject>(s, removed);
}

/// An object that was removed is not found any more, and every other path
/// finds what it found before.
pub proof fn removed_object_is_gone(s: Seq<ObjectView>, path: Seq<char>, other: Seq<char>)
    requires
        other != path,
    ensures
        lookup::<TpmObject>(without::<TpmObject>(s, path), path) is None,
        lookup::<TpmObject>(without::<TpmObject>(s, path), other) == lookup::<TpmObject>(s, other),
{
    without_removes::<TpmObject>(s, path);
    without_keeps_others::<TpmObject>(s, path, other);
}

/// A renamed object is found under its new path, with everything but the path
/// unchanged, provided that nothing stood there.
pub proof fn renamed_object_is_found(s: Seq<ObjectView>, from: Seq<char>, to: Seq<char>)
    requires
        present::<TpmObject>(s, from),
        !present::<TpmObject>(s, to),
    ensures
        lookup::<TpmObject>(
            s.update(
                position::<TpmObject>(s, from),
                ObjectView { path: to, ..s[position::<TpmObject>(s, from)] },
            ),
            to,
        ) == Some(ObjectView { path: to, ..lookup::<TpmObject>(s, from)->0 }),
{
    let at = position::<TpmObject>(s, from);
    let moved = ObjectView { path: to, ..s[at] };
    let t = s.update(at, moved);
    position_is_first::<TpmObject>(s, from);
    position_is_first::<TpmObject>(s, to);
    assert forall|i: int| 0 <= i < at implies TpmObject::key_of(#[trigger] t[i]) != to by {
        assert(t[i] == s[i]);
    }
    position_is::<TpmObject>(t, to, at);
}

/// What is read from an NV index is what was last written to it.
pub proof fn nv_reads_what_was_written(s: Seq<NvView>, name: Seq<char>, data: Seq<u8>)
    requires
        present::<NvSlot>(s, name),
    ensures
        lookup::<NvSlot>(
            s.update(
                position::<NvSlot>(s, name),
                NvView { data: Some(data), ..s[position::<NvSlot>(s, name)] },
            ),
            name,
        ) == Some(NvView { data: Some(data), ..lookup::<NvSlot>(s, name)->0 }),
{
    let at = position::<NvSlot>(s, name);
    let t = s.update(at, NvView { data: Some(data), ..s[at] });
    position_is_first::<NvSlot>(s, name);
    assert forall|i: int| 0 <= i < at implies NvSlot::key_of(#[trigger] t[i]) != name by {
        assert(t[i] == s[i]);
    }
    position_is::<NvSlot>(t, name, at);
}

/// A saved baseline is the one that its name finds, whatever had the name before.
pub proof fn saved_baseline_is_found(s: Seq<BaselineView>, b: BaselineView, other: Seq<char>)
    requires
        other != b.name,
    ensures
        lookup::<PcrBaseline>(without::<PcrBaseline>(s, b.name).push(b), b.name) == Some(b),
        lookup::<PcrBaseline>(without::<PcrBaseline>(s, b.name).push(b), other) == lookup::<
            PcrBaseline,
        >(s, other),
{
    without_removes::<PcrBaseline>(s, b.name);
    lookup_of_push::<PcrBaseline>(without::<PcrBaseline>(s, b.name), b, b.name);
    without_keeps_others::<PcrBaseline>(s, b.name, other);
    lookup_of_push::<PcrBaseline>(without::<PcrBaseline>(s, b.name), b, other);
}

/// A recorded counter is the one that its checkpoint finds, and no other
/// checkpoint is affected.
pub proof fn recorded_counter_is_found(
    s: Seq<CounterView>,
    hash: Seq<char>,
    value: u64,
    other: Seq<char>,
)
    requires
        other != hash,
    ensures
        lookup::<Counter>(with_counter(s, hash, value), hash) == Some(
            CounterView { checkpoint_hash: hash, value },
        ),
        lookup::<Counter>(with_counter(s, hash, value), other) == lookup::<Counter>(s, other),
{
    let v = CounterView { checkpoint_hash: hash, value };
    let t = with_counter(s, hash, value);
    position_is_first::<Counter>(s, hash);
    position_is_first::<Counter>(s, other);
    if present::<Counter>(s, hash) {
        let at = position::<Counter>(s, hash);
        let p = position::<Counter>(s, other);
        assert forall|i: int| 0 <= i < at implies Counter::key_of(#[trigger] t[i]) != hash by {
            assert(t[i] == s[i]);
        }
        position_is::<Counter>(t, hash, at);
        assert forall|i: int| 0 <= i < p implies Counter::key_of(#[trigger] t[i]) != other by {
            if i != at {
                assert(t[i] == s[i]);
            }
        }
        if p < s.len() {
            assert(p != at);
            assert(t[p] == s[p]);
        }
        position_is::<Counter>(t, other, p);
    } else {
        lookup_of_push::<Counter>(s, v, hash);
        lookup_of_push::<Counter>(s, v, other);
    }
}

/// Once a profile has been made the active one, it is the profile that is
/// found active.
pub proof fn activated_profile_is_active(s: Seq<ProfileView>, name: Seq<char>)
    requires
        present::<Profile>(s, name),
    ensures
        active_profile(activated(s, name)) matches Some(p) && p.name == name,
    decreases s.len(),
{
    let t = activated(s, name);
    if s.len() > 0 && s[0].name != name {
        let rest = s.subrange(1, s.len() as int);
        assert(t.subrange(1, t.len() as int) =~= activated(rest, name));
        activated_profile_is_active(rest, name);
    }
}

/// A resolved request is found with its new status and otherwise unchanged.
pub proof fn resolved_approval_is_found(
    s: Seq<ApprovalView>,
    id: u128,
    status: ApprovalStatus,
    at_time: Seq<char>,
)
    requires
        position_id::<ApprovalRequest>(s, id) < s.len(),
    ensures
        lookup_id::<ApprovalRequest>(
            with_status(s, position_id::<ApprovalRequest>(s, id), status, at_time),
            id,
        ) == Some(
            ApprovalView {
                status,
                resolved_at: Some(at_time),
                ..lookup_id::<ApprovalRequest>(s, id)->0
            },
        ),
{
    let at = position_id::<ApprovalRequest>(s, id);
    let t = with_status(s, at, status, at_time);
    position_id_is_first::<ApprovalRequest>(s, id);
    assert forall|i: int| 0 <= i < at implies ApprovalRequest::id_of(#[trigger] t[i]) != id by {
        assert(t[i] == s[i]);
    }
    position_id_is::<ApprovalRequest>(t, id, at);
}

/// An added record with a fresh identifier is found by it.
pub proof fn added_object_is_found_by_id(s: Seq<ObjectView>, o: ObjectView)
    requires
        position_id::<TpmObject>(s, o.id) == s.len(),
    ensures
        lookup_id::<TpmObject>(s.push(o), o.id) == Some(o),
{
    lookup_id_of_push::<TpmObject>(s, o, o.id);
}

/// Without filters the log lists every entry, newest first.
pub proof fn unfiltered_log_is_everything(s: Seq<EntryView>)
    ensures
        newest(s, None, None) == s.reverse(),
    decreases s.len(),
{
    if s.len() > 0 {
        unfiltered_log_is_everything(s.drop_last());
        assert(seq![s.last()] + s.drop_last().reverse() =~= s.reverse());
    } else {
        assert(newest(s, None, None) =~= s.reverse());
    }
}

} // verus!
