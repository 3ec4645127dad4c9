//! The streams of the secure log: they are declared, change their tier and end, and
//! are never removed.
use vstd::prelude::*;
use vstd::string::*;

use crate::clock::{now, Moment};
use crate::commands::audit::{is_known_tier, known_tier, stream_text, StreamRow, StreamView};
use crate::failure::Failure;
use crate::json::{json_object, object1, text_field, text_view};
use crate::store::{MemoryStore, StoreState};
use crate::table::{
    distinct, distinct_push, find, get, lookup, lookup_of_push, position, position_is,
    position_is_first, present, rows, Keyed,
};
use crate::text::{opt_str, own_opt};

verus! {

impl Keyed for StreamRow {
    open spec fn key_of(v: StreamView) -> Seq<char> {
        v.name
    }

    fn key(&self) -> (k: &str) {
        self.name.as_str()
    }
}

/// The declared streams.
#[derive(Debug)]
pub struct StreamTable {
    pub rows: Vec<StreamRow>,
}

impl View for StreamTable {
    type V = Seq<StreamView>;

    open spec fn view(&self) -> Seq<StreamView> {
        rows(self.rows@)
    }
}

/// The streams after one of them was changed.
pub open spec fn with_stream(s: Seq<StreamView>, name: Seq<char>, v: StreamView) -> Seq<StreamView> {
    s.update(position::<StreamRow>(s, name), v)
}

impl StreamTable {
    /// No streams.
    pub fn new() -> (t: StreamTable)
        ensures
            t@ == Seq::<StreamView>::empty(),
    {
        let t = StreamTable { rows: Vec::new() };
        assert(t@ =~= Seq::<StreamView>::empty());
        t
    }

    /// The stream of a name.
    pub fn secure_log_stream_get(&self, name: &str) -> (r: Option<&StreamRow>)
        ensures
            match r {
                Some(row) => lookup::<StreamRow>(self@, name@) == Some(row@),
                None => lookup::<StreamRow>(self@, name@) is None,
            },
    {
        get(&self.rows, name)
    }

    /// Writes a stream: it takes the place of the one of its name, or comes last.
    pub fn secure_log_stream_upsert(&mut self, row: StreamRow)
        ensures
            final(self)@ == (if present::<StreamRow>(old(self)@, row@.name) {
                with_stream(old(self)@, row@.name, row@)
            } else {
                old(self)@.push(row@)
            }),
    {
        let at: usize = find(&self.rows, row.name.as_str());
        let ghost before = self@;
        proof {
            position_is_first::<StreamRow>(before, row@.name);
        }
        if at < self.rows.len() {
            self.rows.set(at, row);
            assert(self@ =~= before.update(at as int, row@));
        } else {
            self.rows.push(row);
            assert(self@ =~= before.push(row@));
        }
    }

    /// Gives a stream another tier; tells whether there is such a stream.
    pub fn secure_log_stream_set_tier(&mut self, name: &str, tier: &str) -> (found: bool)
        ensures
            found == present::<StreamRow>(old(self)@, name@),
            final(self)@ == (match lookup::<StreamRow>(old(self)@, name@) {
                Some(v) => with_stream(old(self)@, name@, StreamView { tier: tier@, ..v }),
                None => old(self)@,
            }),
    {
        let at: usize = find(&self.rows, name);
        if at >= self.rows.len() {
            return false;
        }
        let ghost before = self@;
        self.rows[at].tier = tier.to_owned();
        assert(self@ =~= before.update(at as int, StreamView { tier: tier@, ..before[at as int] }));
        true
    }

    /// Ends a stream; tells whether there is such a stream.
    pub fn secure_log_stream_deprecate(&mut self, name: &str, deprecated_at: &str) -> (found: bool)
        ensures
            found == present::<StreamRow>(old(self)@, name@),
            final(self)@ == (match lookup::<StreamRow>(old(self)@, name@) {
                Some(v) => with_stream(
                    old(self)@,
                    name@,
                    StreamView { deprecated_at: Some(deprecated_at@), ..v },
                ),
                None => old(self)@,
            }),
    {
        let at: usize = find(&self.rows, name);
        if at >= self.rows.len() {
            return false;
        }
        let ghost before = self@;
        self.rows[at].deprecated_at = Some(deprecated_at.to_owned());
        assert(self@ =~= before.update(
            at as int,
            StreamView { deprecated_at: Some(deprecated_at@), ..before[at as int] },
        ));
        true
    }
}

// ---------------------------------------------------------------------------
// The commands
// ---------------------------------------------------------------------------

/// Shows a stream.
pub fn streams_show(t: &StreamTable, name: &str) -> (r: Result<String, Failure>)
    ensures
        match lookup::<StreamRow>(t@, name@) {
            Some(v) => r matches Ok(s) && s@ == stream_text(v),
            None => r matches Err(e) && e@ == "stream not found: "@ + name@,
        },
{
    match t.secure_log_stream_get(name) {
        None => Err(Failure::about("stream not found: ", name)),
        Some(row) => Ok(row.render_text()),
    }
}

/// What a command does to store and streams: nothing where it is refused, else
/// one change and one entry in the log.
pub open spec fn carried_out(
    before: (StoreState, Seq<StreamView>),
    after: (StoreState, Seq<StreamView>),
    streams: Seq<StreamView>,
    action: Seq<char>,
    name: Seq<char>,
    details: Seq<char>,
    stamp: Seq<char>,
) -> bool {
    after.0 == before.0.logged(action, Some(name), details, stamp) && after.1 == streams
}

/// What declaring a stream does and says.
pub open spec fn stream_declared(
    before: (StoreState, Seq<StreamView>),
    after: (StoreState, Seq<StreamView>),
    r: Result<String, Failure>,
    name: Seq<char>,
    tier: Seq<char>,
    description: Option<Seq<char>>,
    created_at: Seq<char>,
    stamp: Seq<char>,
) -> bool {
    let v = StreamView { name, tier, description, created_at, deprecated_at: None };
    match r {
        Ok(s) => known_tier(tier) && !present::<StreamRow>(before.1, name) && carried_out(
            before,
            after,
            before.1.push(v),
            "audit.stream.create"@,
            name,
            json_object(seq![text_view("tier"@, tier)]),
            stamp,
        ) && s@ == stream_text(v),
        Err(e) => after == before && if !known_tier(tier) {
            e@ == "unknown confidentiality tier: "@ + tier
        } else {
            present::<StreamRow>(before.1, name) && e@ == "stream already exists: "@ + name
        },
    }
}

/// Declares a stream at the given time.
pub fn streams_create_at(
    store: &mut MemoryStore,
    t: &mut StreamTable,
    name: &str,
    tier: &str,
    description: Option<&str>,
    at: &Moment,
) -> (r: Result<String, Failure>)
    requires
        old(store)@.wf(),
        old(store)@.can_log(),
    ensures
        final(store)@.wf(),
        stream_declared(
            (old(store)@, old(t)@),
            (final(store)@, final(t)@),
            r,
            name@,
            tier@,
            opt_str(description),
            at.rfc3339@,
            at.stamp@,
        ),
{
    if !is_known_tier(tier) {
        return Err(Failure::about("unknown confidentiality tier: ", tier));
    }
    if t.secure_log_stream_get(name).is_some() {
        return Err(Failure::about("stream already exists: ", name));
    }
    let row = StreamRow {
        name: name.to_owned(),
        tier: tier.to_owned(),
        description: own_opt(description),
        created_at: at.rfc3339.clone(),
        deprecated_at: None,
    };
    let s = row.render_text();
    t.secure_log_stream_upsert(row);
    let details = object1(text_field("tier", tier));
    store.log_action_at(
        "audit.stream.create",
        Some(name),
        details.as_str(),
        at.stamp.as_str(),
    );
    Ok(s)
}

/// Declares a stream.
pub fn streams_create(
    store: &mut MemoryStore,
    t: &mut StreamTable,
    name: &str,
    tier: &str,
    description: Option<&str>,
) -> (r: Result<String, Failure>)
    requires
        old(store)@.wf(),
        old(store)@.can_log(),
    ensures
        final(store)@.wf(),
        exists|created_at: Seq<char>, stamp: Seq<char>|
            #[trigger] stream_declared(
                (old(store)@, old(t)@),
                (final(store)@, final(t)@),
                r,
                name@,
                tier@,
                opt_str(description),
                created_at,
                stamp,
            ),
{
    let at = now();
    streams_create_at(store, t, name, tier, description, &at)
}

/// What changing the tier of a stream does and says.
pub open spec fn tier_changed(
    before: (StoreState, Seq<StreamView>),
    after: (StoreState, Seq<StreamView>),
    r: Result<String, Failure>,
    name: Seq<char>,
    tier: Seq<char>,
    stamp: Seq<char>,
) -> bool {
    match r {
        Ok(s) => known_tier(tier) && (lookup::<StreamRow>(before.1, name) matches Some(v) && ({
            let next = StreamView { tier, ..v };
            carried_out(
                before,
                after,
                with_stream(before.1, name, next),
                "audit.stream.set_tier"@,
                name,
                json_object(seq![text_view("tier"@, tier)]),
                stamp,
            ) && s@ == stream_text(next)
        })),
        Err(e) => after == before && if !known_tier(tier) {
            e@ == "unknown confidentiality tier: "@ + tier
        } else {
            !present::<StreamRow>(before.1, name) && e@ == "stream not found: "@ + name
        },
    }
}

/// A changed stream is found as it was changed, and the others as they were.
proof fn changed_stream(s: Seq<StreamView>, name: Seq<char>, v: StreamView, other: Seq<char>)
    requires
        present::<StreamRow>(s, name),
        v.name == name,
    ensures
        lookup::<StreamRow>(with_stream(s, name, v), other) == (if other == name {
            Some(v)
        } else {
            lookup::<StreamRow>(s, other)
        }),
{
    let at = position::<StreamRow>(s, name);
    let t = with_stream(s, name, v);
    position_is_first::<StreamRow>(s, name);
    position_is_first::<StreamRow>(s, other);
    let p = position::<StreamRow>(s, other);
    assert forall|i: int| 0 <= i < p implies StreamRow::key_of(#[trigger] t[i]) != other by {
        assert(StreamRow::key_of(s[i]) != other);
    }
    if p < s.len() {
        assert(StreamRow::key_of(s[p]) == other);
    }
    position_is::<StreamRow>(t, other, p);
}

/// Changes the tier of a stream at the given time.
pub fn streams_set_tier_at(
    store: &mut MemoryStore,
    t: &mut StreamTable,
    name: &str,
    tier: &str,
    stamp: &str,
) -> (r: Result<String, Failure>)
    requires
        old(store)@.wf(),
        old(store)@.can_log(),
    ensures
        final(store)@.wf(),
        tier_changed(
            (old(store)@, old(t)@),
            (final(store)@, final(t)@),
            r,
            name@,
            tier@,
            stamp@,
        ),
{
    if !is_known_tier(tier) {
        return Err(Failure::about("unknown confidentiality tier: ", tier));
    }
    if !t.secure_log_stream_set_tier(name, tier) {
        return Err(Failure::about("stream not found: ", name));
    }
    let details = object1(text_field("tier", tier));
    store.log_action_at("audit.stream.set_tier", Some(name), details.as_str(), stamp);
    proof {
        let v = lookup::<StreamRow>(old(t)@, name@)->0;
        position_is_first::<StreamRow>(old(t)@, name@);
        changed_stream(old(t)@, name@, StreamView { tier: tier@, ..v }, name@);
    }
    streams_show(t, name)
}

/// Changes the tier of a stream.
pub fn streams_set_tier(store: &mut MemoryStore, t: &mut StreamTable, name: &str, tier: &str) -> (r:
    Result<String, Failure>)
    requires
        old(store)@.wf(),
        old(store)@.can_log(),
    ensures
        final(store)@.wf(),
        exists|stamp: Seq<char>|
            #[trigger] tier_changed(
                (old(store)@, old(t)@),
                (final(store)@, final(t)@),
                r,
                name@,
                tier@,
                stamp,
            ),
{
    let at = now();
    streams_set_tier_at(store, t, name, tier, at.stamp.as_str())
}

/// What ending a stream does and says.
pub open spec fn stream_ended(
    before: (StoreState, Seq<StreamView>),
    after: (StoreState, Seq<StreamView>),
    r: Result<String, Failure>,
    name: Seq<char>,
    deprecated_at: Seq<char>,
    stamp: Seq<char>,
) -> bool {
    match r {
        Ok(s) => lookup::<StreamRow>(before.1, name) matches Some(v) && ({
            let next = StreamView { deprecated_at: Some(deprecated_at), ..v };
            carried_out(
                before,
                after,
                with_stream(before.1, name, next),
                "audit.stream.deprecate"@,
                name,
                json_object(seq![text_view("deprecated_at"@, deprecated_at)]),
                stamp,
            ) && s@ == stream_text(next)
        }),
        Err(e) => after == before && !present::<StreamRow>(before.1, name) && e@
            == "stream not found: "@ + name,
    }
}

/// Ends a stream at the given time: it takes no more entries, and stays.
pub fn streams_delete_at(store: &mut MemoryStore, t: &mut StreamTable, name: &str, at: &Moment) -> (r:
    Result<String, Failure>)
    requires
        old(store)@.wf(),
        old(store)@.can_log(),
    ensures
        final(store)@.wf(),
        stream_ended(
            (old(store)@, old(t)@),
            (final(store)@, final(t)@),
            r,
            name@,
            at.rfc3339@,
            at.stamp@,
        ),
{
    if !t.secure_log_stream_deprecate(name, at.rfc3339.as_str()) {
        return Err(Failure::about("stream not found: ", name));
    }
    let details = object1(text_field("deprecated_at", at.rfc3339.as_str()));
    store.log_action_at(
        "audit.stream.deprecate",
        Some(name),
        details.as_str(),
        at.stamp.as_str(),
    );
    proof {
        let v = lookup::<StreamRow>(old(t)@, name@)->0;
        position_is_first::<StreamRow>(old(t)@, name@);
        changed_stream(
            old(t)@,
            name@,
            StreamView { deprecated_at: Some(at.rfc3339@), ..v },
            name@,
        );
    }
    streams_show(t, name)
}

/// Ends a stream.
pub fn streams_delete(store: &mut MemoryStore, t: &mut StreamTable, name: &str) -> (r: Result<
    String,
    Failure,
>)
    requires
        old(store)@.wf(),
        old(store)@.can_log(),
    ensures
        final(store)@.wf(),
        exists|deprecated_at: Seq<char>, stamp: Seq<char>|
            #[trigger] stream_ended(
                (old(store)@, old(t)@),
                (final(store)@, final(t)@),
                r,
                name@,
                deprecated_at,
                stamp,
            ),
{
    let at = now();
    streams_delete_at(store, t, name, &at)
}

// ---------------------------------------------------------------------------
// What holds of them
// ---------------------------------------------------------------------------

/// A stream that was declared is found, with its tier and not ended; the other
/// streams are as they were, and names stay distinct.
pub proof fn declared_stream_is_found(
    before: (StoreState, Seq<StreamView>),
    after: (StoreState, Seq<StreamView>),
    r: Result<String, Failure>,
    name: Seq<char>,
    tier: Seq<char>,
    description: Option<Seq<char>>,
    times: (Seq<char>, Seq<char>),
    other: Seq<char>,
)
    requires
        stream_declared(before, after, r, name, tier, description, times.0, times.1),
        r is Ok,
        other != name,
    ensures
        lookup::<StreamRow>(after.1, name) matches Some(v) && v.tier == tier && v.deprecated_at
            is None,
        lookup::<StreamRow>(after.1, other) == lookup::<StreamRow>(before.1, other),
        distinct::<StreamRow>(before.1) ==> distinct::<StreamRow>(after.1),
{
    let v = after.1.last();
    lookup_of_push::<StreamRow>(before.1, v, name);
    lookup_of_push::<StreamRow>(before.1, v, other);
    if distinct::<StreamRow>(before.1) {
        distinct_push::<StreamRow>(before.1, v);
    }
}

/// A stream that was ended is still there, ended, with the tier that it had;
/// the other streams are as they were.
pub proof fn ended_stream_stays(
    before: (StoreState, Seq<StreamView>),
    after: (StoreState, Seq<StreamView>),
    r: Result<String, Failure>,
    name: Seq<char>,
    times: (Seq<char>, Seq<char>),
    other: Seq<char>,
)
    requires
        stream_ended(before, after, r, name, times.0, times.1),
        r is Ok,
        other != name,
    ensures
        lookup::<StreamRow>(after.1, name) matches Some(v) && v.deprecated_at == Some(times.0)
            && v.tier == (lookup::<StreamRow>(before.1, name)->0).tier,
        lookup::<StreamRow>(after.1, other) == lookup::<StreamRow>(before.1, other),
        after.1.len() == before.1.len(),
{
    let v = lookup::<StreamRow>(before.1, name)->0;
    let next = StreamView { deprecated_at: Some(times.0), ..v };
    position_is_first::<StreamRow>(before.1, name);
    changed_stream(before.1, name, next, name);
    changed_stream(before.1, name, next, other);
}

/// A stream whose tier was changed has that tier, and is ended if it was; the
/// other streams are as they were.
pub proof fn changed_tier_is_found(
    before: (StoreState, Seq<StreamView>),
    after: (StoreState, Seq<StreamView>),
    r: Result<String, Failure>,
    name: Seq<char>,
    tier: Seq<char>,
    stamp: Seq<char>,
    other: Seq<char>,
)
    requires
        tier_changed(before, after, r, name, tier, stamp),
        r is Ok,
        other != name,
    ensures
        lookup::<StreamRow>(after.1, name) matches Some(v) && v.tier == tier && v.deprecated_at
            == (lookup::<StreamRow>(before.1, name)->0).deprecated_at,
        lookup::<StreamRow>(after.1, other) == lookup::<StreamRow>(before.1, other),
        after.1.len() == before.1.len(),
{
    let v = lookup::<StreamRow>(before.1, name)->0;
    let next = StreamView { tier, ..v };
    position_is_first::<StreamRow>(before.1, name);
    changed_stream(before.1, name, next, name);
    changed_stream(before.1, name, next, other);
}

} // verus!
