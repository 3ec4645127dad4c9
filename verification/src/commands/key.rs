//! Keys: creation, listing, signing, deletion and export.
use vstd::prelude::*;
use vstd::string::*;

use crate::clock::{fresh_id, now, now_stamp, Moment};
use crate::commands::common::{
    add_object, added_and_logged, class_list, copy_bytes, objects_of, user_algorithm, user_path,
    ObjectClass,
};
use crate::diag::{DiagCode, DiagView, Diagnostic, Severity};
use crate::failure::Failure;
use crate::grid::{cells_of, column, column_width, print_table, table_text, widest};
use crate::hex::{hex_encode, hex_text};
use crate::ids::{id_text, uuid_form};
use crate::json::{json_object, object0, object1, text_field, text_view};
use crate::model::{valid_path, Algorithm, KeyHandle, ObjectKind, ObjectPath, ObjectView, TpmObject};
use crate::store::{MemoryStore, StoreState};
use crate::table::{lookup, present, ref_rows, without};
use crate::text::{
    cut_time, field, framed, glue, opt_str, push_field, same, to_the_second, views,
};

verus! {

/// The diagnosis of a path that is no object path.
pub open spec fn bad_path_view(path: Seq<char>) -> DiagView {
    DiagView::plain(Severity::Error, DiagCode::E0003, "invalid object path: "@ + path)
}

/// Checks a path that the user gave, with a diagnosis of a bad one.
pub fn diagnosed_path(path: &str) -> (r: Result<ObjectPath, Failure>)
    ensures
        match r {
            Ok(p) => valid_path(path@) && p@ == path@,
            Err(e) => !valid_path(path@) && e@ == "invalid object path: "@ + path@ && e.shown()
                == bad_path_view(path@).text(),
        },
{
    match ObjectPath::new(path) {
        Some(p) => Ok(p),
        None => {
            let m = glue("invalid object path: ", path);
            Err(Diagnostic::error(DiagCode::E0003, m.as_str()).refuse())
        },
    }
}

// ---------------------------------------------------------------------------
// Creation
// ---------------------------------------------------------------------------

/// The diagnosis of a path at which something stands already. `show` is the
/// command that shows it.
pub open spec fn taken_view(show: Seq<char>, path: Seq<char>, other: Seq<char>) -> DiagView {
    DiagView {
        suggestions: seq![show + path + "` to inspect it"@, other],
        ..DiagView::plain(Severity::Error, DiagCode::E0007, "object already exists: "@ + path)
    }
}

/// Refuses a path at which something stands already.
pub fn taken(show: &str, path: &str, other: &str) -> (f: Failure)
    ensures
        f@ == "object already exists: "@ + path@,
        f.shown() == taken_view(show@, path@, other@).text(),
{
    let m = glue("object already exists: ", path);
    let hint = framed(show, path, "` to inspect it");
    let d = Diagnostic::error(DiagCode::E0007, m.as_str()).with_suggestion(
        hint.as_str(),
    ).with_suggestion(other);
    assert(d@.suggestions =~= taken_view(show@, path@, other@).suggestions);
    d.refuse()
}

/// The diagnosis of a key that is taken already.
pub open spec fn key_taken_view(path: Seq<char>) -> DiagView {
    taken_view(
        "run `tpm key show "@,
        path,
        "use a different name or delete the existing object first"@,
    )
}

/// Checks that a key can be created.
pub fn create_check(store: &MemoryStore, path: &str, algorithm: &str) -> (r: Result<
    (ObjectPath, Algorithm),
    Failure,
>)
    ensures
        match r {
            Ok((p, alg)) => valid_path(path@) && p@ == path@ && !present::<TpmObject>(
                store@.objects,
                path@,
            ) && Algorithm::named(algorithm@) == Some(alg),
            Err(e) => if !valid_path(path@) {
                e@ == "invalid object path: "@ + path@ && e.shown() == bad_path_view(path@).text()
            } else if present::<TpmObject>(store@.objects, path@) {
                e@ == "object already exists: "@ + path@ && e.shown() == key_taken_view(
                    path@,
                ).text()
            } else {
                Algorithm::named(algorithm@) is None && e@ == "unknown algorithm: "@ + algorithm@
            },
        },
{
    let p = diagnosed_path(path)?;
    if store.get_object(&p).is_some() {
        return Err(
            taken(
                "run `tpm key show ",
                path,
                "use a different name or delete the existing object first",
            ),
        );
    }
    let alg = user_algorithm(algorithm)?;
    Ok((p, alg))
}

/// A signing key as the store keeps it.
pub open spec fn signing_key(
    path: Seq<char>,
    algorithm: Algorithm,
    handle: Seq<u8>,
    id: u128,
    created_at: Seq<char>,
) -> ObjectView {
    ObjectView {
        id,
        path,
        kind: ObjectKind::SigningKey,
        algorithm,
        policy_id: None,
        handle_blob: Some(handle),
        created_at,
        metadata: json_object(Seq::empty()),
    }
}

/// A created key as it is printed.
pub open spec fn created_text(path: Seq<char>, algorithm: Algorithm, id: u128) -> Seq<char> {
    field("key created: "@, path) + field("  algorithm: "@, algorithm.text()) + field(
        "  id: "@,
        uuid_form(id),
    )
}

/// What the creation of a key does to the store and prints.
pub open spec fn key_created(
    before: StoreState,
    after: StoreState,
    r: Result<String, Failure>,
    path: Seq<char>,
    algorithm: Algorithm,
    handle: Seq<u8>,
    id: u128,
    created_at: Seq<char>,
    stamp: Seq<char>,
) -> bool {
    match r {
        Ok(s) => !present::<TpmObject>(before.objects, path) && after == added_and_logged(
            before,
            signing_key(path, algorithm, handle, id, created_at),
            "key.create"@,
            json_object(seq![text_view("algorithm"@, algorithm.text())]),
            stamp,
        ) && s@ == created_text(path, algorithm, id),
        Err(e) => present::<TpmObject>(before.objects, path) && e@
            == "UNIQUE constraint failed: objects.path"@ && after == before,
    }
}

/// Keeps a key that the TPM has created, under a given identifier and time.
pub fn create_at(
    store: &mut MemoryStore,
    path: ObjectPath,
    algorithm: Algorithm,
    handle: Vec<u8>,
    id: u128,
    at: &Moment,
) -> (r: Result<String, Failure>)
    requires
        old(store)@.wf(),
        old(store)@.can_log(),
    ensures
        final(store)@.wf(),
        key_created(
            old(store)@,
            final(store)@,
            r,
            path@,
            algorithm,
            handle@,
            id,
            at.rfc3339@,
            at.stamp@,
        ),
{
    let name = path.copy();
    let obj = TpmObject {
        id,
        path,
        kind: ObjectKind::SigningKey,
        algorithm,
        policy_id: None,
        handle_blob: Some(handle),
        created_at: at.rfc3339.clone(),
        metadata: object0(),
    };
    let details = object1(text_field("algorithm", algorithm.name()));
    add_object(store, obj, "key.create", details.as_str(), at.stamp.as_str())?;
    let mut s = String::new();
    push_field(&mut s, "key created: ", name.as_str());
    push_field(&mut s, "  algorithm: ", algorithm.name());
    push_field(&mut s, "  id: ", id_text(id).as_str());
    assert(s@ =~= created_text(path@, algorithm, id));
    Ok(s)
}

/// Keeps a key that the TPM has created, under a fresh identifier.
pub fn create(
    store: &mut MemoryStore,
    path: ObjectPath,
    algorithm: Algorithm,
    handle: Vec<u8>,
) -> (r: Result<String, Failure>)
    requires
        old(store)@.wf(),
        old(store)@.can_log(),
    ensures
        final(store)@.wf(),
        exists|id: u128, created_at: Seq<char>, stamp: Seq<char>|
            #[trigger] key_created(
                old(store)@,
                final(store)@,
                r,
                path@,
                algorithm,
                handle@,
                id,
                created_at,
                stamp,
            ),
{
    let id: u128 = fresh_id();
    let at = now();
    create_at(store, path, algorithm, handle, id, &at)
}

// ---------------------------------------------------------------------------
// Listing
// ---------------------------------------------------------------------------

/// The cells of a key in the list.
pub open spec fn key_cells(o: ObjectView) -> Seq<Seq<char>> {
    seq![o.path, o.algorithm.text(), to_the_second(o.created_at)]
}

/// The keys as they are listed.
pub open spec fn listing(keys: Seq<ObjectView>) -> Seq<char> {
    if keys.len() == 0 {
        "No keys found.\n"@
    } else {
        let rows = Seq::new(keys.len(), |i: int| key_cells(keys[i]));
        table_text(
            seq!["PATH"@, "ALGORITHM"@, "CREATED"@],
            rows,
            seq![widest(column(rows, 0), keys.len()), 15usize],
        )
    }
}

fn key_rows(keys: &Vec<&TpmObject>) -> (rows: Vec<Vec<String>>)
    ensures
        cells_of(rows@) == Seq::new(keys@.len(), |i: int| key_cells(ref_rows(keys@)[i])),
        forall|i: int| 0 <= i < rows@.len() ==> (#[trigger] rows@[i])@.len() == 3,
{
    let mut rows: Vec<Vec<String>> = Vec::new();
    let mut n: usize = 0;
    while n < keys.len()
        invariant
            n <= keys@.len(),
            rows@.len() == n,
            forall|i: int| 0 <= i < rows@.len() ==> (#[trigger] rows@[i])@.len() == 3,
            forall|i: int|
                0 <= i < rows@.len() ==> views((#[trigger] rows@[i])@) == key_cells(keys@[i]@),
        decreases keys@.len() - n,
    {
        let k: &TpmObject = keys[n];
        assert(k@ == keys@[n as int]@);
        let mut row: Vec<String> = Vec::new();
        row.push(k.path.as_str().to_owned());
        row.push(k.algorithm.name().to_owned());
        row.push(cut_time(k.created_at.as_str()));
        assert(views(row@) =~= key_cells(k@));
        rows.push(row);
        n += 1;
    }
    assert(cells_of(rows@) =~= Seq::new(keys@.len(), |i: int| key_cells(ref_rows(keys@)[i])));
    rows
}

/// Lists the keys.
pub fn list(store: &MemoryStore) -> (s: String)
    ensures
        s@ == listing(class_list(store@, ObjectClass::Key)),
{
    let keys = objects_of(store, ObjectClass::Key);
    let ghost all = ref_rows(keys@);
    if keys.len() == 0 {
        return "No keys found.\n".to_owned();
    }
    let rows = key_rows(&keys);
    assert(cells_of(rows@) =~= Seq::new(all.len(), |i: int| key_cells(all[i])));
    let mut head: Vec<String> = Vec::new();
    head.push("PATH".to_owned());
    head.push("ALGORITHM".to_owned());
    head.push("CREATED".to_owned());
    assert(views(head@) =~= seq!["PATH"@, "ALGORITHM"@, "CREATED"@]);
    let w: usize = column_width(&rows, 0);
    let mut widths: Vec<usize> = Vec::new();
    widths.push(w);
    widths.push(15);
    assert(widths@ =~= seq![w, 15usize]);
    print_table(&head, &rows, &widths)
}

// ---------------------------------------------------------------------------
// One key
// ---------------------------------------------------------------------------

/// The diagnosis of a key that is not there.
pub open spec fn missing_view(path: Seq<char>) -> DiagView {
    DiagView {
        suggestions: seq!["run `tpm key list` to see available keys"@],
        ..DiagView::plain(Severity::Error, DiagCode::E0004, "object not found: "@ + path)
    }
}

fn missing(path: &str) -> (f: Failure)
    ensures
        f@ == "object not found: "@ + path@,
        f.shown() == missing_view(path@).text(),
{
    let m = glue("object not found: ", path);
    let d = Diagnostic::error(DiagCode::E0004, m.as_str()).with_suggestion(
        "run `tpm key list` to see available keys",
    );
    assert(d@.suggestions =~= missing_view(path@).suggestions);
    d.refuse()
}

/// A key as it is shown.
pub open spec fn detail_text(o: ObjectView) -> Seq<char> {
    field("path:       "@, o.path) + field("id:         "@, uuid_form(o.id)) + field(
        "kind:       "@,
        o.kind.text(),
    ) + field("algorithm:  "@, o.algorithm.text()) + field("created:    "@, o.created_at) + field(
        "handle:     "@,
        if o.handle_blob is Some {
            "present"@
        } else {
            "none"@
        },
    )
}

/// Shows a key.
pub fn show(store: &MemoryStore, path: &str) -> (r: Result<String, Failure>)
    ensures
        match r {
            Ok(s) => valid_path(path@) && (lookup::<TpmObject>(store@.objects, path@) matches Some(
                o,
            ) && s@ == detail_text(o)),
            Err(e) => if !valid_path(path@) {
                e@ == "invalid object path: "@ + path@ && e.shown() == bad_path_view(path@).text()
            } else {
                !present::<TpmObject>(store@.objects, path@) && e@ == "object not found: "@ + path@
                    && e.shown() == missing_view(path@).text()
            },
        },
{
    let p = diagnosed_path(path)?;
    match store.get_object(&p) {
        None => Err(missing(path)),
        Some(o) => {
            let mut s = String::new();
            push_field(&mut s, "path:       ", o.path.as_str());
            push_field(&mut s, "id:         ", id_text(o.id).as_str());
            push_field(&mut s, "kind:       ", o.kind.name());
            push_field(&mut s, "algorithm:  ", o.algorithm.name());
            push_field(&mut s, "created:    ", o.created_at.as_str());
            push_field(
                &mut s,
                "handle:     ",
                if o.handle_blob.is_some() {
                    "present"
                } else {
                    "none"
                },
            );
            assert(s@ =~= detail_text(o@));
            Ok(s)
        },
    }
}

// ---------------------------------------------------------------------------
// Signing
// ---------------------------------------------------------------------------

/// The key with which something is to be signed.
pub fn sign_key(store: &MemoryStore, path: &str) -> (r: Result<KeyHandle, Failure>)
    ensures
        match r {
            Ok(h) => valid_path(path@) && h.path@ == path@ && (lookup::<TpmObject>(
                store@.objects,
                path@,
            ) matches Some(o) && o.handle_blob == Some(h.id@)),
            Err(e) => if !valid_path(path@) {
                e@ == "invalid object path: "@ + path@
            } else {
                match lookup::<TpmObject>(store@.objects, path@) {
                    None => e@ == "object not found: "@ + path@,
                    Some(o) => o.handle_blob is None && e@ == "key has no handle: "@ + path@,
                }
            },
        },
{
    let p = user_path(path)?;
    match store.get_object(&p) {
        None => Err(Failure::about("object not found: ", path)),
        Some(o) => match &o.handle_blob {
            None => Err(Failure::about("key has no handle: ", path)),
            Some(blob) => Ok(KeyHandle { id: copy_bytes(blob), path: path.to_owned() }),
        },
    }
}

/// A signature as it is printed.
pub open spec fn signed_text(
    key: Seq<char>,
    input: Seq<char>,
    signature: Seq<u8>,
    output: Option<Seq<char>>,
) -> Seq<char> {
    field("signed with: "@, key) + field("input:       "@, input) + field(
        "signature:   "@,
        hex_text(signature),
    ) + match output {
        Some(f) => field("written to:  "@, f),
        None => Seq::empty(),
    }
}

/// Logs a signature that was made at the given time and prints it.
pub fn sign_at(
    store: &mut MemoryStore,
    key: &str,
    input: &str,
    signature: &Vec<u8>,
    output: Option<&str>,
    stamp: &str,
) -> (s: String)
    requires
        old(store)@.wf(),
        old(store)@.can_log(),
    ensures
        final(store)@.wf(),
        final(store)@ == old(store)@.logged(
            "key.sign"@,
            Some(key@),
            json_object(seq![text_view("input"@, input@)]),
            stamp@,
        ),
        s@ == signed_text(key@, input@, signature@, opt_str(output)),
{
    let details = object1(text_field("input", input));
    store.log_action_at("key.sign", Some(key), details.as_str(), stamp);
    let mut s = String::new();
    push_field(&mut s, "signed with: ", key);
    push_field(&mut s, "input:       ", input);
    push_field(&mut s, "signature:   ", hex_encode(signature.as_slice()).as_str());
    match output {
        Some(f) => {
            push_field(&mut s, "written to:  ", f);
        },
        None => {},
    }
    assert(s@ =~= signed_text(key@, input@, signature@, opt_str(output)));
    s
}

/// Logs a signature that was made just now and prints it.
pub fn sign(
    store: &mut MemoryStore,
    key: &str,
    input: &str,
    signature: &Vec<u8>,
    output: Option<&str>,
) -> (s: String)
    requires
        old(store)@.wf(),
        old(store)@.can_log(),
    ensures
        final(store)@.wf(),
        exists|stamp: Seq<char>|
            final(store)@ == #[trigger] old(store)@.logged(
                "key.sign"@,
                Some(key@),
                json_object(seq![text_view("input"@, input@)]),
                stamp,
            ),
        s@ == signed_text(key@, input@, signature@, opt_str(output)),
{
    let stamp = now_stamp();
    sign_at(store, key, input, signature, output, stamp.as_str())
}

// ---------------------------------------------------------------------------
// Deletion
// ---------------------------------------------------------------------------

/// What the deletion of a key does to the store and prints.
pub open spec fn key_deleted(
    before: StoreState,
    after: StoreState,
    r: Result<String, Failure>,
    path: Seq<char>,
    stamp: Seq<char>,
) -> bool {
    match r {
        Ok(s) => valid_path(path) && present::<TpmObject>(before.objects, path) && after == (
        StoreState { objects: without::<TpmObject>(before.objects, path), ..before }).logged(
            "key.delete"@,
            Some(path),
            json_object(Seq::empty()),
            stamp,
        ) && s@ == field("key deleted: "@, path),
        Err(e) => after == before && if !valid_path(path) {
            e@ == "invalid object path: "@ + path
        } else {
            !present::<TpmObject>(before.objects, path) && e@ == "object not found: "@ + path
                && e.shown() == missing_view(path).text()
        },
    }
}

/// Deletes a key at the given time.
pub fn delete_at(store: &mut MemoryStore, path: &str, stamp: &str) -> (r: Result<String, Failure>)
    requires
        old(store)@.wf(),
        old(store)@.can_log(),
    ensures
        final(store)@.wf(),
        key_deleted(old(store)@, final(store)@, r, path@, stamp@),
{
    let p = user_path(path)?;
    if store.get_object(&p).is_none() {
        return Err(missing(path));
    }
    store.delete_object(&p);
    let details = object0();
    store.log_action_at("key.delete", Some(path), details.as_str(), stamp);
    let mut s = String::new();
    push_field(&mut s, "key deleted: ", path);
    assert(s@ =~= field("key deleted: "@, path@));
    Ok(s)
}

/// Deletes a key.
pub fn delete(store: &mut MemoryStore, path: &str) -> (r: Result<String, Failure>)
    requires
        old(store)@.wf(),
        old(store)@.can_log(),
    ensures
        final(store)@.wf(),
        exists|stamp: Seq<char>|
            #[trigger] key_deleted(old(store)@, final(store)@, r, path@, stamp),
{
    let stamp = now_stamp();
    delete_at(store, path, stamp.as_str())
}

// ---------------------------------------------------------------------------
// Export
// ---------------------------------------------------------------------------

/// The public part of a key in the form that was asked for.
pub open spec fn public_key(o: ObjectView, form: Seq<char>) -> Option<Seq<char>> {
    if form == "pem"@ {
        Some(
            "-----BEGIN PUBLIC KEY-----\n(mock "@ + o.algorithm.text() + " public key for "@
                + o.path + ")\n-----END PUBLIC KEY-----"@,
        )
    } else if form == "der"@ {
        Some("(mock DER for "@ + o.path + ")"@)
    } else if form == "raw"@ {
        Some(
            match o.handle_blob {
                Some(b) => hex_text(b),
                None => hex_text(Seq::empty()),
            },
        )
    } else {
        None
    }
}

/// An exported key as it is printed.
pub open spec fn export_text(path: Seq<char>, o: ObjectView, form: Seq<char>) -> Seq<char> {
    field("path:       "@, path) + field("algorithm:  "@, o.algorithm.text()) + field(
        "format:     "@,
        form,
    ) + "\n"@ + public_key(o, form)->0 + "\n"@
}

fn public_material(o: &TpmObject, form: &str) -> (r: Option<String>)
    ensures
        match r {
            Some(s) => public_key(o@, form@) == Some(s@),
            None => public_key(o@, form@) is None,
        },
{
    if same(form, "pem") {
        let mut s = String::new();
        s.append("-----BEGIN PUBLIC KEY-----\n(mock ");
        s.append(o.algorithm.name());
        s.append(" public key for ");
        s.append(o.path.as_str());
        s.append(")\n-----END PUBLIC KEY-----");
        assert(s@ =~= public_key(o@, form@)->0);
        return Some(s);
    }
    if same(form, "der") {
        assert("der"@ != "pem"@) by {
            reveal_strlit("der");
            reveal_strlit("pem");
            assert("der"@[0] != "pem"@[0]);
        }
        return Some(framed("(mock DER for ", o.path.as_str(), ")"));
    }
    if same(form, "raw") {
        return Some(
            match &o.handle_blob {
                Some(b) => hex_encode(b.as_slice()),
                None => {
                    let nothing: Vec<u8> = Vec::new();
                    assert(nothing@ =~= Seq::<u8>::empty());
                    hex_encode(nothing.as_slice())
                },
            },
        );
    }
    None
}

/// Exports the public part of a key.
pub fn export_pub(store: &MemoryStore, path: &str, key_format: &str) -> (r: Result<String, Failure>)
    ensures
        match r {
            Ok(s) => valid_path(path@) && (lookup::<TpmObject>(store@.objects, path@) matches Some(
                o,
            ) && public_key(o, key_format@) is Some && s@ == export_text(path@, o, key_format@)),
            Err(e) => if !valid_path(path@) {
                e@ == "invalid object path: "@ + path@
            } else {
                match lookup::<TpmObject>(store@.objects, path@) {
                    None => e@ == "object not found: "@ + path@,
                    Some(o) => public_key(o, key_format@) is None && e@
                        == "unsupported key format: "@ + key_format@ + " (use pem, der, raw)"@,
                }
            },
        },
{
    let p = user_path(path)?;
    match store.get_object(&p) {
        None => Err(Failure::about("object not found: ", path)),
        Some(o) => match public_material(o, key_format) {
            None => Err(
                Failure::around("unsupported key format: ", key_format, " (use pem, der, raw)"),
            ),
            Some(material) => {
                let mut s = String::new();
                push_field(&mut s, "path:       ", path);
                push_field(&mut s, "algorithm:  ", o.algorithm.name());
                push_field(&mut s, "format:     ", key_format);
                s.append("\n");
                s.append(material.as_str());
                s.append("\n");
                assert(s@ =~= export_text(path@, o@, key_format@));
                Ok(s)
            },
        },
    }
}

} // verus!
