//! Secrets: sealing, unsealing and listing.
use vstd::prelude::*;
use vstd::string::*;
use vstd::utf8::*;

use crate::clock::{fresh_id, now, now_stamp, Moment};
use crate::commands::common::{
    add_object, added_and_logged, class_list, copy_bytes, objects_of, user_path, ObjectClass,
};
use crate::commands::key::{taken, taken_view};
use crate::diag::{DiagCode, DiagView, Diagnostic, Severity};
use crate::failure::Failure;
use crate::grid::{cells_of, column, column_width, print_table, table_text, widest};
use crate::ids::{id_text, uuid_form};
use crate::json::{
    as_number, json_member, json_number, json_object, member, number_field, number_view, object0,
    object1, object2, text_field, text_view,
};
use crate::model::{
    valid_path, Algorithm, ObjectKind, ObjectPath, ObjectView, Policy, TpmObject,
};
use crate::store::{MemoryStore, StoreState};
use crate::table::{lookup, present, ref_rows};
use crate::text::{
    byte_prefix, cut_time, decimal, decimal_text, field, glue, opt_str, prefix_bytes,
    push_decimal, push_field, to_the_second, utf8_text, views,
};

verus! {

// ---------------------------------------------------------------------------
// Sealing
// ---------------------------------------------------------------------------

/// Checks that a secret can be kept under a name.
pub fn seal_check(store: &MemoryStore, name: &str) -> (r: Result<ObjectPath, Failure>)
    ensures
        match r {
            Ok(p) => valid_path(name@) && p@ == name@ && !present::<TpmObject>(
                store@.objects,
                name@,
            ),
            Err(e) => if !valid_path(name@) {
                e@ == "invalid object path: "@ + name@
            } else {
                present::<TpmObject>(store@.objects, name@) && e@ == "object already exists: "@
                    + name@ && e.shown() == taken_view(
                    "run `tpm secret show "@,
                    name@,
                    "choose a different name"@,
                ).text()
            },
        },
{
    let p = user_path(name)?;
    if store.get_object(&p).is_some() {
        return Err(taken("run `tpm secret show ", name, "choose a different name"));
    }
    Ok(p)
}

/// The policy under which a secret is to be sealed, if one was named.
pub fn seal_policy(store: &MemoryStore, policy_name: Option<&str>) -> (r: Result<
    Option<u128>,
    Failure,
>)
    ensures
        match r {
            Ok(None) => policy_name is None,
            Ok(Some(id)) => policy_name matches Some(n) && (lookup::<Policy>(
                store@.policies,
                n@,
            ) matches Some(p) && p.id == id),
            Err(e) => policy_name matches Some(n) && !present::<Policy>(store@.policies, n@) && e@
                == "policy not found: "@ + n@,
        },
{
    match policy_name {
        None => Ok(None),
        Some(n) => match store.get_policy(n) {
            None => Err(Failure::about("policy not found: ", n)),
            Some(p) => Ok(Some(p.id)),
        },
    }
}

/// The last `k` bytes of a number, the most significant first.
pub open spec fn big_endian(n: int, k: nat) -> Seq<u8>
    decreases k,
{
    if k == 0 {
        Seq::empty()
    } else {
        big_endian(n / 256, (k - 1) as nat).push((n % 256) as u8)
    }
}

fn big_endian_bytes(n: u128, k: usize) -> (v: Vec<u8>)
    ensures
        v@ == big_endian(n as int, k as nat),
    decreases k,
{
    if k == 0 {
        Vec::new()
    } else {
        let mut v = big_endian_bytes(n / 256, k - 1);
        v.push((n % 256) as u8);
        v
    }
}

/// The digest under which the TPM seals for a policy: the sixteen bytes of the
/// policy's identifier.
pub fn seal_digest(policy_id: Option<u128>) -> (r: Option<Vec<u8>>)
    ensures
        crate::text::opt_bytes(r) == match policy_id {
            Some(id) => Some(big_endian(id as int, 16)),
            None => None,
        },
{
    match policy_id {
        Some(id) => Some(big_endian_bytes(id, 16)),
        None => None,
    }
}

/// A sealed secret as the store keeps it.
pub open spec fn sealed_object(
    path: Seq<char>,
    policy_id: Option<u128>,
    blob: Seq<u8>,
    size: usize,
    input: Seq<char>,
    id: u128,
    created_at: Seq<char>,
) -> ObjectView {
    ObjectView {
        id,
        path,
        kind: ObjectKind::SealedBlob,
        algorithm: Algorithm::EccP256,
        policy_id,
        handle_blob: Some(blob),
        created_at,
        metadata: json_object(
            seq![number_view("original_size"@, size as u64), text_view("input"@, input)],
        ),
    }
}

/// A sealed secret as it is printed.
pub open spec fn sealed_text(path: Seq<char>, id: u128, size: usize, has_policy: bool) -> Seq<
    char,
> {
    field("secret sealed: "@, path) + field("  id: "@, uuid_form(id)) + ("  size: "@ + decimal(
        size as nat,
    ) + " bytes\n"@) + field(
        "  policy: "@,
        if has_policy {
            "yes"@
        } else {
            "none"@
        },
    )
}

/// What sealing a secret does to the store and prints. The size that was
/// sealed can be read from the object.
pub open spec fn secret_sealed(
    before: StoreState,
    after: StoreState,
    r: Result<String, Failure>,
    path: Seq<char>,
    policy_id: Option<u128>,
    blob: Seq<u8>,
    size: usize,
    input: Seq<char>,
    id: u128,
    created_at: Seq<char>,
    stamp: Seq<char>,
) -> bool {
    let object = sealed_object(path, policy_id, blob, size, input, id, created_at);
    match r {
        Ok(s) => !present::<TpmObject>(before.objects, path) && after == added_and_logged(
            before,
            object,
            "secret.seal"@,
            json_object(seq![number_view("size"@, size as u64)]),
            stamp,
        ) && s@ == sealed_text(path, id, size, policy_id is Some) && sealed_size(object)
            == Some(size as u64),
        Err(e) => present::<TpmObject>(before.objects, path) && e@
            == "UNIQUE constraint failed: objects.path"@ && after == before,
    }
}

/// Keeps a secret that the TPM has sealed, under a given identifier and time.
/// `blob` is the sealed data in the form in which it is kept.
pub fn seal_at(
    store: &mut MemoryStore,
    path: ObjectPath,
    policy_id: Option<u128>,
    blob: Vec<u8>,
    size: usize,
    input: &str,
    id: u128,
    at: &Moment,
) -> (r: Result<String, Failure>)
    requires
        old(store)@.wf(),
        old(store)@.can_log(),
    ensures
        final(store)@.wf(),
        secret_sealed(
            old(store)@,
            final(store)@,
            r,
            path@,
            policy_id,
            blob@,
            size,
            input@,
            id,
            at.rfc3339@,
            at.stamp@,
        ),
{
    let name = path.copy();
    let metadata = object2(
        number_field("original_size", size as u64),
        text_field("input", input),
    );
    proof {
        reveal_strlit("original_size");
        reveal_strlit("input");
        assert("original_size"@.len() != "input"@.len());
    }
    let obj = TpmObject {
        id,
        path,
        kind: ObjectKind::SealedBlob,
        algorithm: Algorithm::EccP256,
        policy_id,
        handle_blob: Some(blob),
        created_at: at.rfc3339.clone(),
        metadata,
    };
    let details = object1(number_field("size", size as u64));
    add_object(store, obj, "secret.seal", details.as_str(), at.stamp.as_str())?;
    let mut s = String::new();
    push_field(&mut s, "secret sealed: ", name.as_str());
    push_field(&mut s, "  id: ", id_text(id).as_str());
    s.append("  size: ");
    push_decimal(&mut s, size as u64);
    s.append(" bytes\n");
    push_field(
        &mut s,
        "  policy: ",
        if policy_id.is_some() {
            "yes"
        } else {
            "none"
        },
    );
    assert(s@ =~= sealed_text(path@, id, size, policy_id is Some));
    Ok(s)
}

/// Keeps a secret that the TPM has sealed, under a fresh identifier.
pub fn seal(
    store: &mut MemoryStore,
    path: ObjectPath,
    policy_id: Option<u128>,
    blob: Vec<u8>,
    size: usize,
    input: &str,
) -> (r: Result<String, Failure>)
    requires
        old(store)@.wf(),
        old(store)@.can_log(),
    ensures
        final(store)@.wf(),
        exists|id: u128, created_at: Seq<char>, stamp: Seq<char>|
            #[trigger] secret_sealed(
                old(store)@,
                final(store)@,
                r,
                path@,
                policy_id,
                blob@,
                size,
                input@,
                id,
                created_at,
                stamp,
            ),
{
    let id: u128 = fresh_id();
    let at = now();
    seal_at(store, path, policy_id, blob, size, input, id, &at)
}

// ---------------------------------------------------------------------------
// Unsealing
// ---------------------------------------------------------------------------

/// The diagnosis of a secret that is not there.
pub open spec fn missing_view(name: Seq<char>) -> DiagView {
    DiagView {
        suggestions: seq!["run `tpm secret list` to see available secrets"@],
        ..DiagView::plain(Severity::Error, DiagCode::E0004, "secret not found: "@ + name)
    }
}

/// The sealed data that the TPM has to open, in the form in which it is kept.
pub fn unseal_check(store: &MemoryStore, name: &str) -> (r: Result<Vec<u8>, Failure>)
    ensures
        match r {
            Ok(blob) => valid_path(name@) && (lookup::<TpmObject>(
                store@.objects,
                name@,
            ) matches Some(o) && o.kind == ObjectKind::SealedBlob && o.handle_blob == Some(blob@)),
            Err(e) => if !valid_path(name@) {
                e@ == "invalid object path: "@ + name@
            } else {
                match lookup::<TpmObject>(store@.objects, name@) {
                    None => e@ == "secret not found: "@ + name@ && e.shown() == missing_view(
                        name@,
                    ).text(),
                    Some(o) => if o.kind != ObjectKind::SealedBlob {
                        e@ == "object '"@ + name@ + "' is not a sealed secret (it is a "@
                            + o.kind.text() + ")"@
                    } else {
                        o.handle_blob is None && e@ == "sealed blob missing for: "@ + name@
                    },
                }
            },
        },
{
    let p = user_path(name)?;
    let o = match store.get_object(&p) {
        None => {
            let m = glue("secret not found: ", name);
            let d = Diagnostic::error(DiagCode::E0004, m.as_str()).with_suggestion(
                "run `tpm secret list` to see available secrets",
            );
            assert(d@.suggestions =~= missing_view(name@).suggestions);
            return Err(d.refuse());
        },
        Some(o) => o,
    };
    if !ObjectClass::Secret.holds(o.kind) {
        let mut t = String::new();
        t.append("object '");
        t.append(name);
        t.append("' is not a sealed secret (it is a ");
        t.append(o.kind.name());
        t.append(")");
        assert(t@ =~= "object '"@ + name@ + "' is not a sealed secret (it is a "@ + o.kind.text()
            + ")"@);
        return Err(Failure::new(t.as_str()));
    }
    match &o.handle_blob {
        None => Err(Failure::about("sealed blob missing for: ", name)),
        Some(b) => Ok(copy_bytes(b)),
    }
}

/// What is shown of the content: nothing where it went to a file or is no
/// text, else the text, cut after two hundred bytes.
pub open spec fn preview(plaintext: Seq<u8>, to_file: bool) -> Option<Seq<char>> {
    if to_file || !valid_utf8(plaintext) {
        None
    } else {
        let t = decode_utf8(plaintext);
        if encode_utf8(t).len() > 200 {
            Some(byte_prefix(t, 200) + "..."@)
        } else {
            Some(t)
        }
    }
}

/// The text, if it has to be cut, can be cut after two hundred bytes.
pub open spec fn can_preview(plaintext: Seq<u8>, to_file: bool) -> bool {
    !to_file && valid_utf8(plaintext) && encode_utf8(decode_utf8(plaintext)).len() > 200
        ==> is_char_boundary(encode_utf8(decode_utf8(plaintext)), 200)
}

/// An unsealed secret as it is printed.
pub open spec fn unsealed_text(path: Seq<char>, plaintext: Seq<u8>, output: Option<Seq<char>>) -> Seq<
    char,
> {
    field("unsealed: "@, path) + ("  size: "@ + decimal(plaintext.len()) + " bytes\n"@) + (
    match output {
        Some(f) => field("  written to: "@, f),
        None => Seq::empty(),
    }) + match preview(plaintext, output is Some) {
        Some(p) => field("  content: "@, p),
        None => Seq::empty(),
    }
}

fn preview_of(plaintext: &Vec<u8>, to_file: bool) -> (r: Option<String>)
    requires
        can_preview(plaintext@, to_file),
    ensures
        crate::text::opt_text(r) == preview(plaintext@, to_file),
{
    if to_file {
        return None;
    }
    match utf8_text(copy_bytes(plaintext)) {
        None => None,
        Some(t) => {
            proof {
                decode_utf8_encode_utf8(plaintext@);
            }
            if plaintext.len() > 200 {
                let head = prefix_bytes(t.as_str(), 200);
                Some(glue(head, "..."))
            } else {
                Some(t)
            }
        },
    }
}

/// Logs an unsealing that took place at the given time and prints its outcome.
pub fn unseal_at(
    store: &mut MemoryStore,
    path: &str,
    plaintext: &Vec<u8>,
    output: Option<&str>,
    stamp: &str,
) -> (s: String)
    requires
        old(store)@.wf(),
        old(store)@.can_log(),
        can_preview(plaintext@, output is Some),
    ensures
        final(store)@.wf(),
        final(store)@ == old(store)@.logged(
            "secret.unseal"@,
            Some(path@),
            json_object(Seq::empty()),
            stamp@,
        ),
        s@ == unsealed_text(path@, plaintext@, opt_str(output)),
{
    let details = object0();
    store.log_action_at("secret.unseal", Some(path), details.as_str(), stamp);
    let mut s = String::new();
    push_field(&mut s, "unsealed: ", path);
    s.append("  size: ");
    push_decimal(&mut s, plaintext.len() as u64);
    s.append(" bytes\n");
    match output {
        Some(f) => {
            push_field(&mut s, "  written to: ", f);
        },
        None => {},
    }
    match preview_of(plaintext, output.is_some()) {
        Some(p) => {
            push_field(&mut s, "  content: ", p.as_str());
        },
        None => {},
    }
    assert(s@ =~= unsealed_text(path@, plaintext@, opt_str(output)));
    s
}

/// Logs an unsealing that took place just now and prints its outcome.
pub fn unseal(
    store: &mut MemoryStore,
    path: &str,
    plaintext: &Vec<u8>,
    output: Option<&str>,
) -> (s: String)
    requires
        old(store)@.wf(),
        old(store)@.can_log(),
        can_preview(plaintext@, output is Some),
    ensures
        final(store)@.wf(),
        exists|stamp: Seq<char>|
            final(store)@ == #[trigger] old(store)@.logged(
                "secret.unseal"@,
                Some(path@),
                json_object(Seq::empty()),
                stamp,
            ),
        s@ == unsealed_text(path@, plaintext@, opt_str(output)),
{
    let stamp = now_stamp();
    unseal_at(store, path, plaintext, output, stamp.as_str())
}

// ---------------------------------------------------------------------------
// Listing
// ---------------------------------------------------------------------------

/// The size that was sealed, as far as the object tells it.
pub open spec fn sealed_size(o: ObjectView) -> Option<u64> {
    match json_member(o.metadata, "original_size"@) {
        Some(m) => json_number(m),
        None => None,
    }
}

fn size_of(o: &TpmObject) -> (r: Option<u64>)
    ensures
        r == sealed_size(o@),
{
    match member(o.metadata.as_str(), "original_size") {
        Some(m) => as_number(m.as_str()),
        None => None,
    }
}

/// The cells of a secret in the list.
pub open spec fn secret_cells(o: ObjectView) -> Seq<Seq<char>> {
    seq![
        o.path,
        match sealed_size(o) {
            Some(n) => decimal(n as nat) + " B"@,
            None => "?"@,
        },
        if o.policy_id is Some {
            "yes"@
        } else {
            "no"@
        },
        to_the_second(o.created_at),
    ]
}

/// The secrets as they are listed.
pub open spec fn listing(secrets: Seq<ObjectView>) -> Seq<char> {
    if secrets.len() == 0 {
        "No sealed secrets.\n"@
    } else {
        let rows = Seq::new(secrets.len(), |i: int| secret_cells(secrets[i]));
        table_text(
            seq!["PATH"@, "SIZE"@, "POLICY"@, "CREATED"@],
            rows,
            seq![widest(column(rows, 0), secrets.len()), 10usize, 8usize],
        )
    }
}

fn secret_row(o: &TpmObject) -> (row: Vec<String>)
    ensures
        views(row@) == secret_cells(o@),
        row@.len() == 4,
{
    let size = match size_of(o) {
        Some(n) => {
            let mut t = decimal_text(n);
            t.append(" B");
            assert(t@ =~= decimal(n as nat) + " B"@);
            t
        },
        None => "?".to_owned(),
    };
    let mut row: Vec<String> = Vec::new();
    row.push(o.path.as_str().to_owned());
    row.push(size);
    row.push(
        (if o.policy_id.is_some() {
            "yes"
        } else {
            "no"
        }).to_owned(),
    );
    row.push(cut_time(o.created_at.as_str()));
    assert(views(row@) =~= secret_cells(o@));
    row
}

fn secret_rows(secrets: &Vec<&TpmObject>) -> (rows: Vec<Vec<String>>)
    ensures
        cells_of(rows@) == Seq::new(secrets@.len(), |i: int| secret_cells(ref_rows(secrets@)[i])),
        forall|i: int| 0 <= i < rows@.len() ==> (#[trigger] rows@[i])@.len() == 4,
{
    let mut rows: Vec<Vec<String>> = Vec::new();
    let mut n: usize = 0;
    while n < secrets.len()
        invariant
            n <= secrets@.len(),
            rows@.len() == n,
            forall|i: int| 0 <= i < rows@.len() ==> (#[trigger] rows@[i])@.len() == 4,
            forall|i: int|
                0 <= i < rows@.len() ==> views((#[trigger] rows@[i])@) == secret_cells(
                    secrets@[i]@,
                ),
        decreases secrets@.len() - n,
    {
        let o: &TpmObject = secrets[n];
        assert(o@ == secrets@[n as int]@);
        rows.push(secret_row(o));
        n += 1;
    }
    assert(cells_of(rows@) =~= Seq::new(
        secrets@.len(),
        |i: int| secret_cells(ref_rows(secrets@)[i]),
    ));
    rows
}

/// Lists the secrets.
pub fn list(store: &MemoryStore) -> (s: String)
    ensures
        s@ == listing(class_list(store@, ObjectClass::Secret)),
{
    let secrets = objects_of(store, ObjectClass::Secret);
    let ghost all = ref_rows(secrets@);
    if secrets.len() == 0 {
        return "No sealed secrets.\n".to_owned();
    }
    let rows = secret_rows(&secrets);
    assert(cells_of(rows@) =~= Seq::new(all.len(), |i: int| secret_cells(all[i])));
    let mut head: Vec<String> = Vec::new();
    head.push("PATH".to_owned());
    head.push("SIZE".to_owned());
    head.push("POLICY".to_owned());
    head.push("CREATED".to_owned());
    assert(views(head@) =~= seq!["PATH"@, "SIZE"@, "POLICY"@, "CREATED"@]);
    let w: usize = column_width(&rows, 0);
    let mut widths: Vec<usize> = Vec::new();
    widths.push(w);
    widths.push(10);
    widths.push(8);
    assert(widths@ =~= seq![w, 10usize, 8usize]);
    print_table(&head, &rows, &widths)
}

} // verus!
