use vstd::prelude::*;
use crate::error::ServiceError;
use crate::provided_value::ProvidedValue;
use crate::revision_model::{bytes_equal, copy_bytes, FileField, FileRevisionModel};
use crate::revision_structs::{BodyView, CreateFileRevisionBody, FileSnapshot, SnapshotView};

verus! {

/// The longest name a file may carry, in bytes, is one less than this.
pub const NAME_BYTES_CEILING: usize = 256;

/// Whether the update names a containing page other than the current one.
pub open spec fn page_changed(current: SnapshotView, body: BodyView) -> bool {
    body.page_id matches ProvidedValue::Provided(page_id) && page_id != current.page_id
}

/// Whether the update names a name other than the current one.
pub open spec fn name_changed(current: SnapshotView, body: BodyView) -> bool {
    body.name matches ProvidedValue::Provided(name) && name != current.name
}

/// Whether the update names a content reference that differs from the
/// current one in its hash, its size hint or its MIME hint.
pub open spec fn blob_changed(current: SnapshotView, body: BodyView) -> bool {
    body.blob matches ProvidedValue::Provided(blob) && (blob.s3_hash != current.s3_hash
        || blob.size_hint != current.size_hint || blob.mime_hint != current.mime_hint)
}

/// Whether the update names licensing metadata other than the current.
pub open spec fn licensing_changed(current: SnapshotView, body: BodyView) -> bool {
    body.licensing matches ProvidedValue::Provided(licensing) && licensing != current.licensing
}

/// The list holding `field` when `present`, and nothing otherwise.
pub open spec fn tag_if(present: bool, field: FileField) -> Seq<FileField> {
    if present {
        seq![field]
    } else {
        Seq::empty()
    }
}

/// The change-set of an update: the fields whose proposed value differs
/// from the current one, in the fixed order page, name, blob, licensing.
pub open spec fn change_set(current: SnapshotView, body: BodyView) -> Seq<FileField> {
    tag_if(page_changed(current, body), FileField::Page) + tag_if(
        name_changed(current, body),
        FileField::Name,
    ) + tag_if(blob_changed(current, body), FileField::Blob) + tag_if(
        licensing_changed(current, body),
        FileField::Licensing,
    )
}

/// The snapshot that results from an update: each field that the update
/// mentions takes the provided value, every other field stays.
pub open spec fn proposed_snapshot(current: SnapshotView, body: BodyView) -> SnapshotView {
    SnapshotView {
        page_id: match body.page_id {
            ProvidedValue::Provided(page_id) => page_id,
            ProvidedValue::Unset => current.page_id,
        },
        name: match body.name {
            ProvidedValue::Provided(name) => name,
            ProvidedValue::Unset => current.name,
        },
        s3_hash: match body.blob {
            ProvidedValue::Provided(blob) => blob.s3_hash,
            ProvidedValue::Unset => current.s3_hash,
        },
        size_hint: match body.blob {
            ProvidedValue::Provided(blob) => blob.size_hint,
            ProvidedValue::Unset => current.size_hint,
        },
        mime_hint: match body.blob {
            ProvidedValue::Provided(blob) => blob.mime_hint,
            ProvidedValue::Unset => current.mime_hint,
        },
        licensing: match body.licensing {
            ProvidedValue::Provided(licensing) => licensing,
            ProvidedValue::Unset => current.licensing,
        },
    }
}

/// Whether a name is acceptable: not empty and shorter than the ceiling
/// when encoded as UTF-8.
pub open spec fn valid_name(name: Seq<char>) -> bool {
    name.len() > 0 && vstd::utf8::encode_utf8(name).len() < NAME_BYTES_CEILING
}

/// Whether a snapshot passes the checks made on an update: an acceptable
/// name and a MIME hint that is not empty.
pub open spec fn valid_snapshot(snapshot: SnapshotView) -> bool {
    valid_name(snapshot.name) && snapshot.mime_hint.len() > 0
}

/// Compares a partial update with the current snapshot.
///
/// Returns the change-set and the snapshot that the update proposes.
pub fn compute_changes(current: &FileRevisionModel, body: CreateFileRevisionBody) -> (r: (
    Vec<FileField>,
    FileSnapshot,
))
    ensures
        r.0@ == change_set(current@.snapshot(), body@),
        r.1@ == proposed_snapshot(current@.snapshot(), body@),
{
    let ghost cur = current@.snapshot();
    let ghost b = body@;
    let mut changes: Vec<FileField> = Vec::new();
    let CreateFileRevisionBody { page_id: new_page_id, name: new_name, blob: new_blob, licensing: new_licensing } = body;

    let page_id = match new_page_id {
        ProvidedValue::Provided(page_id) => {
            if page_id != current.page_id {
                changes.push(FileField::Page);
            }
            page_id
        },
        ProvidedValue::Unset => current.page_id,
    };
    assert(changes@ == tag_if(page_changed(cur, b), FileField::Page));

    let name = match new_name {
        ProvidedValue::Provided(name) => {
            if name != current.name {
                changes.push(FileField::Name);
            }
            name
        },
        ProvidedValue::Unset => current.name.clone(),
    };
    assert(changes@ == tag_if(page_changed(cur, b), FileField::Page) + tag_if(
        name_changed(cur, b),
        FileField::Name,
    ));

    let (s3_hash, size_hint, mime_hint) = match new_blob {
        ProvidedValue::Provided(blob) => {
            if !bytes_equal(&blob.s3_hash, &current.s3_hash) || blob.size_hint != current.size_hint
                || blob.mime_hint != current.mime_hint {
                changes.push(FileField::Blob);
            }
            (blob.s3_hash, blob.size_hint, blob.mime_hint)
        },
        ProvidedValue::Unset => (
            copy_bytes(&current.s3_hash),
            current.size_hint,
            current.mime_hint.clone(),
        ),
    };
    assert(changes@ == tag_if(page_changed(cur, b), FileField::Page) + tag_if(
        name_changed(cur, b),
        FileField::Name,
    ) + tag_if(blob_changed(cur, b), FileField::Blob));

    let licensing = match new_licensing {
        ProvidedValue::Provided(licensing) => {
            if licensing != current.licensing {
                changes.push(FileField::Licensing);
            }
            licensing
        },
        ProvidedValue::Unset => current.licensing.clone(),
    };
    assert(changes@ == change_set(cur, b));

    (changes, FileSnapshot { page_id, name, s3_hash, size_hint, mime_hint, licensing })
}

/// Checks the snapshot that an update proposes.
///
/// Fails with `BadRequest` exactly when the name is empty, the name is 256
/// bytes or longer, or the MIME hint is empty.
pub fn validate_snapshot(snapshot: &FileSnapshot) -> (r: Result<(), ServiceError>)
    ensures
        valid_snapshot(snapshot@) ==> r == Ok::<(), ServiceError>(()),
        !valid_snapshot(snapshot@) ==> r == Err::<(), ServiceError>(ServiceError::BadRequest),
{
    let name = snapshot.name.as_str();
    if name.is_empty() || name.as_bytes().len() >= NAME_BYTES_CEILING {
        return Err(ServiceError::BadRequest);
    }
    if snapshot.mime_hint.as_str().is_empty() {
        return Err(ServiceError::BadRequest);
    }
    Ok(())
}

} // verus!
