//! Decoding JSON documents into the values of `models`. Member names on
//! the wire are in camel case. A member that a value may lack is absent
//! where the document lacks it or gives `null` for it; every other member
//! must be there, with the right kind of value. Members that are not asked
//! for are passed over.

use vstd::prelude::*;
use crate::error::outcome;
use crate::error::ErrorView;
use crate::error::WalrusError;
use crate::json::Json;
use crate::json::JsonMember;
use crate::json::JsonView;
use crate::json::item_views;
use crate::json::lemma_array_view;
use crate::json::lemma_object_view;
use crate::json::member_views;
use crate::models::AlreadyCertified;
use crate::models::AlreadyCertifiedView;
use crate::models::BlobObject;
use crate::models::BlobObjectView;
use crate::models::BlobStoreResult;
use crate::models::BlobStoreResultView;
use crate::models::Event;
use crate::models::EventView;
use crate::models::NewlyCreated;
use crate::models::NewlyCreatedView;
use crate::models::QuiltStoreResponse;
use crate::models::QuiltStoreResponseView;
use crate::models::RegisterFromScratch;
use crate::models::ResourceOperation;
use crate::models::StorageInfo;
use crate::models::StorageInfoView;
use crate::models::StoredQuiltBlob;
use crate::models::StoredQuiltBlobView;
use crate::text::decimal_u64;
use crate::text::join_text;
use crate::text::parse_u64;

verus! {

/// The value of the first member with this name, if there is one.
pub open spec fn member(members: Seq<JsonMember>, name: Seq<char>) -> Option<JsonView>
    decreases members.len(),
{
    if members.len() == 0 {
        None
    } else if members[0].name == name {
        Some(members[0].value)
    } else {
        member(members.drop_first(), name)
    }
}

/// The value of the member with this name, where there is one and it is
/// not `null`.
pub open spec fn present(members: Seq<JsonMember>, name: Seq<char>) -> Option<JsonView> {
    match member(members, name) {
        Some(JsonView::Null) => None,
        other => other,
    }
}

/// The text that a member holds. None where the member is missing or is
/// not a string.
pub open spec fn text_of(value: Option<JsonView>) -> Option<Seq<char>> {
    match value {
        Some(JsonView::Text(text)) => Some(text),
        _ => None,
    }
}

/// The number that a member holds. None where the member is missing or is
/// not a whole number from 0 to `u64::MAX`.
pub open spec fn u64_of(value: Option<JsonView>) -> Option<u64> {
    match value {
        Some(JsonView::Number(text)) => decimal_u64(text),
        _ => None,
    }
}

/// The truth value that a member holds. None where the member is missing
/// or is not `true` or `false`.
pub open spec fn bool_of(value: Option<JsonView>) -> Option<bool> {
    match value {
        Some(JsonView::Bool(b)) => Some(b),
        _ => None,
    }
}

/// The number that an optional member holds: `Some(None)` where the member
/// is absent, `None` where it is there and is no `u64`.
pub open spec fn optional_u64_of(value: Option<JsonView>) -> Option<Option<u64>> {
    match value {
        None => Some(None),
        Some(json) => match u64_of(Some(json)) {
            Some(n) => Some(Some(n)),
            None => None,
        },
    }
}

/// The members of an object. None where the value is not an object.
pub open spec fn members_of(json: JsonView) -> Option<Seq<JsonMember>> {
    match json {
        JsonView::Object(members) => Some(members),
        _ => None,
    }
}

/// The words for a member that is missing or has the wrong kind of value.
pub open spec fn malformed_words(name: Seq<char>) -> Seq<char> {
    "missing or malformed member: "@ + name
}

/// The value of a member that must be there and well formed; or the words
/// that name it where it is not.
pub open spec fn required<T>(value: Option<T>, name: Seq<char>) -> Result<T, Seq<char>> {
    match value {
        Some(v) => Ok(v),
        None => Err(malformed_words(name)),
    }
}

/// The members of a value that must be an object; or the words that say
/// that it is none.
pub open spec fn object_of(json: JsonView) -> Result<Seq<JsonMember>, Seq<char>> {
    match members_of(json) {
        Some(members) => Ok(members),
        None => Err("expected an object"@),
    }
}

/// What decoding gives for what a document stands for: the value, or a
/// `ParseError` with the words that say what is wrong with the document.
pub open spec fn decoded<V>(expected: Result<V, Seq<char>>) -> Result<V, ErrorView> {
    match expected {
        Ok(value) => Ok(value),
        Err(words) => Err(ErrorView::ParseError(words)),
    }
}

/// The storage window that a document stands for: an object with the
/// members `id`, `startEpoch`, `endEpoch` and `storageSize`. Where the
/// document is malformed, the words name the first of these, in this
/// order, that is missing or malformed.
pub open spec fn storage_info_of(json: JsonView) -> Result<StorageInfoView, Seq<char>> {
    match object_of(json) {
        Err(words) => Err(words),
        Ok(m) => {
            let id = text_of(member(m, "id"@));
            let start_epoch = u64_of(member(m, "startEpoch"@));
            let end_epoch = u64_of(member(m, "endEpoch"@));
            let storage_size = u64_of(member(m, "storageSize"@));
            if id is None {
                Err(malformed_words("id"@))
            } else if start_epoch is None {
                Err(malformed_words("startEpoch"@))
            } else if end_epoch is None {
                Err(malformed_words("endEpoch"@))
            } else if storage_size is None {
                Err(malformed_words("storageSize"@))
            } else {
                Ok(
                    StorageInfoView {
                        id: id->Some_0,
                        start_epoch: start_epoch->Some_0,
                        end_epoch: end_epoch->Some_0,
                        storage_size: storage_size->Some_0,
                    },
                )
            }
        },
    }
}

/// The record of a blob that a document stands for: an object with the
/// members `id`, `registeredEpoch`, `blobId`, `size`, `encodingType`,
/// `storage` and `deletable`, and with `certifiedEpoch` where the blob was
/// certified. Where the document is malformed, the words name the first
/// member that is, in the order `id`, `registeredEpoch`, `blobId`, `size`,
/// `encodingType`, `certifiedEpoch`, `storage`, `deletable`; for a
/// storage window that is there and malformed they are that window's.
pub open spec fn blob_object_of(json: JsonView) -> Result<BlobObjectView, Seq<char>> {
    match object_of(json) {
        Err(words) => Err(words),
        Ok(m) => {
            let id = text_of(member(m, "id"@));
            let registered_epoch = u64_of(member(m, "registeredEpoch"@));
            let blob_id = text_of(member(m, "blobId"@));
            let size = u64_of(member(m, "size"@));
            let encoding_type = text_of(member(m, "encodingType"@));
            let certified_epoch = optional_u64_of(present(m, "certifiedEpoch"@));
            let storage_json = member(m, "storage"@);
            let deletable = bool_of(member(m, "deletable"@));
            if id is None {
                Err(malformed_words("id"@))
            } else if registered_epoch is None {
                Err(malformed_words("registeredEpoch"@))
            } else if blob_id is None {
                Err(malformed_words("blobId"@))
            } else if size is None {
                Err(malformed_words("size"@))
            } else if encoding_type is None {
                Err(malformed_words("encodingType"@))
            } else if certified_epoch is None {
                Err(malformed_words("certifiedEpoch"@))
            } else if storage_json is None {
                Err(malformed_words("storage"@))
            } else {
                match storage_info_of(storage_json->Some_0) {
                    Err(words) => Err(words),
                    Ok(storage) => if deletable is None {
                        Err(malformed_words("deletable"@))
                    } else {
                        Ok(
                            BlobObjectView {
                                id: id->Some_0,
                                registered_epoch: registered_epoch->Some_0,
                                blob_id: blob_id->Some_0,
                                size: size->Some_0,
                                encoding_type: encoding_type->Some_0,
                                certified_epoch: certified_epoch->Some_0,
                                storage,
                                deletable: deletable->Some_0,
                            },
                        )
                    },
                }
            }
        },
    }
}

/// The details of a registration that a document stands for: an object
/// with the members `encodedLength` and `epochsAhead`.
pub open spec fn register_from_scratch_of(json: JsonView) -> Result<
    RegisterFromScratch,
    Seq<char>,
> {
    match object_of(json) {
        Err(words) => Err(words),
        Ok(m) => {
            let encoded_length = u64_of(member(m, "encodedLength"@));
            let epochs_ahead = u64_of(member(m, "epochsAhead"@));
            if encoded_length is None {
                Err(malformed_words("encodedLength"@))
            } else if epochs_ahead is None {
                Err(malformed_words("epochsAhead"@))
            } else {
                Ok(
                    RegisterFromScratch {
                        encoded_length: encoded_length->Some_0,
                        epochs_ahead: epochs_ahead->Some_0,
                    },
                )
            }
        },
    }
}

/// The operation on storage resources that a document stands for: an
/// object in which `registerFromScratch` may be present.
pub open spec fn resource_operation_of(json: JsonView) -> Result<ResourceOperation, Seq<char>> {
    match object_of(json) {
        Err(words) => Err(words),
        Ok(m) => match present(m, "registerFromScratch"@) {
            None => Ok(ResourceOperation { register_from_scratch: None }),
            Some(inner) => match register_from_scratch_of(inner) {
                Ok(details) => Ok(ResourceOperation { register_from_scratch: Some(details) }),
                Err(words) => Err(words),
            },
        },
    }
}

/// The newly created blob that a document stands for: an object with the
/// members `blobObject`, `resourceOperation` and `cost`. A member that is
/// missing is named before one that is there and malformed.
pub open spec fn newly_created_of(json: JsonView) -> Result<NewlyCreatedView, Seq<char>> {
    match object_of(json) {
        Err(words) => Err(words),
        Ok(m) => {
            let object_json = member(m, "blobObject"@);
            let operation_json = member(m, "resourceOperation"@);
            let cost = u64_of(member(m, "cost"@));
            if object_json is None {
                Err(malformed_words("blobObject"@))
            } else if operation_json is None {
                Err(malformed_words("resourceOperation"@))
            } else if cost is None {
                Err(malformed_words("cost"@))
            } else {
                match blob_object_of(object_json->Some_0) {
                    Err(words) => Err(words),
                    Ok(blob_object) => match resource_operation_of(operation_json->Some_0) {
                        Err(words) => Err(words),
                        Ok(resource_operation) => Ok(
                            NewlyCreatedView { blob_object, resource_operation, cost: cost->Some_0 },
                        ),
                    },
                }
            }
        },
    }
}

/// The event that a document stands for: an object with the members
/// `txDigest` and `eventSeq`.
pub open spec fn event_of(json: JsonView) -> Result<EventView, Seq<char>> {
    match object_of(json) {
        Err(words) => Err(words),
        Ok(m) => {
            let tx_digest = text_of(member(m, "txDigest"@));
            let event_seq = text_of(member(m, "eventSeq"@));
            if tx_digest is None {
                Err(malformed_words("txDigest"@))
            } else if event_seq is None {
                Err(malformed_words("eventSeq"@))
            } else {
                Ok(EventView { tx_digest: tx_digest->Some_0, event_seq: event_seq->Some_0 })
            }
        },
    }
}

/// The blob certified before that a document stands for: an object with
/// the members `blobId`, `event` and `endEpoch`.
pub open spec fn already_certified_of(json: JsonView) -> Result<AlreadyCertifiedView, Seq<char>> {
    match object_of(json) {
        Err(words) => Err(words),
        Ok(m) => {
            let blob_id = text_of(member(m, "blobId"@));
            let event_json = member(m, "event"@);
            let end_epoch = u64_of(member(m, "endEpoch"@));
            if blob_id is None {
                Err(malformed_words("blobId"@))
            } else if event_json is None {
                Err(malformed_words("event"@))
            } else if end_epoch is None {
                Err(malformed_words("endEpoch"@))
            } else {
                match event_of(event_json->Some_0) {
                    Err(words) => Err(words),
                    Ok(event) => Ok(
                        AlreadyCertifiedView {
                            blob_id: blob_id->Some_0,
                            event,
                            end_epoch: end_epoch->Some_0,
                        },
                    ),
                }
            }
        },
    }
}

/// The outcome of a store call that a document stands for. The document is
/// an object in which exactly one of `newlyCreated` and `alreadyCertified`
/// is present, and that one is well formed.
pub open spec fn blob_store_result_of(json: JsonView) -> Result<BlobStoreResultView, Seq<char>> {
    match object_of(json) {
        Err(words) => Err(words),
        Ok(m) => match (present(m, "newlyCreated"@), present(m, "alreadyCertified"@)) {
            (Some(created_json), None) => match newly_created_of(created_json) {
                Ok(created) => Ok(
                    BlobStoreResultView { newly_created: Some(created), already_certified: None },
                ),
                Err(words) => Err(words),
            },
            (None, Some(certified_json)) => match already_certified_of(certified_json) {
                Ok(certified) => Ok(
                    BlobStoreResultView { newly_created: None, already_certified: Some(certified) },
                ),
                Err(words) => Err(words),
            },
            (None, None) => Err("neither newlyCreated nor alreadyCertified is present"@),
            (Some(_), Some(_)) => Err("both newlyCreated and alreadyCertified are present"@),
        },
    }
}

/// The file of a quilt that a document stands for: an object with the
/// members `identifier` and `quiltPatchId`.
pub open spec fn stored_quilt_blob_of(json: JsonView) -> Result<StoredQuiltBlobView, Seq<char>> {
    match object_of(json) {
        Err(words) => Err(words),
        Ok(m) => {
            let identifier = text_of(member(m, "identifier"@));
            let quilt_patch_id = text_of(member(m, "quiltPatchId"@));
            if identifier is None {
                Err(malformed_words("identifier"@))
            } else if quilt_patch_id is None {
                Err(malformed_words("quiltPatchId"@))
            } else {
                Ok(
                    StoredQuiltBlobView {
                        identifier: identifier->Some_0,
                        quilt_patch_id: quilt_patch_id->Some_0,
                    },
                )
            }
        },
    }
}

/// The files that a list stands for, in its order; or the words for the
/// first item of the list that is malformed.
pub open spec fn stored_quilt_blobs_of(items: Seq<JsonView>) -> Result<
    Seq<StoredQuiltBlobView>,
    Seq<char>,
>
    decreases items.len(),
{
    if items.len() == 0 {
        Ok(Seq::empty())
    } else {
        match stored_quilt_blobs_of(items.drop_last()) {
            Err(words) => Err(words),
            Ok(before) => match stored_quilt_blob_of(items.last()) {
                Err(words) => Err(words),
                Ok(blob) => Ok(before.push(blob)),
            },
        }
    }
}

/// The outcome of storing a quilt that a document stands for: an object
/// with the members `blobStoreResult` and `storedQuiltBlobs`, the latter an
/// array. A member that is missing, or a list that is no array, is named
/// before what is wrong inside a member.
pub open spec fn quilt_store_response_of(json: JsonView) -> Result<
    QuiltStoreResponseView,
    Seq<char>,
> {
    match object_of(json) {
        Err(words) => Err(words),
        Ok(m) => match (member(m, "blobStoreResult"@), member(m, "storedQuiltBlobs"@)) {
            (None, _) => Err(malformed_words("blobStoreResult"@)),
            (Some(result_json), Some(JsonView::Array(items))) => match blob_store_result_of(
                result_json,
            ) {
                Err(words) => Err(words),
                Ok(blob_store_result) => match stored_quilt_blobs_of(items) {
                    Err(words) => Err(words),
                    Ok(stored_quilt_blobs) => Ok(
                        QuiltStoreResponseView { blob_store_result, stored_quilt_blobs },
                    ),
                },
            },
            (Some(_), _) => Err(malformed_words("storedQuiltBlobs"@)),
        },
    }
}

/// Where a beginning of a list holds a malformed item, the whole list has
/// the same first malformed item.
proof fn lemma_first_malformed_item(items: Seq<JsonView>, k: int)
    requires
        0 <= k <= items.len(),
        stored_quilt_blobs_of(items.take(k)) is Err,
    ensures
        stored_quilt_blobs_of(items) == stored_quilt_blobs_of(items.take(k)),
    decreases items.len(),
{
    if k == items.len() {
        assert(items.take(k) =~= items);
    } else {
        let shorter = items.drop_last();
        assert(shorter.take(k) =~= items.take(k));
        lemma_first_malformed_item(shorter, k);
    }
}

/// The error for a member that is missing or has the wrong kind of value:
/// a `ParseError` whose message names the member.
fn malformed(name: &str) -> (e: WalrusError)
    ensures
        e@ == ErrorView::ParseError(malformed_words(name@)),
{
    WalrusError::ParseError(join_text("missing or malformed member: ", name))
}

/// Finds the first member with this name.
pub fn find_member<'a>(members: &'a Vec<(String, Json)>, name: &str) -> (r: Option<&'a Json>)
    ensures
        match r {
            Some(value) => member(member_views(members@), name@) == Some(value@),
            None => member(member_views(members@), name@) is None,
        },
{
    let wanted = String::from_str(name);
    let ghost all = member_views(members@);
    let mut i: usize = 0;
    assert(all.skip(0) =~= all);
    while i < members.len()
        invariant
            i <= members.len(),
            wanted@ == name@,
            all == member_views(members@),
            member(all, name@) == member(all.skip(i as int), name@),
        decreases members.len() - i,
    {
        let ghost rest = all.skip(i as int);
        assert(rest[0] == JsonMember {
            name: members@[i as int].0@,
            value: members@[i as int].1@,
        });
        assert(rest.drop_first() =~= all.skip(i + 1));
        if members[i].0 == wanted {
            return Some(&members[i].1);
        }
        i += 1;
    }
    None
}

/// Finds the member with this name, unless it is `null`.
fn find_present<'a>(members: &'a Vec<(String, Json)>, name: &str) -> (r: Option<&'a Json>)
    ensures
        match r {
            Some(value) => present(member_views(members@), name@) == Some(value@),
            None => present(member_views(members@), name@) is None,
        },
{
    match find_member(members, name) {
        Some(Json::Null) => None,
        other => other,
    }
}

/// Finds the member with this name, which must be there.
fn require_member<'a>(members: &'a Vec<(String, Json)>, name: &str) -> (r: Result<
    &'a Json,
    WalrusError,
>)
    ensures
        outcome(r) == decoded(required(member(member_views(members@), name@), name@)),
{
    match find_member(members, name) {
        Some(value) => Ok(value),
        None => Err(malformed(name)),
    }
}

/// The members of a value that must be an object.
fn require_members<'a>(json: &'a Json) -> (r: Result<&'a Vec<(String, Json)>, WalrusError>)
    ensures
        match r {
            Ok(members) => object_of(json@) == Ok::<Seq<JsonMember>, Seq<char>>(
                member_views(members@),
            ),
            Err(e) => object_of(json@) matches Err(words) && e@ == ErrorView::ParseError(words),
        },
{
    match json {
        Json::Object(members) => {
            proof {
                lemma_object_view(*members);
            }
            Ok(members)
        },
        _ => Err(WalrusError::ParseError(String::from_str("expected an object"))),
    }
}

/// The text of the member with this name, which must be a string.
fn require_text(members: &Vec<(String, Json)>, name: &str) -> (r: Result<String, WalrusError>)
    ensures
        outcome(r) == decoded(required(text_of(member(member_views(members@), name@)), name@)),
{
    match find_member(members, name) {
        Some(Json::Text(text)) => Ok(text.clone()),
        _ => Err(malformed(name)),
    }
}

/// The number that a value holds, where it is a whole number that a `u64`
/// can hold.
fn number_of(value: &Json) -> (r: Option<u64>)
    ensures
        r == u64_of(Some(value@)),
{
    match value {
        Json::Number(text) => parse_u64(text.as_str()),
        _ => None,
    }
}

/// The number of the member with this name, which must be a whole number
/// that a `u64` can hold.
fn require_u64(members: &Vec<(String, Json)>, name: &str) -> (r: Result<u64, WalrusError>)
    ensures
        outcome(r) == decoded(required(u64_of(member(member_views(members@), name@)), name@)),
{
    let found = match find_member(members, name) {
        Some(value) => number_of(value),
        None => None,
    };
    match found {
        Some(n) => Ok(n),
        None => Err(malformed(name)),
    }
}

/// The truth value of the member with this name, which must be `true` or
/// `false`.
fn require_bool(members: &Vec<(String, Json)>, name: &str) -> (r: Result<bool, WalrusError>)
    ensures
        outcome(r) == decoded(required(bool_of(member(member_views(members@), name@)), name@)),
{
    match find_member(members, name) {
        Some(Json::Bool(b)) => Ok(*b),
        _ => Err(malformed(name)),
    }
}

/// The number of the member with this name, which may be absent.
fn optional_u64(members: &Vec<(String, Json)>, name: &str) -> (r: Result<
    Option<u64>,
    WalrusError,
>)
    ensures
        outcome(r) == decoded(
            required(optional_u64_of(present(member_views(members@), name@)), name@),
        ),
{
    match find_present(members, name) {
        None => Ok(None),
        Some(value) => match number_of(value) {
            Some(n) => Ok(Some(n)),
            None => Err(malformed(name)),
        },
    }
}

/// Decodes the storage window of a blob.
pub fn decode_storage_info(json: &Json) -> (r: Result<StorageInfo, WalrusError>)
    ensures
        outcome(r) == decoded(storage_info_of(json@)),
{
    let m = require_members(json)?;
    let id = require_text(m, "id")?;
    let start_epoch = require_u64(m, "startEpoch")?;
    let end_epoch = require_u64(m, "endEpoch")?;
    let storage_size = require_u64(m, "storageSize")?;
    Ok(StorageInfo { id, start_epoch, end_epoch, storage_size })
}

/// Decodes the record of a stored blob.
pub fn decode_blob_object(json: &Json) -> (r: Result<BlobObject, WalrusError>)
    ensures
        outcome(r) == decoded(blob_object_of(json@)),
{
    let m = require_members(json)?;
    let id = require_text(m, "id")?;
    let registered_epoch = require_u64(m, "registeredEpoch")?;
    let blob_id = require_text(m, "blobId")?;
    let size = require_u64(m, "size")?;
    let encoding_type = require_text(m, "encodingType")?;
    let certified_epoch = optional_u64(m, "certifiedEpoch")?;
    let storage_json = require_member(m, "storage")?;
    let storage = decode_storage_info(storage_json)?;
    let deletable = require_bool(m, "deletable")?;
    Ok(
        BlobObject {
            id,
            registered_epoch,
            blob_id,
            size,
            encoding_type,
            certified_epoch,
            storage,
            deletable,
        },
    )
}

/// Decodes the details of a registration from scratch.
pub fn decode_register_from_scratch(json: &Json) -> (r: Result<RegisterFromScratch, WalrusError>)
    ensures
        outcome(r) == decoded(register_from_scratch_of(json@)),
{
    let m = require_members(json)?;
    let encoded_length = require_u64(m, "encodedLength")?;
    let epochs_ahead = require_u64(m, "epochsAhead")?;
    Ok(RegisterFromScratch { encoded_length, epochs_ahead })
}

/// Decodes the operation on storage resources.
pub fn decode_resource_operation(json: &Json) -> (r: Result<ResourceOperation, WalrusError>)
    ensures
        outcome(r) == decoded(resource_operation_of(json@)),
{
    let m = require_members(json)?;
    match find_present(m, "registerFromScratch") {
        None => Ok(ResourceOperation { register_from_scratch: None }),
        Some(inner) => {
            let details = decode_register_from_scratch(inner)?;
            Ok(ResourceOperation { register_from_scratch: Some(details) })
        },
    }
}

/// Decodes a newly created blob.
pub fn decode_newly_created(json: &Json) -> (r: Result<NewlyCreated, WalrusError>)
    ensures
        outcome(r) == decoded(newly_created_of(json@)),
{
    let m = require_members(json)?;
    let object_json = require_member(m, "blobObject")?;
    let operation_json = require_member(m, "resourceOperation")?;
    let cost = require_u64(m, "cost")?;
    let blob_object = decode_blob_object(object_json)?;
    let resource_operation = decode_resource_operation(operation_json)?;
    Ok(NewlyCreated { blob_object, resource_operation, cost })
}

/// Decodes a certification event.
pub fn decode_event(json: &Json) -> (r: Result<Event, WalrusError>)
    ensures
        outcome(r) == decoded(event_of(json@)),
{
    let m = require_members(json)?;
    let tx_digest = require_text(m, "txDigest")?;
    let event_seq = require_text(m, "eventSeq")?;
    Ok(Event { tx_digest, event_seq })
}

/// Decodes a blob that had been certified before.
pub fn decode_already_certified(json: &Json) -> (r: Result<AlreadyCertified, WalrusError>)
    ensures
        outcome(r) == decoded(already_certified_of(json@)),
{
    let m = require_members(json)?;
    let blob_id = require_text(m, "blobId")?;
    let event_json = require_member(m, "event")?;
    let end_epoch = require_u64(m, "endEpoch")?;
    let event = decode_event(event_json)?;
    Ok(AlreadyCertified { blob_id, event, end_epoch })
}

/// Decodes the outcome of a store call. A document that holds neither
/// outcome, or both, is refused.
pub fn decode_blob_store_result(json: &Json) -> (r: Result<BlobStoreResult, WalrusError>)
    ensures
        outcome(r) == decoded(blob_store_result_of(json@)),
        r matches Ok(result) ==> result@.holds_one(),
{
    let m = require_members(json)?;
    match (find_present(m, "newlyCreated"), find_present(m, "alreadyCertified")) {
        (Some(created_json), None) => {
            let created = decode_newly_created(created_json)?;
            Ok(BlobStoreResult { newly_created: Some(created), already_certified: None })
        },
        (None, Some(certified_json)) => {
            let certified = decode_already_certified(certified_json)?;
            Ok(BlobStoreResult { newly_created: None, already_certified: Some(certified) })
        },
        (None, None) => Err(
            WalrusError::ParseError(
                String::from_str("neither newlyCreated nor alreadyCertified is present"),
            ),
        ),
        (Some(_), Some(_)) => Err(
            WalrusError::ParseError(
                String::from_str("both newlyCreated and alreadyCertified are present"),
            ),
        ),
    }
}

/// Decodes one file of a stored quilt.
pub fn decode_stored_quilt_blob(json: &Json) -> (r: Result<StoredQuiltBlob, WalrusError>)
    ensures
        outcome(r) == decoded(stored_quilt_blob_of(json@)),
{
    let m = require_members(json)?;
    let identifier = require_text(m, "identifier")?;
    let quilt_patch_id = require_text(m, "quiltPatchId")?;
    Ok(StoredQuiltBlob { identifier, quilt_patch_id })
}

/// The files of a quilt, each taken by its view.
pub open spec fn blob_views(blobs: Seq<StoredQuiltBlob>) -> Seq<StoredQuiltBlobView> {
    Seq::new(blobs.len(), |i: int| blobs[i]@)
}

/// Decodes the list of the files of a stored quilt.
fn decode_stored_quilt_blobs(items: &Vec<Json>) -> (r: Result<Vec<StoredQuiltBlob>, WalrusError>)
    ensures
        match r {
            Ok(blobs) => stored_quilt_blobs_of(item_views(items@)) == Ok::<
                Seq<StoredQuiltBlobView>,
                Seq<char>,
            >(blob_views(blobs@)),
            Err(e) => stored_quilt_blobs_of(item_views(items@)) matches Err(words) && e@
                == ErrorView::ParseError(words),
        },
{
    let ghost views = item_views(items@);
    let mut blobs: Vec<StoredQuiltBlob> = Vec::new();
    let mut i: usize = 0;
    assert(views.take(0) =~= Seq::<JsonView>::empty());
    assert(blob_views(blobs@) =~= Seq::<StoredQuiltBlobView>::empty());
    while i < items.len()
        invariant
            i <= items.len(),
            views == item_views(items@),
            stored_quilt_blobs_of(views.take(i as int)) == Ok::<
                Seq<StoredQuiltBlobView>,
                Seq<char>,
            >(blob_views(blobs@)),
        decreases items.len() - i,
    {
        let ghost before = blob_views(blobs@);
        proof {
            assert(views.take(i + 1).drop_last() =~= views.take(i as int));
            assert(views.take(i + 1).last() == items@[i as int]@);
        }
        match decode_stored_quilt_blob(&items[i]) {
            Ok(blob) => {
                blobs.push(blob);
                assert(blob_views(blobs@) =~= before.push(blob@));
            },
            Err(e) => {
                proof {
                    lemma_first_malformed_item(views, i + 1);
                }
                return Err(e);
            },
        }
        i += 1;
    }
    assert(views.take(i as int) =~= views);
    Ok(blobs)
}

/// Decodes the outcome of storing a quilt.
pub fn decode_quilt_store_response(json: &Json) -> (r: Result<QuiltStoreResponse, WalrusError>)
    ensures
        outcome(r) == decoded(quilt_store_response_of(json@)),
{
    let m = require_members(json)?;
    let result_json = require_member(m, "blobStoreResult")?;
    let items = match require_member(m, "storedQuiltBlobs")? {
        Json::Array(items) => {
            proof {
                lemma_array_view(*items);
            }
            items
        },
        _ => {
            return Err(malformed("storedQuiltBlobs"));
        },
    };
    let blob_store_result = decode_blob_store_result(result_json)?;
    let stored_quilt_blobs = decode_stored_quilt_blobs(items)?;
    let r = QuiltStoreResponse { blob_store_result, stored_quilt_blobs };
    assert(r@.stored_quilt_blobs =~= blob_views(stored_quilt_blobs@));
    Ok(r)
}

/// A document in which `newlyCreated` is present and well formed, and
/// `alreadyCertified` is not present, stands for a result that holds the
/// former and lacks the latter.
pub proof fn lemma_only_newly_created(json: JsonView)
    requires
        members_of(json) is Some,
        present(members_of(json)->Some_0, "newlyCreated"@) is Some,
        newly_created_of(present(members_of(json)->Some_0, "newlyCreated"@)->Some_0) is Ok,
        present(members_of(json)->Some_0, "alreadyCertified"@) is None,
    ensures
        blob_store_result_of(json) == Ok::<BlobStoreResultView, Seq<char>>(
            BlobStoreResultView {
                newly_created: Some(
                    newly_created_of(
                        present(members_of(json)->Some_0, "newlyCreated"@)->Some_0,
                    )->Ok_0,
                ),
                already_certified: None,
            },
        ),
{
}

/// A document in which neither `newlyCreated` nor `alreadyCertified` is
/// present stands for no result: decoding it fails.
pub proof fn lemma_neither_outcome_is_refused(json: JsonView)
    requires
        members_of(json) matches Some(m) ==> present(m, "newlyCreated"@) is None && present(
            m,
            "alreadyCertified"@,
        ) is None,
    ensures
        blob_store_result_of(json) is Err,
{
}

/// Every result that a document stands for holds exactly one of the two
/// outcomes.
pub proof fn lemma_result_holds_one(json: JsonView)
    ensures
        blob_store_result_of(json) matches Ok(result) ==> result.holds_one(),
{
}

} // verus!
