//! The values that the service sends and takes, each with the mathematical
//! value (its view) that the contracts of this crate speak of.

use vstd::prelude::*;

verus! {

/// The storage window that a blob was given.
#[derive(Debug, PartialEq, Eq)]
pub struct StorageInfo {
    /// The storage ID.
    pub id: String,
    /// The first epoch of the window.
    pub start_epoch: u64,
    /// The epoch at which the window ends.
    pub end_epoch: u64,
    /// The size of the storage.
    pub storage_size: u64,
}

/// The view of a `StorageInfo`.
pub struct StorageInfoView {
    pub id: Seq<char>,
    pub start_epoch: u64,
    pub end_epoch: u64,
    pub storage_size: u64,
}

impl View for StorageInfo {
    type V = StorageInfoView;

    open spec fn view(&self) -> StorageInfoView {
        StorageInfoView {
            id: self.id@,
            start_epoch: self.start_epoch,
            end_epoch: self.end_epoch,
            storage_size: self.storage_size,
        }
    }
}

/// The record that the service keeps of a stored blob.
#[derive(Debug, PartialEq, Eq)]
pub struct BlobObject {
    /// The ID of the record.
    pub id: String,
    /// The epoch at which the blob was registered.
    pub registered_epoch: u64,
    /// The content ID of the blob.
    pub blob_id: String,
    /// The size of the blob in bytes.
    pub size: u64,
    /// The encoding type of the blob.
    pub encoding_type: String,
    /// The epoch at which the blob was certified, if it was.
    pub certified_epoch: Option<u64>,
    /// The storage window of the blob.
    pub storage: StorageInfo,
    /// Whether the blob can be deleted.
    pub deletable: bool,
}

/// The view of a `BlobObject`.
pub struct BlobObjectView {
    pub id: Seq<char>,
    pub registered_epoch: u64,
    pub blob_id: Seq<char>,
    pub size: u64,
    pub encoding_type: Seq<char>,
    pub certified_epoch: Option<u64>,
    pub storage: StorageInfoView,
    pub deletable: bool,
}

impl View for BlobObject {
    type V = BlobObjectView;

    open spec fn view(&self) -> BlobObjectView {
        BlobObjectView {
            id: self.id@,
            registered_epoch: self.registered_epoch,
            blob_id: self.blob_id@,
            size: self.size,
            encoding_type: self.encoding_type@,
            certified_epoch: self.certified_epoch,
            storage: self.storage@,
            deletable: self.deletable,
        }
    }
}

/// What a registration from scratch cost in space and time.
#[derive(Debug, Clone, Copy, PartialEq, Eq, Structural)]
pub struct RegisterFromScratch {
    /// The encoded length.
    pub encoded_length: u64,
    /// The number of epochs ahead.
    pub epochs_ahead: u64,
}

impl View for RegisterFromScratch {
    type V = RegisterFromScratch;

    open spec fn view(&self) -> RegisterFromScratch {
        *self
    }
}

/// The operation on storage resources that a store call led to.
#[derive(Debug, Clone, Copy, PartialEq, Eq, Structural)]
pub struct ResourceOperation {
    /// The details of a registration from scratch, if there was one.
    pub register_from_scratch: Option<RegisterFromScratch>,
}

impl View for ResourceOperation {
    type V = ResourceOperation;

    open spec fn view(&self) -> ResourceOperation {
        *self
    }
}

/// A blob that this store call registered.
#[derive(Debug, PartialEq, Eq)]
pub struct NewlyCreated {
    /// The record of the blob.
    pub blob_object: BlobObject,
    /// The operation on storage resources.
    pub resource_operation: ResourceOperation,
    /// The cost.
    pub cost: u64,
}

/// The view of a `NewlyCreated`.
pub struct NewlyCreatedView {
    pub blob_object: BlobObjectView,
    pub resource_operation: ResourceOperation,
    pub cost: u64,
}

impl View for NewlyCreated {
    type V = NewlyCreatedView;

    open spec fn view(&self) -> NewlyCreatedView {
        NewlyCreatedView {
            blob_object: self.blob_object@,
            resource_operation: self.resource_operation,
            cost: self.cost,
        }
    }
}

/// The event by which a blob was certified.
#[derive(Debug, PartialEq, Eq)]
pub struct Event {
    /// The transaction digest.
    pub tx_digest: String,
    /// The event sequence.
    pub event_seq: String,
}

/// The view of an `Event`.
pub struct EventView {
    pub tx_digest: Seq<char>,
    pub event_seq: Seq<char>,
}

impl View for Event {
    type V = EventView;

    open spec fn view(&self) -> EventView {
        EventView { tx_digest: self.tx_digest@, event_seq: self.event_seq@ }
    }
}

/// A blob that another writer had stored and certified before.
#[derive(Debug, PartialEq, Eq)]
pub struct AlreadyCertified {
    /// The content ID of the blob.
    pub blob_id: String,
    /// The event that certified it.
    pub event: Event,
    /// The epoch at which its storage ends.
    pub end_epoch: u64,
}

/// The view of an `AlreadyCertified`.
pub struct AlreadyCertifiedView {
    pub blob_id: Seq<char>,
    pub event: EventView,
    pub end_epoch: u64,
}

impl View for AlreadyCertified {
    type V = AlreadyCertifiedView;

    open spec fn view(&self) -> AlreadyCertifiedView {
        AlreadyCertifiedView {
            blob_id: self.blob_id@,
            event: self.event@,
            end_epoch: self.end_epoch,
        }
    }
}

/// The outcome of a store call: the blob was newly created, or it had been
/// certified already. A value that this crate decodes holds exactly one of
/// the two (`holds_one`).
#[derive(Debug, PartialEq, Eq)]
pub struct BlobStoreResult {
    /// Set where the call registered the blob.
    pub newly_created: Option<NewlyCreated>,
    /// Set where the blob had been certified before.
    pub already_certified: Option<AlreadyCertified>,
}

/// The view of a `BlobStoreResult`.
pub struct BlobStoreResultView {
    pub newly_created: Option<NewlyCreatedView>,
    pub already_certified: Option<AlreadyCertifiedView>,
}

impl BlobStoreResultView {
    /// Exactly one of the two outcomes is set.
    pub open spec fn holds_one(self) -> bool {
        self.newly_created is Some != self.already_certified is Some
    }

    /// The content ID of the stored blob, whichever outcome holds it.
    pub open spec fn blob_id(self) -> Option<Seq<char>> {
        match (self.newly_created, self.already_certified) {
            (Some(created), _) => Some(created.blob_object.blob_id),
            (None, Some(certified)) => Some(certified.blob_id),
            (None, None) => None,
        }
    }
}

impl View for BlobStoreResult {
    type V = BlobStoreResultView;

    open spec fn view(&self) -> BlobStoreResultView {
        BlobStoreResultView {
            newly_created: match self.newly_created {
                Some(created) => Some(created@),
                None => None,
            },
            already_certified: match self.already_certified {
                Some(certified) => Some(certified@),
                None => None,
            },
        }
    }
}

impl BlobStoreResult {
    /// The content ID of the stored blob, whichever outcome holds it.
    pub fn blob_id(&self) -> (r: Option<&String>)
        ensures
            match r {
                Some(id) => self@.blob_id() == Some(id@),
                None => self@.blob_id() is None,
            },
    {
        match &self.newly_created {
            Some(created) => Some(&created.blob_object.blob_id),
            None => match &self.already_certified {
                Some(certified) => Some(&certified.blob_id),
                None => None,
            },
        }
    }
}

/// One file of a stored quilt: its identifier and the patch under which it
/// can be read.
#[derive(Debug, PartialEq, Eq)]
pub struct StoredQuiltBlob {
    /// The identifier of the file.
    pub identifier: String,
    /// The quilt patch ID.
    pub quilt_patch_id: String,
}

/// The view of a `StoredQuiltBlob`.
pub struct StoredQuiltBlobView {
    pub identifier: Seq<char>,
    pub quilt_patch_id: Seq<char>,
}

impl View for StoredQuiltBlob {
    type V = StoredQuiltBlobView;

    open spec fn view(&self) -> StoredQuiltBlobView {
        StoredQuiltBlobView { identifier: self.identifier@, quilt_patch_id: self.quilt_patch_id@ }
    }
}

/// The outcome of storing a quilt.
#[derive(Debug, PartialEq, Eq)]
pub struct QuiltStoreResponse {
    /// The outcome for the quilt as a whole.
    pub blob_store_result: BlobStoreResult,
    /// The files of the quilt, in the order of the response.
    pub stored_quilt_blobs: Vec<StoredQuiltBlob>,
}

/// The patch ID of the first file with this identifier, if there is one.
pub open spec fn patch_id_of(blobs: Seq<StoredQuiltBlobView>, identifier: Seq<char>) -> Option<
    Seq<char>,
>
    decreases blobs.len(),
{
    if blobs.len() == 0 {
        None
    } else if blobs[0].identifier == identifier {
        Some(blobs[0].quilt_patch_id)
    } else {
        patch_id_of(blobs.drop_first(), identifier)
    }
}

impl QuiltStoreResponse {
    /// The patch ID under which the file with this identifier can be read.
    /// Files are told apart by their identifiers, not by their places in
    /// the list, which the service may order as it likes.
    pub fn patch_id_for(&self, identifier: &str) -> (r: Option<&String>)
        ensures
            match r {
                Some(id) => patch_id_of(self@.stored_quilt_blobs, identifier@) == Some(id@),
                None => patch_id_of(self@.stored_quilt_blobs, identifier@) is None,
            },
    {
        let wanted = String::from_str(identifier);
        let ghost all = self@.stored_quilt_blobs;
        let mut i: usize = 0;
        assert(all.skip(0) =~= all);
        while i < self.stored_quilt_blobs.len()
            invariant
                i <= self.stored_quilt_blobs.len(),
                wanted@ == identifier@,
                all == self@.stored_quilt_blobs,
                patch_id_of(all, identifier@) == patch_id_of(all.skip(i as int), identifier@),
            decreases self.stored_quilt_blobs.len() - i,
        {
            let ghost rest = all.skip(i as int);
            assert(rest.drop_first() =~= all.skip(i + 1));
            if self.stored_quilt_blobs[i].identifier == wanted {
                return Some(&self.stored_quilt_blobs[i].quilt_patch_id);
            }
            i += 1;
        }
        None
    }
}

/// The view of a `QuiltStoreResponse`.
pub struct QuiltStoreResponseView {
    pub blob_store_result: BlobStoreResultView,
    pub stored_quilt_blobs: Seq<StoredQuiltBlobView>,
}

impl View for QuiltStoreResponse {
    type V = QuiltStoreResponseView;

    open spec fn view(&self) -> QuiltStoreResponseView {
        QuiltStoreResponseView {
            blob_store_result: self.blob_store_result@,
            stored_quilt_blobs: Seq::new(
                self.stored_quilt_blobs@.len(),
                |i: int| self.stored_quilt_blobs@[i]@,
            ),
        }
    }
}

/// The tags that a caller attaches to one file of a quilt.
#[derive(Debug, PartialEq, Eq)]
pub struct QuiltMetadata {
    /// The identifier of the file.
    pub identifier: String,
    /// The tags, as pairs of a name and a value. They stand for a mapping
    /// from names to values, so no name may be given twice
    /// (`has_distinct_tags`); a store call refuses metadata in which one
    /// is.
    pub tags: Vec<(String, String)>,
}

/// The view of a `QuiltMetadata`.
pub struct QuiltMetadataView {
    pub identifier: Seq<char>,
    pub tags: Seq<(Seq<char>, Seq<char>)>,
}

impl QuiltMetadataView {
    /// No name is given twice among the tags.
    pub open spec fn has_distinct_tags(self) -> bool {
        forall|i: int, j: int|
            #![trigger self.tags[i], self.tags[j]]
            0 <= i < j < self.tags.len() ==> self.tags[i].0 != self.tags[j].0
    }
}

impl QuiltMetadata {
    /// Tells whether no name is given twice among the tags.
    pub fn has_distinct_tags(&self) -> (r: bool)
        ensures
            r == self@.has_distinct_tags(),
    {
        let mut j: usize = 0;
        while j < self.tags.len()
            invariant
                j <= self.tags.len(),
                forall|a: int, b: int|
                    #![trigger self@.tags[a], self@.tags[b]]
                    0 <= a < b < j ==> self@.tags[a].0 != self@.tags[b].0,
            decreases self.tags.len() - j,
        {
            let mut i: usize = 0;
            while i < j
                invariant
                    i <= j < self.tags.len(),
                    forall|a: int|
                        #![trigger self@.tags[a]]
                        0 <= a < i ==> self@.tags[a].0 != self@.tags[j as int].0,
                decreases j - i,
            {
                if self.tags[i].0 == self.tags[j].0 {
                    assert(self@.tags[i as int].0 == self@.tags[j as int].0);
                    return false;
                }
                i += 1;
            }
            j += 1;
        }
        true
    }
}

impl View for QuiltMetadata {
    type V = QuiltMetadataView;

    open spec fn view(&self) -> QuiltMetadataView {
        QuiltMetadataView {
            identifier: self.identifier@,
            tags: Seq::new(self.tags@.len(), |i: int| (self.tags@[i].0@, self.tags@[i].1@)),
        }
    }
}

/// What the response headers tell of a blob.
#[derive(Debug, PartialEq, Eq)]
pub struct BlobMetadata {
    /// The length of the blob in bytes.
    pub content_length: u64,
    /// The content type that the service declares.
    pub content_type: String,
    /// The entity tag.
    pub etag: String,
}

/// The view of a `BlobMetadata`.
pub struct BlobMetadataView {
    pub content_length: u64,
    pub content_type: Seq<char>,
    pub etag: Seq<char>,
}

impl View for BlobMetadata {
    type V = BlobMetadataView;

    open spec fn view(&self) -> BlobMetadataView {
        BlobMetadataView {
            content_length: self.content_length,
            content_type: self.content_type@,
            etag: self.etag@,
        }
    }
}

} // verus!
