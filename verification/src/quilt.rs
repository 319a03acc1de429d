//! The multipart form of a quilt: one part for each file, and one more for
//! the per-file metadata where the caller gives any.

use vstd::prelude::*;
use crate::error::ErrorView;
use crate::error::WalrusError;
use crate::http::part_views;
use crate::http::FormPart;
use crate::http::FormPartView;
use crate::http::PartContent;
use crate::http::PartContentView;
use crate::json::json_text;
use crate::json::lemma_array_view;
use crate::json::lemma_object_view;
use crate::json::render_json;
use crate::json::Json;
use crate::json::JsonMember;
use crate::json::JsonView;
use crate::models::QuiltMetadata;
use crate::models::QuiltMetadataView;
use crate::text::join_text;

verus! {

/// The tags of one file as a JSON object: one member for each tag, in the
/// order given.
pub open spec fn tags_json(tags: Seq<(Seq<char>, Seq<char>)>) -> JsonView {
    JsonView::Object(
        Seq::new(
            tags.len(),
            |i: int| JsonMember { name: tags[i].0, value: JsonView::Text(tags[i].1) },
        ),
    )
}

/// The metadata of one file as a JSON object with the members `identifier`
/// and `tags`.
pub open spec fn metadata_json(metadata: QuiltMetadataView) -> JsonView {
    JsonView::Object(
        seq![
            JsonMember { name: "identifier"@, value: JsonView::Text(metadata.identifier) },
            JsonMember { name: "tags"@, value: tags_json(metadata.tags) },
        ],
    )
}

/// The metadata of all files as a JSON array, in the order given.
pub open spec fn metadata_list_json(metadata: Seq<QuiltMetadataView>) -> JsonView {
    JsonView::Array(Seq::new(metadata.len(), |i: int| metadata_json(metadata[i])))
}

/// The metadata of files, each taken by its view.
pub open spec fn metadata_views(metadata: Seq<QuiltMetadata>) -> Seq<QuiltMetadataView> {
    Seq::new(metadata.len(), |i: int| metadata[i]@)
}

/// The metadata that a caller may give, taken by its view.
pub open spec fn optional_metadata_views(metadata: Option<Vec<QuiltMetadata>>) -> Option<
    Seq<QuiltMetadataView>,
> {
    match metadata {
        Some(items) => Some(metadata_views(items@)),
        None => None,
    }
}

/// The part that carries one file: named by the file's identifier, holding
/// the file's bytes.
pub open spec fn file_part(identifier: Seq<char>, data: Seq<u8>) -> FormPartView {
    FormPartView { name: identifier, content: PartContentView::Bytes(data) }
}

/// The parts that carry the files, one for each, in the order given.
pub open spec fn file_parts(files: Seq<(&str, Vec<u8>)>) -> Seq<FormPartView> {
    Seq::new(files.len(), |i: int| file_part(files[i].0@, files[i].1@))
}

/// In the metadata of every file, no tag name is given twice.
pub open spec fn all_distinct_tags(metadata: Seq<QuiltMetadataView>) -> bool {
    forall|k: int| 0 <= k < metadata.len() ==> (#[trigger] metadata[k]).has_distinct_tags()
}

/// The parts of the form of a quilt. After the parts of the files comes,
/// where metadata is given, one part named `_metadata` that holds the
/// metadata as JSON text; without metadata no such part is there. Metadata
/// in which a file has a tag name twice is refused, and nothing is written
/// for it. Where the metadata cannot be written as JSON, the error says so.
pub open spec fn quilt_form_of(
    files: Seq<(&str, Vec<u8>)>,
    metadata: Option<Seq<QuiltMetadataView>>,
) -> Result<Seq<FormPartView>, ErrorView> {
    match metadata {
        None => Ok(file_parts(files)),
        Some(items) => if !all_distinct_tags(items) {
            Err(ErrorView::InvalidParameter("A tag name is given twice"@))
        } else {
            match json_text(metadata_list_json(items)) {
                Ok(text) => Ok(
                    file_parts(files).push(
                        FormPartView { name: "_metadata"@, content: PartContentView::Text(text) },
                    ),
                ),
                Err(words) => Err(
                    ErrorView::EncodeError("Failed to serialize metadata: "@ + words),
                ),
            }
        },
    }
}

/// Tells whether no file has a tag name twice.
pub fn check_distinct_tags(metadata: &Vec<QuiltMetadata>) -> (r: bool)
    ensures
        r == all_distinct_tags(metadata_views(metadata@)),
{
    let mut i: usize = 0;
    while i < metadata.len()
        invariant
            i <= metadata.len(),
            forall|k: int| 0 <= k < i ==> (#[trigger] metadata@[k])@.has_distinct_tags(),
        decreases metadata.len() - i,
    {
        if !metadata[i].has_distinct_tags() {
            assert(!metadata_views(metadata@)[i as int].has_distinct_tags());
            return false;
        }
        i += 1;
    }
    assert forall|k: int| 0 <= k < metadata@.len() implies (#[trigger] metadata_views(
        metadata@,
    )[k]).has_distinct_tags() by {
        assert(metadata@[k]@.has_distinct_tags());
    }
    true
}

/// Builds the JSON object of the tags of one file: one member for each
/// tag, in the order given. It is for tags among which no name is given
/// twice; a store call refuses the others before anything is built.
fn build_tags_json(tags: &Vec<(String, String)>) -> (r: Json)
    requires
        forall|i: int, j: int|
            #![trigger tags@[i], tags@[j]]
            0 <= i < j < tags@.len() ==> tags@[i].0@ != tags@[j].0@,
    ensures
        r@ == tags_json(Seq::new(tags@.len(), |i: int| (tags@[i].0@, tags@[i].1@))),
{
    let mut members: Vec<(String, Json)> = Vec::new();
    let mut i: usize = 0;
    while i < tags.len()
        invariant
            i <= tags.len(),
            members@.len() == i,
            forall|k: int|
                0 <= k < i ==> (#[trigger] members@[k]).0@ == tags@[k].0@ && members@[k].1@
                    == JsonView::Text(tags@[k].1@),
        decreases tags.len() - i,
    {
        let value = Json::Text(tags[i].1.clone());
        members.push((tags[i].0.clone(), value));
        i += 1;
    }
    let r = Json::Object(members);
    proof {
        lemma_object_view(members);
        let expected = tags_json(Seq::new(tags@.len(), |i: int| (tags@[i].0@, tags@[i].1@)));
        assert(r@->Object_0 =~= expected->Object_0);
    }
    r
}

/// Builds the JSON object of the metadata of one file.
fn build_metadata_json(metadata: &QuiltMetadata) -> (r: Json)
    requires
        metadata@.has_distinct_tags(),
    ensures
        r@ == metadata_json(metadata@),
{
    let mut members: Vec<(String, Json)> = Vec::new();
    members.push((String::from_str("identifier"), Json::Text(metadata.identifier.clone())));
    proof {
        let tags = metadata.tags;
        assert forall|i: int, j: int|
            #![trigger tags@[i], tags@[j]]
            0 <= i < j < tags@.len() implies tags@[i].0@ != tags@[j].0@ by {
            assert(metadata@.tags[i].0 == tags@[i].0@);
            assert(metadata@.tags[j].0 == tags@[j].0@);
        }
    }
    members.push((String::from_str("tags"), build_tags_json(&metadata.tags)));
    let r = Json::Object(members);
    proof {
        lemma_object_view(members);
        assert(r@->Object_0 =~= metadata_json(metadata@)->Object_0);
    }
    r
}

/// Builds the JSON array of the metadata of all files.
fn build_metadata_list_json(metadata: &Vec<QuiltMetadata>) -> (r: Json)
    requires
        all_distinct_tags(metadata_views(metadata@)),
    ensures
        r@ == metadata_list_json(metadata_views(metadata@)),
{
    let mut items: Vec<Json> = Vec::new();
    let mut i: usize = 0;
    while i < metadata.len()
        invariant
            i <= metadata.len(),
            items@.len() == i,
            forall|k: int| 0 <= k < i ==> (#[trigger] items@[k])@ == metadata_json(metadata@[k]@),
            all_distinct_tags(metadata_views(metadata@)),
        decreases metadata.len() - i,
    {
        assert(metadata_views(metadata@)[i as int].has_distinct_tags());
        items.push(build_metadata_json(&metadata[i]));
        i += 1;
    }
    let r = Json::Array(items);
    proof {
        lemma_array_view(items);
        assert(r@->Array_0 =~= metadata_list_json(metadata_views(metadata@))->Array_0);
    }
    r
}

/// Turns the files into the parts that carry them, in the order given.
pub fn build_file_parts(files: Vec<(&str, Vec<u8>)>) -> (r: Vec<FormPart>)
    ensures
        part_views(r@) == file_parts(files@),
{
    let ghost all = files@;
    let mut rest = files;
    let mut reversed: Vec<FormPart> = Vec::new();
    while rest.len() > 0
        invariant
            rest@.len() + reversed@.len() == all.len(),
            rest@ == all.take(rest@.len() as int),
            forall|k: int|
                0 <= k < reversed@.len() ==> (#[trigger] reversed@[k])@ == file_part(
                    all[all.len() - 1 - k].0@,
                    all[all.len() - 1 - k].1@,
                ),
        decreases rest@.len(),
    {
        match rest.pop() {
            Some((identifier, data)) => {
                reversed.push(
                    FormPart { name: String::from_str(identifier), content: PartContent::Bytes(data) },
                );
            },
            None => {},
        }
    }
    let mut parts: Vec<FormPart> = Vec::new();
    while reversed.len() > 0
        invariant
            parts@.len() + reversed@.len() == all.len(),
            forall|k: int|
                0 <= k < reversed@.len() ==> (#[trigger] reversed@[k])@ == file_part(
                    all[all.len() - 1 - k].0@,
                    all[all.len() - 1 - k].1@,
                ),
            forall|k: int|
                0 <= k < parts@.len() ==> (#[trigger] parts@[k])@ == file_part(all[k].0@, all[k].1@),
        decreases reversed@.len(),
    {
        match reversed.pop() {
            Some(part) => {
                parts.push(part);
            },
            None => {},
        }
    }
    parts
}

/// Builds the parts of the form of a quilt.
pub fn build_quilt_form(files: Vec<(&str, Vec<u8>)>, metadata: Option<Vec<QuiltMetadata>>) -> (r:
    Result<Vec<FormPart>, WalrusError>)
    ensures
        match r {
            Ok(parts) => quilt_form_of(files@, optional_metadata_views(metadata)) == Ok::<
                Seq<FormPartView>,
                ErrorView,
            >(part_views(parts@)),
            Err(e) => quilt_form_of(files@, optional_metadata_views(metadata)) == Err::<
                Seq<FormPartView>,
                ErrorView,
            >(e@),
        },
{
    match metadata {
        None => Ok(build_file_parts(files)),
        Some(items) => {
            if !check_distinct_tags(&items) {
                return Err(
                    WalrusError::InvalidParameter(String::from_str("A tag name is given twice")),
                );
            }
            let json = build_metadata_list_json(&items);
            match render_json(&json) {
                Ok(text) => {
                    let mut parts = build_file_parts(files);
                    let ghost before = parts@;
                    parts.push(
                        FormPart {
                            name: String::from_str("_metadata"),
                            content: PartContent::Text(text),
                        },
                    );
                    assert(part_views(parts@) =~= part_views(before).push(parts@.last()@));
                    Ok(parts)
                },
                Err(words) => Err(
                    WalrusError::EncodeError(
                        join_text("Failed to serialize metadata: ", words.as_str()),
                    ),
                ),
            }
        },
    }
}

} // verus!
