//! What the library has from serde_json: reading a text as a JSON document,
//! and printing a small JSON object. The two calls are trusted and their
//! results named; looking a member up in a document is proved.

use vstd::prelude::*;

verus! {

/// One member of a JSON object, as far as a log event reads it.
#[derive(Debug)]
pub enum JsonMember {
    /// A string, here unescaped.
    Text(String),
    /// A value of another JSON type.
    Other,
}

/// A text read as JSON, as far as a log event reads it.
#[derive(Debug)]
pub enum JsonDocument {
    /// The text is not valid JSON.
    Invalid,
    /// The text is valid JSON, but its top level is not an object.
    NotObject,
    /// The members of the top-level object, each with its key.
    Object(Vec<(String, JsonMember)>),
}

/// What a document holds under one key.
#[derive(Debug)]
pub enum JsonField {
    /// The text is not valid JSON.
    Invalid,
    /// The text is valid JSON, but its top level is not an object.
    NotObject,
    /// The object has no member of that key.
    Absent,
    /// The member is a string.
    Text(String),
    /// The member is of another JSON type.
    Other,
}

/// The mathematical value of a `JsonMember`.
pub enum MemberModel {
    Text(Seq<char>),
    Other,
}

/// The mathematical value of a `JsonDocument`.
pub enum DocumentModel {
    Invalid,
    NotObject,
    Object(Seq<(Seq<char>, MemberModel)>),
}

/// The mathematical value of a `JsonField`.
pub enum FieldModel {
    Invalid,
    NotObject,
    Absent,
    Text(Seq<char>),
    Other,
}

impl View for JsonMember {
    type V = MemberModel;

    open spec fn view(&self) -> MemberModel {
        match self {
            JsonMember::Text(s) => MemberModel::Text(s@),
            JsonMember::Other => MemberModel::Other,
        }
    }
}

/// The mathematical value of a list of members.
pub open spec fn members_model(members: Seq<(String, JsonMember)>) -> Seq<(Seq<char>, MemberModel)> {
    Seq::new(members.len(), |i: int| (members[i].0@, members[i].1@))
}

impl View for JsonDocument {
    type V = DocumentModel;

    open spec fn view(&self) -> DocumentModel {
        match self {
            JsonDocument::Invalid => DocumentModel::Invalid,
            JsonDocument::NotObject => DocumentModel::NotObject,
            JsonDocument::Object(members) => DocumentModel::Object(members_model(members@)),
        }
    }
}

impl View for JsonField {
    type V = FieldModel;

    open spec fn view(&self) -> FieldModel {
        match self {
            JsonField::Invalid => FieldModel::Invalid,
            JsonField::NotObject => FieldModel::NotObject,
            JsonField::Absent => FieldModel::Absent,
            JsonField::Text(s) => FieldModel::Text(s@),
            JsonField::Other => FieldModel::Other,
        }
    }
}

/// The document that serde_json reads from `text`.
pub uninterp spec fn json_document(text: Seq<char>) -> DocumentModel;

/// The text that serde_json prints for the object with a string member
/// `text_key` and an integer member `number_key`.
pub uninterp spec fn json_pair_text(
    text_key: Seq<char>,
    text: Seq<char>,
    number_key: Seq<char>,
    number: int,
) -> Seq<char>;

/// What a member is when it is read as a field.
pub open spec fn member_field(member: MemberModel) -> FieldModel {
    match member {
        MemberModel::Text(s) => FieldModel::Text(s),
        MemberModel::Other => FieldModel::Other,
    }
}

/// The first member of key `key` among `members`, from position `from` on.
pub open spec fn member_from(
    members: Seq<(Seq<char>, MemberModel)>,
    key: Seq<char>,
    from: int,
) -> FieldModel
    decreases members.len() - from,
{
    if from < 0 || from >= members.len() {
        FieldModel::Absent
    } else if members[from].0 == key {
        member_field(members[from].1)
    } else {
        member_from(members, key, from + 1)
    }
}

/// What a document holds under `key`.
pub open spec fn field_of(document: DocumentModel, key: Seq<char>) -> FieldModel {
    match document {
        DocumentModel::Invalid => FieldModel::Invalid,
        DocumentModel::NotObject => FieldModel::NotObject,
        DocumentModel::Object(members) => member_from(members, key, 0),
    }
}

/// What serde_json finds under `key` when it reads `text`.
pub open spec fn json_field(text: Seq<char>, key: Seq<char>) -> FieldModel {
    field_of(json_document(text), key)
}

/// Parses `text` with `serde_json::from_str` into a `serde_json::Value` and
/// hands over the top level: each member of an object with its key, a string
/// as its text. Trusted: the document depends on the text alone, and is the
/// one that `json_document` names. Nothing is claimed of which texts are
/// valid JSON, nor of the order of the members.
#[verifier::external_body]
pub(crate) fn read_document(text: &str) -> (document: JsonDocument)
    ensures
        document@ == json_document(text@),
{
    match serde_json::from_str::<serde_json::Value>(text) {
        Err(_) => JsonDocument::Invalid,
        Ok(serde_json::Value::Object(members)) => JsonDocument::Object(
            members.into_iter().map(|(key, value)| match value {
                serde_json::Value::String(s) => (key, JsonMember::Text(s)),
                _ => (key, JsonMember::Other),
            }).collect(),
        ),
        Ok(_) => JsonDocument::NotObject,
    }
}

/// Looks a key up in a document: the first member of that key counts.
pub fn lookup(document: &JsonDocument, key: &str) -> (field: JsonField)
    ensures
        field@ == field_of(document@, key@),
{
    match document {
        JsonDocument::Invalid => JsonField::Invalid,
        JsonDocument::NotObject => JsonField::NotObject,
        JsonDocument::Object(members) => {
            let wanted = key.to_owned();
            let ghost model = members_model(members@);
            let mut at: usize = 0;
            while at < members.len()
                invariant
                    at <= members.len(),
                    wanted@ == key@,
                    model == members_model(members@),
                    document@ == DocumentModel::Object(model),
                    member_from(model, key@, 0) == member_from(model, key@, at as int),
                decreases members.len() - at,
            {
                assert(model[at as int] == (members@[at as int].0@, members@[at as int].1@));
                if members[at].0 == wanted {
                    return match &members[at].1 {
                        JsonMember::Text(s) => JsonField::Text(s.clone()),
                        JsonMember::Other => JsonField::Other,
                    };
                }
                at = at + 1;
            }
            JsonField::Absent
        },
    }
}

/// Builds a `serde_json::Map` of the two members and prints it as a
/// `serde_json::Value`. Trusted: the text depends on the four arguments
/// alone, and is the one that `json_pair_text` names. Printing into memory
/// an object whose keys are strings does not fail.
#[verifier::external_body]
pub(crate) fn print_pair(text_key: &str, text: &str, number_key: &str, number: i32) -> (out: String)
    ensures
        out@ == json_pair_text(text_key@, text@, number_key@, number as int),
{
    let mut members = serde_json::Map::new();
    members.insert(text_key.to_owned(), serde_json::Value::from(text));
    members.insert(number_key.to_owned(), serde_json::Value::from(number));
    serde_json::Value::Object(members).to_string()
}

} // verus!
