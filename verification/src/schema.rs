//! The changelog collection's schema declaration: the command that
//! creates the collection with a validator requiring `name` and
//! `status`, with `appliedAt`, `description` and `checksum` nullable.

use vstd::prelude::*;
use crate::content::DocValue;

verus! {

pub open spec fn is_text(d: DocValue, s: Seq<char>) -> bool {
    d matches DocValue::Text(t) && t@ == s
}

/// A property of the form `{ bsonType: <ty>, description: <desc> }`.
pub open spec fn is_typed_property(d: DocValue, ty: Seq<char>, desc: Seq<char>) -> bool {
    &&& d matches DocValue::Obj(es)
    &&& es@.len() == 2
    &&& es@[0].0@ == "bsonType"@ && is_text(es@[0].1, ty)
    &&& es@[1].0@ == "description"@ && is_text(es@[1].1, desc)
}

/// A property of the form `{ bsonType: [<ty>, "null"], description: <desc> }`.
pub open spec fn is_nullable_property(d: DocValue, ty: Seq<char>, desc: Seq<char>) -> bool {
    &&& d matches DocValue::Obj(es)
    &&& es@.len() == 2
    &&& es@[0].0@ == "bsonType"@
    &&& es@[0].1 matches DocValue::Arr(a) && a@.len() == 2 && is_text(a@[0], ty) && is_text(
        a@[1],
        "null"@,
    )
    &&& es@[1].0@ == "description"@ && is_text(es@[1].1, desc)
}

/// The `status` property: a string restricted to `pending` or `applied`.
pub open spec fn is_status_property(d: DocValue) -> bool {
    &&& d matches DocValue::Obj(es)
    &&& es@.len() == 3
    &&& es@[0].0@ == "bsonType"@ && is_text(es@[0].1, "string"@)
    &&& es@[1].0@ == "enum"@
    &&& es@[1].1 matches DocValue::Arr(a) && a@.len() == 2 && is_text(a@[0], "pending"@)
        && is_text(a@[1], "applied"@)
    &&& es@[2].0@ == "description"@ && is_text(es@[2].1, "status of migration"@)
}

/// The validator's json schema: an object with `name` and `status`
/// required, and the five declared properties.
pub open spec fn is_changelog_schema(d: DocValue) -> bool {
    &&& d matches DocValue::Obj(es)
    &&& es@.len() == 3
    &&& es@[0].0@ == "bsonType"@ && is_text(es@[0].1, "object"@)
    &&& es@[1].0@ == "required"@
    &&& es@[1].1 matches DocValue::Arr(req) && req@.len() == 2 && is_text(req@[0], "name"@)
        && is_text(req@[1], "status"@)
    &&& es@[2].0@ == "properties"@
    &&& es@[2].1 matches DocValue::Obj(props)
    &&& props@.len() == 5
    &&& props@[0].0@ == "name"@ && is_typed_property(
        props@[0].1,
        "string"@,
        "name of migration"@,
    )
    &&& props@[1].0@ == "checksum"@ && is_nullable_property(
        props@[1].1,
        "int"@,
        "checksum of migration file, used to check if migration file was changed"@,
    )
    &&& props@[2].0@ == "applied_at"@ && is_nullable_property(
        props@[2].1,
        "date"@,
        "date of when migration was applied"@,
    )
    &&& props@[3].0@ == "status"@ && is_status_property(props@[3].1)
    &&& props@[4].0@ == "description"@ && is_nullable_property(
        props@[4].1,
        "string"@,
        "description of migration"@,
    )
}

/// The whole collection-creation command for the changelog.
pub open spec fn is_create_collection_command(d: DocValue, coll: Seq<char>) -> bool {
    &&& d matches DocValue::Obj(es)
    &&& es@.len() == 2
    &&& es@[0].0@ == "create"@ && is_text(es@[0].1, coll)
    &&& es@[1].0@ == "validator"@
    &&& es@[1].1 matches DocValue::Obj(v)
    &&& v@.len() == 1
    &&& v@[0].0@ == "$jsonSchema"@
    &&& is_changelog_schema(v@[0].1)
}

fn text(s: &str) -> (r: DocValue)
    ensures
        is_text(r, s@),
{
    DocValue::Text(s.to_owned())
}

fn typed_property(ty: &str, desc: &str) -> (r: DocValue)
    ensures
        is_typed_property(r, ty@, desc@),
{
    let mut es: Vec<(String, DocValue)> = Vec::new();
    es.push(("bsonType".to_owned(), text(ty)));
    es.push(("description".to_owned(), text(desc)));
    DocValue::Obj(es)
}

fn nullable_property(ty: &str, desc: &str) -> (r: DocValue)
    ensures
        is_nullable_property(r, ty@, desc@),
{
    let mut a: Vec<DocValue> = Vec::new();
    a.push(text(ty));
    a.push(text("null"));
    let mut es: Vec<(String, DocValue)> = Vec::new();
    es.push(("bsonType".to_owned(), DocValue::Arr(a)));
    es.push(("description".to_owned(), text(desc)));
    DocValue::Obj(es)
}

fn status_property() -> (r: DocValue)
    ensures
        is_status_property(r),
{
    let mut a: Vec<DocValue> = Vec::new();
    a.push(text("pending"));
    a.push(text("applied"));
    let mut es: Vec<(String, DocValue)> = Vec::new();
    es.push(("bsonType".to_owned(), text("string")));
    es.push(("enum".to_owned(), DocValue::Arr(a)));
    es.push(("description".to_owned(), text("status of migration")));
    DocValue::Obj(es)
}

/// Builds the command that `init` runs to create the changelog
/// collection with its validator.
pub fn create_collection_command(coll: &str) -> (r: DocValue)
    ensures
        is_create_collection_command(r, coll@),
{
    let mut req: Vec<DocValue> = Vec::new();
    req.push(text("name"));
    req.push(text("status"));
    let mut props: Vec<(String, DocValue)> = Vec::new();
    props.push(("name".to_owned(), typed_property("string", "name of migration")));
    props.push(
        (
            "checksum".to_owned(),
            nullable_property(
                "int",
                "checksum of migration file, used to check if migration file was changed",
            ),
        ),
    );
    props.push(
        ("applied_at".to_owned(), nullable_property("date", "date of when migration was applied")),
    );
    props.push(("status".to_owned(), status_property()));
    props.push(
        ("description".to_owned(), nullable_property("string", "description of migration")),
    );
    let mut schema: Vec<(String, DocValue)> = Vec::new();
    schema.push(("bsonType".to_owned(), text("object")));
    schema.push(("required".to_owned(), DocValue::Arr(req)));
    schema.push(("properties".to_owned(), DocValue::Obj(props)));
    let mut validator: Vec<(String, DocValue)> = Vec::new();
    validator.push(("$jsonSchema".to_owned(), DocValue::Obj(schema)));
    let mut cmd: Vec<(String, DocValue)> = Vec::new();
    cmd.push(("create".to_owned(), text(coll)));
    cmd.push(("validator".to_owned(), DocValue::Obj(validator)));
    DocValue::Obj(cmd)
}

} // verus!
