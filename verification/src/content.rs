//! Command-file content: a generic structured document and the strict
//! decoder that turns one into a migration's description and command
//! sequence.
//!
//! The engine is schema-agnostic: a command is an opaque structured
//! object, passed through to the database untouched. Decoding only
//! checks structure — `description` must be a string, `commands` must be
//! a sequence of objects — and any violation is a hard failure.

use vstd::prelude::*;
use crate::order::str_eq;

verus! {

/// A generic structured document value, as a command file holds it.
#[derive(Debug, PartialEq)]
pub enum DocValue {
    Null,
    Bool(bool),
    Int(i64),
    Text(String),
    Arr(Vec<DocValue>),
    Obj(Vec<(String, DocValue)>),
}

/// The decoded content of one command file.
#[derive(Debug, PartialEq)]
pub struct MigrationContent {
    pub description: String,
    pub commands: Vec<DocValue>,
}

/// Why a command file was rejected.
#[derive(Clone, Copy, Debug, PartialEq, Eq, Structural)]
pub enum ParseError {
    NotObject,
    MissingDescription,
    DescriptionNotText,
    MissingCommands,
    CommandsNotArray,
    CommandNotObject,
}

/// The first value bound to `key`, scanning entries in order.
pub open spec fn lookup(entries: Seq<(String, DocValue)>, key: Seq<char>) -> Option<DocValue>
    decreases entries.len(),
{
    if entries.len() == 0 {
        None
    } else if entries[0].0@ == key {
        Some(entries[0].1)
    } else {
        lookup(entries.skip(1), key)
    }
}

pub open spec fn description_field(doc: DocValue) -> Option<DocValue>
    recommends
        doc is Obj,
{
    lookup(doc->Obj_0@, "description"@)
}

pub open spec fn commands_field(doc: DocValue) -> Option<DocValue>
    recommends
        doc is Obj,
{
    lookup(doc->Obj_0@, "commands"@)
}

pub open spec fn all_objects(items: Seq<DocValue>) -> bool {
    forall|i: int| 0 <= i < items.len() ==> (#[trigger] items[i]) is Obj
}

/// A structurally valid command file: an object whose `description` is a
/// string and whose `commands` is a sequence of objects.
pub open spec fn content_ok(doc: DocValue) -> bool {
    &&& doc is Obj
    &&& description_field(doc) matches Some(d) && d is Text
    &&& commands_field(doc) matches Some(c) && c is Arr && all_objects(c->Arr_0@)
}

pub open spec fn content_description(doc: DocValue) -> Seq<char>
    recommends
        content_ok(doc),
{
    description_field(doc)->Some_0->Text_0@
}

pub open spec fn content_commands(doc: DocValue) -> Seq<DocValue>
    recommends
        content_ok(doc),
{
    commands_field(doc)->Some_0->Arr_0@
}

/// The error a malformed command file is rejected with, checks in the
/// order the decoder makes them.
pub open spec fn content_error(doc: DocValue) -> ParseError
    recommends
        !content_ok(doc),
{
    if !(doc is Obj) {
        ParseError::NotObject
    } else if description_field(doc) is None {
        ParseError::MissingDescription
    } else if !(description_field(doc)->Some_0 is Text) {
        ParseError::DescriptionNotText
    } else if commands_field(doc) is None {
        ParseError::MissingCommands
    } else if !(commands_field(doc)->Some_0 is Arr) {
        ParseError::CommandsNotArray
    } else {
        ParseError::CommandNotObject
    }
}

/// Strictly decodes a command file document. Succeeds exactly on
/// structurally valid content, returning the description and the command
/// sequence unchanged; fails with the first structural violation found.
#[verifier::loop_isolation(false)]
pub fn parse_content(doc: DocValue) -> (r: Result<MigrationContent, ParseError>)
    ensures
        r is Ok <==> content_ok(doc),
        r matches Ok(c) ==> c.description@ == content_description(doc) && c.commands@
            == content_commands(doc),
        r matches Err(e) ==> e == content_error(doc),
{
    proof {
        reveal_strlit("description");
        reveal_strlit("commands");
    }
    let ghost gdoc = doc;
    let mut entries = match doc {
        DocValue::Obj(entries) => entries,
        _ => {
            return Err(ParseError::NotObject);
        },
    };
    let ghost orig = entries@;
    let mut desc_v: Option<DocValue> = None;
    let mut cmds_v: Option<DocValue> = None;
    while entries.len() > 0
        invariant
            gdoc is Obj,
            gdoc->Obj_0@ == orig,
            match desc_v {
                Some(v) => lookup(orig, "description"@) == Some(v),
                None => lookup(orig, "description"@) == lookup(entries@, "description"@),
            },
            match cmds_v {
                Some(v) => lookup(orig, "commands"@) == Some(v),
                None => lookup(orig, "commands"@) == lookup(entries@, "commands"@),
            },
        decreases entries@.len(),
    {
        let ghost before = entries@;
        let (k, v) = entries.remove(0);
        proof {
            reveal_strlit("description");
            reveal_strlit("commands");
            assert(entries@ =~= before.skip(1));
            assert(before[0].0 == k && before[0].1 == v);
            assert(("description"@).len() == 11);
            assert(("commands"@).len() == 8);
            assert("description"@ != "commands"@);
            if k@ == "description"@ {
                assert(lookup(before, "description"@) == Some(v));
                assert(lookup(before, "commands"@) == lookup(entries@, "commands"@));
            } else if k@ == "commands"@ {
                assert(lookup(before, "commands"@) == Some(v));
                assert(lookup(before, "description"@) == lookup(entries@, "description"@));
            } else {
                assert(lookup(before, "description"@) == lookup(entries@, "description"@));
                assert(lookup(before, "commands"@) == lookup(entries@, "commands"@));
            }
        }
        if str_eq(k.as_str(), "description") {
            if desc_v.is_none() {
                desc_v = Some(v);
            }
        } else if str_eq(k.as_str(), "commands") {
            if cmds_v.is_none() {
                cmds_v = Some(v);
            }
        }
    }
    let ghost gdesc = desc_v;
    let ghost gcmds = cmds_v;
    let description = match desc_v {
        None => {
            return Err(ParseError::MissingDescription);
        },
        Some(DocValue::Text(s)) => s,
        Some(_) => {
            return Err(ParseError::DescriptionNotText);
        },
    };
    let items = match cmds_v {
        None => {
            return Err(ParseError::MissingCommands);
        },
        Some(DocValue::Arr(items)) => items,
        Some(_) => {
            return Err(ParseError::CommandsNotArray);
        },
    };
    let ghost items_seq = items@;
    proof {
        assert(gdoc is Obj);
        assert(description_field(gdoc) == Some(DocValue::Text(description)));
        assert(commands_field(gdoc) == gcmds);
        assert(gcmds->Some_0 is Arr && gcmds->Some_0->Arr_0@ == items_seq);
    }
    let mut items = items;
    let mut commands: Vec<DocValue> = Vec::new();
    while items.len() > 0
        invariant
            gdoc is Obj,
            description_field(gdoc) == Some(DocValue::Text(description)),
            commands_field(gdoc) == gcmds,
            gcmds is Some,
            gcmds->Some_0 is Arr,
            gcmds->Some_0->Arr_0@ == items_seq,
            items_seq =~= commands@ + items@,
            all_objects(commands@),
        decreases items@.len(),
    {
        let ghost before = items@;
        let ghost done = commands@;
        let item = items.remove(0);
        proof {
            assert(items@ =~= before.skip(1));
            assert(item == items_seq[done.len() as int]);
        }
        match item {
            DocValue::Obj(fields) => {
                commands.push(DocValue::Obj(fields));
                proof {
                    assert(items_seq =~= commands@ + items@);
                }
            },
            _ => {
                proof {
                    assert(!(items_seq[done.len() as int] is Obj));
                    assert(!all_objects(items_seq));
                }
                return Err(ParseError::CommandNotObject);
            },
        }
    }
    proof {
        assert(commands@ =~= items_seq);
    }
    Ok(MigrationContent { description, commands })
}

} // verus!
