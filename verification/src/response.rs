//! Finding the generated text in the reply of a generative-language service.
//!
//! The reply is a JSON value; the text stands at
//! `candidates[0].content.parts[0].text`.

use crate::strings::str_eq;
use vstd::prelude::*;
use vstd::string::StringExecFns;

verus! {

/// A JSON value. A number is kept as it is written; the members of an object
/// stand in their order.
#[derive(Debug)]
pub enum Json {
    Null,
    Bool(bool),
    Number(String),
    Text(String),
    List(Vec<Json>),
    Object(Vec<(String, Json)>),
}

/// The reply holds no text at the place where it is looked for.
#[derive(Debug)]
pub enum ContentError {
    NotFound,
}

/// The value of the first member named `key` among `members`.
pub open spec fn first_named(members: Seq<(String, Json)>, key: Seq<char>) -> Option<Json>
    decreases members.len(),
{
    if members.len() == 0 {
        None
    } else if members[0].0@ == key {
        Some(members[0].1)
    } else {
        first_named(members.drop_first(), key)
    }
}

/// The member `key` of an object; `None` for a value that is no object or
/// has no such member.
pub open spec fn member_of(value: Json, key: Seq<char>) -> Option<Json> {
    match value {
        Json::Object(members) => first_named(members@, key),
        _ => None,
    }
}

/// The item at `index` of a list; `None` for a value that is no list or is
/// too short.
pub open spec fn item_of(value: Json, index: int) -> Option<Json> {
    match value {
        Json::List(items) => if 0 <= index < items@.len() {
            Some(items@[index])
        } else {
            None
        },
        _ => None,
    }
}

/// `member_of` on a value that may be absent.
pub open spec fn then_member(value: Option<Json>, key: Seq<char>) -> Option<Json> {
    match value {
        Some(inner) => member_of(inner, key),
        None => None,
    }
}

/// `item_of` on a value that may be absent.
pub open spec fn then_item(value: Option<Json>, index: int) -> Option<Json> {
    match value {
        Some(inner) => item_of(inner, index),
        None => None,
    }
}

/// The value at `candidates[0].content.parts[0].text` of a reply.
pub open spec fn reply_part(reply: Json) -> Option<Json> {
    then_member(
        then_item(
            then_member(
                then_member(then_item(member_of(reply, "candidates"@), 0), "content"@),
                "parts"@,
            ),
            0,
        ),
        "text"@,
    )
}

/// The value behind a reference that may be absent.
pub open spec fn pointed(found: Option<&Json>) -> Option<Json> {
    match found {
        Some(value) => Some(*value),
        None => None,
    }
}

/// The member `key` of `value`.
pub fn member<'a>(value: &'a Json, key: &str) -> (found: Option<&'a Json>)
    ensures
        pointed(found) == member_of(*value, key@),
{
    match value {
        Json::Object(members) => {
            let mut i: usize = 0;
            proof {
                assert(members@.subrange(0, members@.len() as int) =~= members@);
            }
            while i < members.len()
                invariant
                    i <= members.len(),
                    member_of(*value, key@) == first_named(members@, key@),
                    first_named(members@, key@) == first_named(
                        members@.subrange(i as int, members@.len() as int),
                        key@,
                    ),
                decreases members.len() - i,
            {
                let ghost rest = members@.subrange(i as int, members@.len() as int);
                proof {
                    assert(rest.len() > 0 && rest[0] == members@[i as int]);
                }
                let entry = &members[i];
                if str_eq(entry.0.as_str(), key) {
                    proof {
                        assert(first_named(rest, key@) == Some(rest[0].1));
                    }
                    return Some(&entry.1);
                }
                proof {
                    assert(rest.drop_first() =~= members@.subrange(
                        i + 1,
                        members@.len() as int,
                    ));
                }
                i += 1;
            }
            None
        },
        _ => None,
    }
}

/// The item at `index` of `value`.
pub fn item<'a>(value: &'a Json, index: usize) -> (found: Option<&'a Json>)
    ensures
        pointed(found) == item_of(*value, index as int),
{
    match value {
        Json::List(items) => if index < items.len() {
            Some(&items[index])
        } else {
            None
        },
        _ => None,
    }
}

/// The value that stands where a reply's text belongs, if there is one.
pub fn find_part<'a>(reply: &'a Json) -> (found: Option<&'a Json>)
    ensures
        pointed(found) == reply_part(*reply),
{
    let candidates = match member(reply, "candidates") {
        Some(inner) => inner,
        None => return None,
    };
    let first = match item(candidates, 0) {
        Some(inner) => inner,
        None => return None,
    };
    let content = match member(first, "content") {
        Some(inner) => inner,
        None => return None,
    };
    let parts = match member(content, "parts") {
        Some(inner) => inner,
        None => return None,
    };
    let part = match item(parts, 0) {
        Some(inner) => inner,
        None => return None,
    };
    member(part, "text")
}

/// The generated text of a reply. Where the reply has a value at the place of
/// the text, that value must be a string.
pub fn get_content(v: &Json) -> (content: Result<String, ContentError>)
    requires
        reply_part(*v) is Some ==> reply_part(*v)->0 is Text,
    ensures
        match reply_part(*v) {
            Some(part) => content is Ok && content->Ok_0@ == part->Text_0@,
            None => content is Err,
        },
{
    match find_part(v) {
        Some(Json::Text(text)) => Ok(text.clone()),
        Some(_) => Err(ContentError::NotFound),
        None => Err(ContentError::NotFound),
    }
}

/// The address to which a request for `model` is sent with the key `key`.
pub open spec fn endpoint_of(model: Seq<char>, key: Seq<char>) -> Seq<char> {
    "https://generativelanguage.googleapis.com/v1beta/models/"@ + model
        + ":generateContent?key="@ + key
}

/// The address to which a request for `model` is sent with the key `key`.
pub fn endpoint(model: &str, key: &str) -> (url: String)
    ensures
        url@ == endpoint_of(model@, key@),
{
    let mut url = String::from_str("https://generativelanguage.googleapis.com/v1beta/models/");
    url.append(model);
    url.append(":generateContent?key=");
    url.append(key);
    url
}

} // verus!
