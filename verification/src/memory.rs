//! Reading the server's memory document: its content and its active profile.
use vstd::prelude::*;

use crate::protocol::{json_fields_view, JsonValue, JsonView};
use crate::text::{chars_eq, chars_of};

verus! {

/// The value of the field `key` of a JSON object: its last entry with that
/// key (a later duplicate overrides an earlier one). Anything but an object
/// has no fields.
pub open spec fn field_of(v: JsonView, key: Seq<char>) -> Option<JsonView> {
    match v {
        JsonView::Object(fields) => last_field(fields, key),
        _ => None,
    }
}

pub open spec fn last_field(fields: Seq<(Seq<char>, JsonView)>, key: Seq<char>) -> Option<JsonView>
    decreases fields.len(),
{
    if fields.len() == 0 {
        None
    } else if fields.last().0 == key {
        Some(fields.last().1)
    } else {
        last_field(fields.drop_last(), key)
    }
}

/// The view of a field list has one entry per field, each the field's key and
/// the view of its value.
proof fn lemma_fields_view_index(s: Seq<(String, JsonValue)>, i: int)
    requires
        0 <= i < s.len(),
    ensures
        json_fields_view(s).len() == s.len(),
        json_fields_view(s)[i] == (s[i].0@, s[i].1@),
    decreases s.len(),
{
    lemma_fields_view_len(s);
    if i < s.len() - 1 {
        lemma_fields_view_index(s.drop_last(), i);
    }
}

proof fn lemma_fields_view_len(s: Seq<(String, JsonValue)>)
    ensures
        json_fields_view(s).len() == s.len(),
    decreases s.len(),
{
    if s.len() > 0 {
        lemma_fields_view_len(s.drop_last());
    }
}

/// The text of the field `key`, when it is a JSON string.
pub open spec fn str_field(v: JsonView, key: Seq<char>) -> Option<Seq<char>> {
    match field_of(v, key) {
        Some(JsonView::Str(s)) => Some(s),
        _ => None,
    }
}

/// The text of the field `key` of `v`, when it is a string.
pub fn str_field_of(v: &JsonValue, key: &str) -> (r: Option<String>)
    ensures
        match r {
            Some(s) => str_field(v@, key@) == Some(s@),
            None => str_field(v@, key@) is None,
        },
{
    match v {
        JsonValue::Object(fields) => {
            let want = chars_of(key);
            let ghost fv = json_fields_view(fields@);
            proof {
                lemma_fields_view_len(fields@);
                assert(fv.take(fields.len() as int) =~= fv);
                assert(v@ == JsonView::Object(fv));
            }
            let mut i = fields.len();
            while i > 0
                invariant
                    i <= fields.len(),
                    want@ == key@,
                    v@ == JsonView::Object(fv),
                    fv == json_fields_view(fields@),
                    fv.len() == fields@.len(),
                    last_field(fv, key@) == last_field(fv.take(i as int), key@),
                decreases i,
            {
                let k = chars_of(fields[i - 1].0.as_str());
                proof {
                    assert(fv.take(i as int).drop_last() =~= fv.take(i - 1));
                    lemma_fields_view_index(fields@, i - 1);
                }
                if chars_eq(&k, &want) {
                    assert(last_field(fv.take(i as int), key@) == Some(fields@[i - 1].1@));
                    return match &fields[i - 1].1 {
                        JsonValue::String(s) => Some(crate::text::string_of(&chars_of(s.as_str()))),
                        _ => None,
                    };
                }
                i = i - 1;
            }
            assert(fv.take(0) =~= Seq::<(Seq<char>, JsonView)>::empty());
            None
        },
        _ => None,
    }
}

/// The memory document's content: its `content` string, or nothing.
pub fn memory_content(body: &JsonValue) -> (s: String)
    ensures
        s@ == match str_field(body@, "content"@) {
            Some(c) => c,
            None => Seq::<char>::empty(),
        },
{
    match str_field_of(body, "content") {
        Some(c) => c,
        None => String::new(),
    }
}

/// The active memory profile: its `profile` string, or `default`.
pub fn active_profile(body: &JsonValue) -> (s: String)
    ensures
        s@ == match str_field(body@, "profile"@) {
            Some(p) => p,
            None => "default"@,
        },
{
    match str_field_of(body, "profile") {
        Some(p) => p,
        None => "default".to_string(),
    }
}

} // verus!
