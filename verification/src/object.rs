//! Flat JSON objects: text values by key.

use crate::json::{
    all_text, copy_object, get_text, insert_text, json_text, member_count, new_object,
    object_members, object_text, texts, Fields,
};
use vstd::prelude::*;

verus! {

/// A JSON object all of whose members are strings.
///
/// Its view is the map from each key to the text held under it.
#[derive(Debug, PartialEq, Eq)]
pub struct TextObject {
    object: serde_json::Map<String, serde_json::Value>,
}

impl View for TextObject {
    type V = Fields;

    closed spec fn view(&self) -> Fields {
        texts(object_members(self.object))
    }
}

impl TextObject {
    #[verifier::type_invariant]
    spec fn only_text(&self) -> bool {
        &&& all_text(object_members(self.object))
        &&& object_members(self.object).dom().finite()
    }

    /// The object without members.
    pub fn new() -> (empty: Self)
        ensures
            empty@ == Fields::empty(),
    {
        let object = new_object();
        assert(texts(object_members(object)) =~= Fields::empty());
        TextObject { object }
    }

    /// Sets the member `key` to `text`, replacing any text held there.
    pub fn insert(&mut self, key: String, text: String)
        ensures
            final(self)@ == old(self)@.insert(key@, text@),
    {
        proof {
            use_type_invariant(&*self);
        }
        let ghost before = object_members(self.object);
        insert_text(&mut self.object, key, text);
        assert(texts(before.insert(key@, Some(text@))) =~= texts(before).insert(key@, text@));
    }

    /// A copy of the text held under `key`, if any.
    pub fn get(&self, key: &str) -> (text: Option<String>)
        ensures
            text is Some <==> self@.contains_key(key@),
            text is Some ==> text->0@ == self@[key@],
    {
        proof {
            use_type_invariant(self);
        }
        get_text(&self.object, key)
    }

    /// The number of members.
    pub fn len(&self) -> (n: usize)
        ensures
            n == self@.len(),
            self@.dom().finite(),
    {
        proof {
            use_type_invariant(self);
            assert(self@.dom() =~= object_members(self.object).dom());
        }
        member_count(&self.object)
    }

    /// Whether the object has no member.
    pub fn is_empty(&self) -> (empty: bool)
        ensures
            empty <==> self@ == Fields::empty(),
    {
        let n = self.len();
        proof {
            if n == 0 {
                assert(self@.dom() =~= Set::empty());
                assert(self@ =~= Fields::empty());
            }
        }
        n == 0
    }

    /// The object as compact JSON text.
    pub fn to_json(&self) -> (text: String)
        ensures
            text@ == json_text(self@),
    {
        proof {
            use_type_invariant(self);
        }
        object_text(&self.object)
    }
}

impl Clone for TextObject {
    fn clone(&self) -> (copy: Self)
        ensures
            copy@ == self@,
    {
        proof {
            use_type_invariant(self);
        }
        TextObject { object: copy_object(&self.object) }
    }
}

} // verus!
