//! A model of JSON documents, and the reading of struct-shaped documents.
use crate::api::text::views;
use vstd::prelude::*;
use vstd::string::StringExecFns;

verus! {

/// A JSON document.
///
/// A number is kept as its literal text, so that every document can be
/// carried without loss.  The entries of an object keep their order.
#[derive(Debug, PartialEq, Eq)]
pub enum Json {
    Null,
    Bool(bool),
    Number(String),
    Str(String),
    Array(Vec<Json>),
    Object(Vec<(String, Json)>),
}

/// The mathematical value of a [`Json`] document.
pub enum JsonView {
    Null,
    Bool(bool),
    Number(Seq<char>),
    Str(Seq<char>),
    Array(Seq<JsonView>),
    Object(Seq<EntryView>),
}

/// The mathematical value of one entry of an object.
pub struct EntryView {
    pub key: Seq<char>,
    pub value: JsonView,
}

impl View for Json {
    type V = JsonView;

    open spec fn view(&self) -> JsonView
        decreases self,
    {
        match self {
            Json::Null => JsonView::Null,
            Json::Bool(b) => JsonView::Bool(*b),
            Json::Number(text) => JsonView::Number(text@),
            Json::Str(text) => JsonView::Str(text@),
            Json::Array(items) => JsonView::Array(
                Seq::new(
                    items@.len(),
                    |i: int|
                        if 0 <= i < items@.len() {
                            items@[i]@
                        } else {
                            JsonView::Null
                        },
                ),
            ),
            Json::Object(entries) => JsonView::Object(
                Seq::new(
                    entries@.len(),
                    |i: int|
                        if 0 <= i < entries@.len() {
                            EntryView { key: entries@[i].0@, value: entries@[i].1@ }
                        } else {
                            EntryView { key: Seq::empty(), value: JsonView::Null }
                        },
                ),
            ),
        }
    }
}

/// What a struct-shaped document holds for one field of the struct.
#[derive(Debug, PartialEq, Eq)]
pub enum Field<T> {
    /// The document holds this value for the field.
    Present(T),
    /// The document is an object without an entry for the field.
    Absent,
    /// The document is not struct-shaped: it is neither an object nor an
    /// array, it is an array of another length than the struct has fields,
    /// or it is an object that names the field more than once.
    Malformed,
}

impl<T: View> View for Field<T> {
    type V = Field<T::V>;

    open spec fn view(&self) -> Field<T::V> {
        match self {
            Field::Present(value) => Field::Present(value@),
            Field::Absent => Field::Absent,
            Field::Malformed => Field::Malformed,
        }
    }
}

/// The values of the entries of an object, entry by entry.
pub open spec fn entries_view(entries: Seq<(String, Json)>) -> Seq<EntryView> {
    Seq::new(entries.len(), |i: int| EntryView { key: entries[i].0@, value: entries[i].1@ })
}

/// The values of the items of an array, item by item.
pub open spec fn items_view(items: Seq<Json>) -> Seq<JsonView> {
    Seq::new(items.len(), |i: int| items[i]@)
}

/// Whether entry `i` of `entries` exists and has the key `key`.
pub open spec fn key_at(entries: Seq<EntryView>, key: Seq<char>, i: int) -> bool {
    0 <= i < entries.len() && entries[i].key == key
}

/// Whether entry `i` of `entries` has the key `key` and no other entry has
/// it.
pub open spec fn only_at(entries: Seq<EntryView>, key: Seq<char>, i: int) -> bool {
    &&& key_at(entries, key, i)
    &&& forall|j: int| key_at(entries, key, j) ==> j == i
}

impl JsonView {
    /// What the entries of an object hold under `key`: the value of the only
    /// entry with that key, nothing where no entry has it, and a malformed
    /// field where several entries have it.
    pub open spec fn member(entries: Seq<EntryView>, key: Seq<char>) -> Field<JsonView> {
        if forall|i: int| !key_at(entries, key, i) {
            Field::Absent
        } else if forall|i: int, j: int|
            key_at(entries, key, i) && key_at(entries, key, j) ==> i == j {
            Field::Present(entries[choose|i: int| key_at(entries, key, i)].value)
        } else {
            Field::Malformed
        }
    }

    /// What this document holds for the field at position `index`, named
    /// `name`, of a struct with `arity` fields.
    ///
    /// An object gives its fields by name, and may hold other entries
    /// besides.  An array gives them by position, and must hold exactly
    /// `arity` items.  Nothing else is struct-shaped.
    pub open spec fn field(self, index: int, name: Seq<char>, arity: int) -> Field<JsonView> {
        match self {
            JsonView::Object(entries) => JsonView::member(entries, name),
            JsonView::Array(items) => if items.len() == arity && 0 <= index < arity {
                Field::Present(items[index])
            } else {
                Field::Malformed
            },
            _ => Field::Malformed,
        }
    }

    /// The truth value of a boolean document.
    pub open spec fn as_bool(self) -> Option<bool> {
        match self {
            JsonView::Bool(b) => Some(b),
            _ => None,
        }
    }

    /// The text of a string document.
    pub open spec fn as_text(self) -> Option<Seq<char>> {
        match self {
            JsonView::Str(text) => Some(text),
            _ => None,
        }
    }

    /// The texts of an array whose items are all strings.
    pub open spec fn as_texts(self) -> Option<Seq<Seq<char>>> {
        match self {
            JsonView::Array(items) => if forall|i: int|
                0 <= i < items.len() ==> (#[trigger] items[i]) is Str {
                Some(Seq::new(items.len(), |i: int| items[i]->Str_0))
            } else {
                None
            },
            _ => None,
        }
    }

    /// The truth value that this document holds for a required boolean
    /// field.
    pub open spec fn bool_field(self, index: int, name: Seq<char>, arity: int) -> Option<bool> {
        match self.field(index, name, arity) {
            Field::Present(value) => value.as_bool(),
            _ => None,
        }
    }

    /// The text that this document holds for a required string field.
    pub open spec fn text_field(self, index: int, name: Seq<char>, arity: int) -> Option<
        Seq<char>,
    > {
        match self.field(index, name, arity) {
            Field::Present(value) => value.as_text(),
            _ => None,
        }
    }

    /// The texts that this document holds for a required field that is a
    /// list of strings.
    pub open spec fn texts_field(self, index: int, name: Seq<char>, arity: int) -> Option<
        Seq<Seq<char>>,
    > {
        match self.field(index, name, arity) {
            Field::Present(value) => value.as_texts(),
            _ => None,
        }
    }

    /// The texts that this document holds for an optional field that is a
    /// list of strings: `Some(None)` where the field is left out or null,
    /// `None` where the document does not fit.
    pub open spec fn optional_texts_field(self, index: int, name: Seq<char>, arity: int) -> Option<
        Option<Seq<Seq<char>>>,
    > {
        match self.field(index, name, arity) {
            Field::Present(JsonView::Null) => Some(None),
            Field::Present(value) => match value.as_texts() {
                Some(texts) => Some(Some(texts)),
                None => None,
            },
            Field::Absent => Some(None),
            Field::Malformed => None,
        }
    }

    /// The array of the strings `texts`.
    pub open spec fn of_texts(texts: Seq<Seq<char>>) -> JsonView {
        JsonView::Array(Seq::new(texts.len(), |i: int| JsonView::Str(texts[i])))
    }
}

/// An array document is valued item by item.
pub proof fn lemma_array_view(items: Vec<Json>)
    ensures
        Json::Array(items)@ == JsonView::Array(items_view(items@)),
{
    assert(Json::Array(items)@->Array_0 =~= items_view(items@));
}

/// An object document is valued entry by entry.
pub proof fn lemma_object_view(entries: Vec<(String, Json)>)
    ensures
        Json::Object(entries)@ == JsonView::Object(entries_view(entries@)),
{
    assert(Json::Object(entries)@->Object_0 =~= entries_view(entries@));
}

/// The only entry with a given key is the member under that key.
pub proof fn lemma_member_of_only_entry(entries: Seq<EntryView>, key: Seq<char>, i: int)
    requires
        only_at(entries, key, i),
    ensures
        JsonView::member(entries, key) == Field::Present(entries[i].value),
{
    let chosen = choose|j: int| key_at(entries, key, j);
    assert(key_at(entries, key, chosen));
}

/// Looks `key` up among the entries of an object.
fn member<'a>(entries: &'a Vec<(String, Json)>, key: &str) -> (out: Field<&'a Json>)
    ensures
        out@ == JsonView::member(entries_view(entries@), key@),
{
    let target = String::from_str(key);
    let ghost model = entries_view(entries@);
    let mut found: Option<usize> = None;
    let mut repeated = false;
    let mut i: usize = 0;
    while i < entries.len()
        invariant
            i <= entries.len(),
            target@ == key@,
            model == entries_view(entries@),
            found matches Some(k) ==> k < i && key_at(model, key@, k as int),
            found is None ==> forall|j: int| 0 <= j < i ==> !key_at(model, key@, j),
            found is None ==> !repeated,
            repeated ==> exists|j: int, k: int|
                j != k && key_at(model, key@, j) && key_at(model, key@, k),
            !repeated ==> forall|j: int, k: int|
                0 <= j < i && 0 <= k < i && key_at(model, key@, j) && key_at(model, key@, k)
                    ==> j == k,
        decreases entries.len() - i,
    {
        if entries[i].0 == target {
            assert(key_at(model, key@, i as int));
            if found.is_some() {
                repeated = true;
            } else {
                found = Some(i);
            }
        }
        i += 1;
    }
    match found {
        None => Field::Absent,
        Some(k) => {
            if repeated {
                Field::Malformed
            } else {
                proof {
                    let chosen = choose|j: int| key_at(model, key@, j);
                    assert(key_at(model, key@, k as int));
                    assert(chosen == k);
                }
                Field::Present(&entries[k].1)
            }
        },
    }
}

impl Json {
    /// What this document holds for the field at position `index`, named
    /// `name`, of a struct with `arity` fields.
    pub fn field<'a>(&'a self, index: usize, name: &str, arity: usize) -> (out: Field<&'a Json>)
        ensures
            out@ == self@.field(index as int, name@, arity as int),
    {
        match self {
            Json::Object(entries) => {
                proof {
                    lemma_object_view(*entries);
                }
                member(entries, name)
            },
            Json::Array(items) => {
                proof {
                    lemma_array_view(*items);
                }
                if items.len() == arity && index < arity {
                    Field::Present(&items[index])
                } else {
                    Field::Malformed
                }
            },
            _ => Field::Malformed,
        }
    }

    /// The truth value of a boolean document.
    pub fn as_bool(&self) -> (out: Option<bool>)
        ensures
            out == self@.as_bool(),
    {
        match self {
            Json::Bool(b) => Some(*b),
            _ => None,
        }
    }

    /// The text of a string document.
    pub fn as_text(&self) -> (out: Option<String>)
        ensures
            out is Some <==> self@.as_text() is Some,
            out matches Some(text) ==> self@.as_text() == Some(text@),
    {
        match self {
            Json::Str(text) => Some(text.clone()),
            _ => None,
        }
    }

    /// The texts of an array whose items are all strings.
    pub fn as_texts(&self) -> (out: Option<Vec<String>>)
        ensures
            out is Some <==> self@.as_texts() is Some,
            out matches Some(texts) ==> self@.as_texts() == Some(views(texts@)),
    {
        match self {
            Json::Array(items) => {
                proof {
                    lemma_array_view(*items);
                }
                let ghost model = items_view(items@);
                let mut texts: Vec<String> = Vec::new();
                let mut i: usize = 0;
                while i < items.len()
                    invariant
                        i <= items.len(),
                        model == items_view(items@),
                        self@ == JsonView::Array(model),
                        texts@.len() == i,
                        forall|j: int| 0 <= j < i ==> (#[trigger] model[j]) is Str,
                        forall|j: int| 0 <= j < i ==> (#[trigger] texts@[j])@ == model[j]->Str_0,
                    decreases items.len() - i,
                {
                    match &items[i] {
                        Json::Str(text) => {
                            texts.push(text.clone());
                        },
                        _ => {
                            assert(!(model[i as int] is Str));
                            return None;
                        },
                    }
                    i += 1;
                }
                proof {
                    assert(self@.as_texts()->Some_0 =~= views(texts@));
                }
                Some(texts)
            },
            _ => None,
        }
    }

    /// The truth value that this document holds for a required boolean
    /// field.
    pub fn bool_field(&self, index: usize, name: &str, arity: usize) -> (out: Option<bool>)
        ensures
            out == self@.bool_field(index as int, name@, arity as int),
    {
        match self.field(index, name, arity) {
            Field::Present(value) => value.as_bool(),
            _ => None,
        }
    }

    /// The text that this document holds for a required string field.
    pub fn text_field(&self, index: usize, name: &str, arity: usize) -> (out: Option<String>)
        ensures
            out is Some <==> self@.text_field(index as int, name@, arity as int) is Some,
            out matches Some(text) ==> self@.text_field(index as int, name@, arity as int) == Some(
                text@,
            ),
    {
        match self.field(index, name, arity) {
            Field::Present(value) => value.as_text(),
            _ => None,
        }
    }

    /// The texts that this document holds for a required field that is a
    /// list of strings.
    pub fn texts_field(&self, index: usize, name: &str, arity: usize) -> (out: Option<Vec<String>>)
        ensures
            out is Some <==> self@.texts_field(index as int, name@, arity as int) is Some,
            out matches Some(texts) ==> self@.texts_field(index as int, name@, arity as int)
                == Some(views(texts@)),
    {
        match self.field(index, name, arity) {
            Field::Present(value) => value.as_texts(),
            _ => None,
        }
    }

    /// The texts that this document holds for an optional field that is a
    /// list of strings.
    pub fn optional_texts_field(&self, index: usize, name: &str, arity: usize) -> (out: Option<
        Option<Vec<String>>,
    >)
        ensures
            out is Some <==> self@.optional_texts_field(index as int, name@, arity as int) is Some,
            out matches Some(None) ==> self@.optional_texts_field(index as int, name@, arity as int)
                == Some(None::<Seq<Seq<char>>>),
            out matches Some(Some(texts)) ==> self@.optional_texts_field(
                index as int,
                name@,
                arity as int,
            ) == Some(Some(views(texts@))),
    {
        match self.field(index, name, arity) {
            Field::Present(value) => match value {
                Json::Null => Some(None),
                _ => match value.as_texts() {
                    Some(texts) => Some(Some(texts)),
                    None => None,
                },
            },
            Field::Absent => Some(None),
            Field::Malformed => None,
        }
    }

    /// The string document with the text `text`.
    pub fn text(text: &str) -> (out: Json)
        ensures
            out@ == JsonView::Str(text@),
    {
        Json::Str(String::from_str(text))
    }

    /// The array of the strings `texts`.
    pub fn texts(texts: &Vec<String>) -> (out: Json)
        ensures
            out@ == JsonView::of_texts(views(texts@)),
    {
        let mut items: Vec<Json> = Vec::new();
        let mut i: usize = 0;
        while i < texts.len()
            invariant
                i <= texts.len(),
                items@.len() == i,
                forall|j: int| 0 <= j < i ==> (#[trigger] items@[j])@ == JsonView::Str(texts@[j]@),
            decreases texts.len() - i,
        {
            items.push(Json::Str(texts[i].clone()));
            i += 1;
        }
        proof {
            lemma_array_view(items);
            assert(items_view(items@) =~= JsonView::of_texts(views(texts@))->Array_0);
        }
        Json::Array(items)
    }

    /// The object with the entries `entries`, in their order.
    pub fn object(entries: Vec<(String, Json)>) -> (out: Json)
        ensures
            out@ == JsonView::Object(entries_view(entries@)),
    {
        proof {
            lemma_object_view(entries);
        }
        Json::Object(entries)
    }
}

} // verus!
