//! The query string of a lookup.
//!
//! The library decides which parameters a query holds and in what order; the
//! `yaup` crate writes them down.  What is handed to `yaup` never needs
//! escaping, so what it writes can be stated in full.
use crate::api::text::{is_plain, joined, views};
use vstd::prelude::*;

verus! {

/// One parameter of a query: its name and the values listed under it.
#[derive(Debug, PartialEq, Eq)]
pub struct QueryGroup {
    pub name: String,
    pub values: Vec<String>,
}

/// The mathematical value of a [`QueryGroup`].
pub struct QueryGroupView {
    pub name: Seq<char>,
    pub values: Seq<Seq<char>>,
}

impl View for QueryGroup {
    type V = QueryGroupView;

    open spec fn view(&self) -> QueryGroupView {
        QueryGroupView { name: self.name@, values: views(self.values@) }
    }
}

impl QueryGroupView {
    /// Whether the name and every value can stand in a query as they are.
    pub open spec fn is_plain(self) -> bool {
        &&& is_plain(self.name)
        &&& forall|j: int| 0 <= j < self.values.len() ==> is_plain(#[trigger] self.values[j])
    }

    /// The parameter as it stands in a query of plain text: the name, an
    /// equals sign, and the values with a comma between neighbours.
    pub open spec fn written(self) -> Seq<char> {
        self.name + "="@ + joined(self.values, ","@)
    }
}

/// The values of `groups`, group by group.
pub open spec fn groups_view(groups: Seq<QueryGroup>) -> Seq<QueryGroupView> {
    Seq::new(groups.len(), |i: int| groups[i]@)
}

/// The names of `groups`, in order.
pub open spec fn group_names(groups: Seq<QueryGroupView>) -> Seq<Seq<char>> {
    Seq::new(groups.len(), |i: int| groups[i].name)
}

/// Whether `groups` can be written without escaping and without merging:
/// every group is plain, and no two groups share a name.
pub open spec fn writable(groups: Seq<QueryGroupView>) -> bool {
    &&& forall|i: int| 0 <= i < groups.len() ==> (#[trigger] groups[i]).is_plain()
    &&& group_names(groups).no_duplicates()
}

/// The query string of plain groups: a question mark, and the parameters in
/// their order with an ampersand between neighbours.
pub open spec fn written_query(groups: Seq<QueryGroupView>) -> Seq<char> {
    "?"@ + joined(Seq::new(groups.len(), |i: int| groups[i].written()), "&"@)
}

/// `yaup::Error`, with which `yaup::to_string` reports what it refuses.
///
/// Trusted: the type is carried as it is; nothing is known of what a value
/// of it holds.
#[verifier::external_type_specification]
#[verifier::external_body]
pub struct ExYaupError(yaup::Error);

/// Calls `yaup::to_string` on a `serde_json::Map` that holds, in the order of
/// `groups`, each group's name with the array of its values.  The map keeps
/// the order in which it was filled, by `serde_json`'s feature
/// `preserve_order`.
///
/// Trusted: for groups that need no escaping and have distinct names, `yaup`
/// succeeds and writes a question mark, then each entry of the map in order
/// as its key, an equals sign and its values separated by commas, with an
/// ampersand between entries.
#[verifier::external_body]
pub(crate) fn yaup_to_string(groups: &Vec<QueryGroup>) -> (out: Result<String, yaup::Error>)
    requires
        writable(groups_view(groups@)),
    ensures
        out is Ok,
        out matches Ok(text) ==> text@ == written_query(groups_view(groups@)),
{
    let map: serde_json::Map<String, serde_json::Value> = groups.iter().map(
        |group| (group.name.clone(), serde_json::Value::from(group.values.clone())),
    ).collect();
    yaup::to_string(&map)
}

/// Calls `to_string` on a `yaup::Error`, which renders the error for people
/// to read.
///
/// Trusted: nothing is claimed of the text.
#[verifier::external_body]
pub(crate) fn yaup_error_text(error: &yaup::Error) -> (out: String) {
    error.to_string()
}

} // verus!
