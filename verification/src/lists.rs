//! Task lists as the local database stores them, and as the interface
//! holds them.
use crate::text::copy_text;
use vstd::prelude::*;

verus! {

/// A row of the local database's `lists` table.
#[derive(Debug, PartialEq, Eq)]
pub struct QueryableList {
    pub id_list: String,
    pub display_name: String,
    pub is_owner: bool,
    pub count: i32,
    pub icon_name: Option<String>,
}

/// A task list as the interface holds it.
#[derive(Debug, PartialEq, Eq)]
pub struct List {
    pub id_list: String,
    pub display_name: String,
    pub is_owner: bool,
    pub count: i32,
    pub icon_name: Option<String>,
}

/// The database row that stores a list.
pub open spec fn record_of(l: List) -> QueryableList {
    QueryableList {
        id_list: l.id_list,
        display_name: l.display_name,
        is_owner: l.is_owner,
        count: l.count,
        icon_name: l.icon_name,
    }
}

/// The list that a database row stores.
pub open spec fn list_of(r: QueryableList) -> List {
    List {
        id_list: r.id_list,
        display_name: r.display_name,
        is_owner: r.is_owner,
        count: r.count,
        icon_name: r.icon_name,
    }
}

/// The icon of a list that the user creates.
pub open spec fn new_list_icon() -> Seq<char> {
    "view-list-symbolic"@
}

/// Whether `c` is a digit of lower-case hexadecimal.
pub open spec fn is_lower_hex(c: char) -> bool {
    ('0' <= c && c <= '9') || ('a' <= c && c <= 'f')
}

/// Whether `id` has the shape of a random (version 4) UUID in hyphenated
/// lower-case form, such as `67e55044-10b1-426f-9247-bb680e5fe0c8`.
pub open spec fn is_random_uuid_text(id: Seq<char>) -> bool {
    &&& id.len() == 36
    &&& forall|i: int|
        0 <= i < 36 ==> if i == 8 || i == 13 || i == 18 || i == 23 {
            #[trigger] id[i] == '-'
        } else {
            is_lower_hex(id[i])
        }
    &&& id[14] == '4'
    &&& (id[19] == '8' || id[19] == '9' || id[19] == 'a' || id[19] == 'b')
}

/// A fresh identifier from uuid's `Uuid::new_v4`, rendered by its
/// `Display` impl. Claimed: the text is a hyphenated lower-case version 4
/// UUID; which one is left to chance. It panics, as `new_v4` does, only
/// where the system gives no random bytes.
#[verifier::external_body]
fn fresh_list_id() -> (id: String)
    ensures
        is_random_uuid_text(id@),
{
    uuid::Uuid::new_v4().to_string()
}

impl QueryableList {
    /// A row for a new list that the user owns and that holds no task yet,
    /// under a fresh random identifier.
    pub fn new(display_name: &str, icon_name: &str) -> (r: QueryableList)
        ensures
            is_random_uuid_text(r.id_list@),
            r.display_name@ == display_name@,
            r.is_owner,
            r.count == 0,
            r.icon_name matches Some(icon) && icon@ == icon_name@,
    {
        QueryableList::with_id(fresh_list_id(), display_name, icon_name)
    }

    /// A row for a new list that the user owns and that holds no task yet,
    /// under the identifier `id_list`.
    pub fn with_id(id_list: String, display_name: &str, icon_name: &str) -> (r: QueryableList)
        ensures
            r.id_list == id_list,
            r.display_name@ == display_name@,
            r.is_owner,
            r.count == 0,
            r.icon_name matches Some(icon) && icon@ == icon_name@,
    {
        QueryableList {
            id_list,
            display_name: display_name.to_string(),
            is_owner: true,
            count: 0,
            icon_name: Some(icon_name.to_string()),
        }
    }

    /// The row that stores a list.
    pub fn from_list(list: &List) -> (r: QueryableList)
        ensures
            r == record_of(*list),
            r.id_list == list.id_list,
            r.display_name == list.display_name,
            r.is_owner == list.is_owner,
            r.count == list.count,
            r.icon_name == list.icon_name,
    {
        QueryableList {
            id_list: list.id_list.clone(),
            display_name: list.display_name.clone(),
            is_owner: list.is_owner,
            count: list.count,
            icon_name: copy_text(&list.icon_name),
        }
    }
}

impl List {
    /// The list that a row stores.
    pub fn from_record(record: &QueryableList) -> (l: List)
        ensures
            l == list_of(*record),
            l.id_list == record.id_list,
            l.display_name == record.display_name,
            l.is_owner == record.is_owner,
            l.count == record.count,
            l.icon_name == record.icon_name,
    {
        List {
            id_list: record.id_list.clone(),
            display_name: record.display_name.clone(),
            is_owner: record.is_owner,
            count: record.count,
            icon_name: copy_text(&record.icon_name),
        }
    }
}

/// The row of a list that the user creates with the name `name`.
pub fn new_list_record(name: &str) -> (r: QueryableList)
    ensures
        is_random_uuid_text(r.id_list@),
        r.display_name@ == name@,
        r.is_owner,
        r.count == 0,
        r.icon_name matches Some(icon) && icon@ == new_list_icon(),
{
    QueryableList::new(name, "view-list-symbolic")
}

/// The lists that the rows store, in the order of the rows.
pub fn lists_from_records(records: &Vec<QueryableList>) -> (lists: Vec<List>)
    ensures
        lists@.len() == records@.len(),
        forall|i: int| 0 <= i < records@.len() ==> #[trigger] lists@[i] == list_of(records@[i]),
{
    let mut lists: Vec<List> = Vec::new();
    let mut i: usize = 0;
    while i < records.len()
        invariant
            i <= records@.len(),
            lists@.len() == i,
            forall|j: int| 0 <= j < i ==> #[trigger] lists@[j] == list_of(records@[j]),
        decreases records@.len() - i,
    {
        lists.push(List::from_record(&records[i]));
        i = i + 1;
    }
    lists
}

/// Storing a list and reading it back gives the same list, and the other
/// way round.
pub proof fn lemma_record_round_trip(l: List, r: QueryableList)
    ensures
        list_of(record_of(l)) == l,
        record_of(list_of(r)) == r,
{
}

/// Storing a list keeps every field, and so does loading a row: the
/// identifier, name, ownership, task count and icon come through unchanged.
pub proof fn lemma_conversions_keep_every_field(l: List, r: QueryableList)
    ensures
        record_of(l).id_list == l.id_list,
        record_of(l).display_name == l.display_name,
        record_of(l).is_owner == l.is_owner,
        record_of(l).count == l.count,
        record_of(l).icon_name == l.icon_name,
        list_of(r).id_list == r.id_list,
        list_of(r).display_name == r.display_name,
        list_of(r).is_owner == r.is_owner,
        list_of(r).count == r.count,
        list_of(r).icon_name == r.icon_name,
{
}

/// Loading rows keeps, for every row and in order, its ownership and every
/// other field.
pub proof fn lemma_loaded_lists_keep_rows(records: Seq<QueryableList>, lists: Seq<List>)
    requires
        lists.len() == records.len(),
        forall|i: int| 0 <= i < records.len() ==> #[trigger] lists[i] == list_of(records[i]),
    ensures
        forall|i: int|
            0 <= i < records.len() ==> {
                &&& (#[trigger] lists[i]).is_owner == records[i].is_owner
                &&& lists[i].id_list == records[i].id_list
                &&& lists[i].display_name == records[i].display_name
                &&& lists[i].count == records[i].count
                &&& lists[i].icon_name == records[i].icon_name
            },
{
}

} // verus!
