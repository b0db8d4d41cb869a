use mydone::lists::{lists_from_records, new_list_record, List, QueryableList};

fn row(id: &str, name: &str, count: i32, icon: Option<&str>) -> QueryableList {
    QueryableList {
        id_list: id.to_string(),
        display_name: name.to_string(),
        is_owner: true,
        count,
        icon_name: icon.map(|i| i.to_string()),
    }
}

fn is_random_uuid(id: &str) -> bool {
    let b = id.as_bytes();
    b.len() == 36
        && b.iter().enumerate().all(|(i, c)| {
            if [8, 13, 18, 23].contains(&i) {
                *c == b'-'
            } else {
                c.is_ascii_digit() || (b'a'..=b'f').contains(c)
            }
        })
        && b[14] == b'4'
        && [b'8', b'9', b'a', b'b'].contains(&b[19])
}

#[test]
fn new_list_record_for_user_list() {
    let r = new_list_record("Groceries");
    assert_eq!(r.display_name, "Groceries");
    assert!(r.is_owner);
    assert_eq!(r.count, 0);
    assert_eq!(r.icon_name, Some("view-list-symbolic".to_string()));
    assert!(is_random_uuid(&r.id_list));
}

#[test]
fn new_lists_get_distinct_ids() {
    let a = new_list_record("A");
    let b = new_list_record("A");
    assert_ne!(a.id_list, b.id_list);
}

#[test]
fn with_id_keeps_given_id() {
    let r = QueryableList::with_id("abc".to_string(), "Work", "briefcase");
    assert_eq!(r, row("abc", "Work", 0, Some("briefcase")));
}

#[test]
fn record_round_trip() {
    let r = row("id-1", "Home", 3, None);
    let l = List::from_record(&r);
    assert_eq!(l.id_list, "id-1");
    assert_eq!(l.display_name, "Home");
    assert_eq!(l.count, 3);
    assert_eq!(l.icon_name, None);
    assert_eq!(QueryableList::from_list(&l), r);
}

#[test]
fn lists_from_records_keeps_order() {
    let rows = vec![row("1", "One", 1, Some("a")), row("2", "Two", 2, None)];
    let lists = lists_from_records(&rows);
    assert_eq!(lists.len(), 2);
    assert_eq!(lists[0].display_name, "One");
    assert_eq!(lists[0].icon_name, Some("a".to_string()));
    assert_eq!(lists[1].id_list, "2");
    assert_eq!(lists[1].count, 2);
    assert!(lists_from_records(&Vec::new()).is_empty());
}
