//! The entries of the sidebar: the five smart lists and the user's own lists.
use crate::icon_names;
use crate::text::copy_text;
use vstd::prelude::*;

verus! {

/// A list of tasks that the user made.
#[derive(Debug, PartialEq, Eq)]
pub struct List {
    pub name: String,
    pub description: String,
    pub icon: Option<String>,
}

/// An entry of the sidebar.
#[derive(Debug, PartialEq, Eq)]
pub enum SidebarList {
    All,
    Today,
    Starred,
    Next7Days,
    Done,
    Custom(List),
}

impl Clone for List {
    fn clone(&self) -> (c: List)
        ensures
            c == *self,
    {
        List {
            name: self.name.clone(),
            description: self.description.clone(),
            icon: copy_text(&self.icon),
        }
    }
}

impl Clone for SidebarList {
    fn clone(&self) -> (c: SidebarList)
        ensures
            c == *self,
    {
        match self {
            SidebarList::All => SidebarList::All,
            SidebarList::Today => SidebarList::Today,
            SidebarList::Starred => SidebarList::Starred,
            SidebarList::Next7Days => SidebarList::Next7Days,
            SidebarList::Done => SidebarList::Done,
            SidebarList::Custom(list) => SidebarList::Custom(list.clone()),
        }
    }
}

/// Whether a list is empty in the sense of the default list: no name, no
/// description and no icon.
pub open spec fn is_blank_list(l: List) -> bool {
    l.name@ == Seq::<char>::empty() && l.description@ == Seq::<char>::empty() && l.icon is None
}

impl Default for List {
    fn default() -> (l: List)
        ensures
            is_blank_list(l),
    {
        List { name: String::new(), description: String::new(), icon: None }
    }
}

impl Default for SidebarList {
    fn default() -> (s: SidebarList)
        ensures
            s matches SidebarList::Custom(l) && is_blank_list(l),
    {
        SidebarList::Custom(List::default())
    }
}

/// The smart lists, in the order the sidebar shows them.
pub open spec fn smart_lists() -> Seq<SidebarList> {
    seq![
        SidebarList::All,
        SidebarList::Today,
        SidebarList::Starred,
        SidebarList::Next7Days,
        SidebarList::Done,
    ]
}

/// Whether an entry is a smart list, as opposed to one the user made.
pub open spec fn is_smart(s: SidebarList) -> bool {
    !(s is Custom)
}

/// The name of an entry.
pub open spec fn spec_name(s: SidebarList) -> Seq<char> {
    match s {
        SidebarList::All => "all"@,
        SidebarList::Today => "today"@,
        SidebarList::Starred => "starred"@,
        SidebarList::Next7Days => "next-7-days"@,
        SidebarList::Done => "completed-list"@,
        SidebarList::Custom(list) => list.name@,
    }
}

/// The description of an entry.
pub open spec fn spec_description(s: SidebarList) -> Seq<char> {
    match s {
        SidebarList::All => "all-desc"@,
        SidebarList::Today => "today-desc"@,
        SidebarList::Starred => "starred-desc"@,
        SidebarList::Next7Days => "next-7-days-desc"@,
        SidebarList::Done => "completed-list-desc"@,
        SidebarList::Custom(list) => list.description@,
    }
}

/// The icon name of an entry, if it has one.
pub open spec fn spec_icon(s: SidebarList) -> Option<Seq<char>> {
    match s {
        SidebarList::All => Some("clipboard"@),
        SidebarList::Today => Some("image-adjust-brightness"@),
        SidebarList::Starred => Some("star-filled-rounded"@),
        SidebarList::Next7Days => Some("work-week"@),
        SidebarList::Done => Some("check-round-outline"@),
        SidebarList::Custom(list) => match list.icon {
            Some(icon) => Some(icon@),
            None => None,
        },
    }
}

impl SidebarList {
    /// The smart lists, in the order the sidebar shows them: every entry
    /// but the user's own lists.
    pub fn list() -> (lists: Vec<SidebarList>)
        ensures
            lists@ == smart_lists(),
    {
        let mut lists: Vec<SidebarList> = Vec::new();
        lists.push(SidebarList::All);
        lists.push(SidebarList::Today);
        lists.push(SidebarList::Starred);
        lists.push(SidebarList::Next7Days);
        lists.push(SidebarList::Done);
        lists
    }

    /// The name of the entry: a fixed name for a smart list, and the list's
    /// own name otherwise.
    pub fn name(&self) -> (name: String)
        ensures
            name@ == spec_name(*self),
    {
        match self {
            SidebarList::All => "all".to_string(),
            SidebarList::Today => "today".to_string(),
            SidebarList::Starred => "starred".to_string(),
            SidebarList::Next7Days => "next-7-days".to_string(),
            SidebarList::Done => "completed-list".to_string(),
            SidebarList::Custom(list) => list.name.clone(),
        }
    }

    /// The description of the entry: a fixed text for a smart list, and the
    /// list's own description otherwise.
    pub fn description(&self) -> (description: String)
        ensures
            description@ == spec_description(*self),
    {
        match self {
            SidebarList::All => "all-desc".to_string(),
            SidebarList::Today => "today-desc".to_string(),
            SidebarList::Starred => "starred-desc".to_string(),
            SidebarList::Next7Days => "next-7-days-desc".to_string(),
            SidebarList::Done => "completed-list-desc".to_string(),
            SidebarList::Custom(list) => list.description.clone(),
        }
    }

    /// The icon name of the entry: a bundled icon for a smart list, and the
    /// list's own icon, if any, otherwise.
    pub fn icon(&self) -> (icon: Option<&str>)
        ensures
            match icon {
                Some(name) => spec_icon(*self) == Some(name@),
                None => spec_icon(*self) is None,
            },
    {
        match self {
            SidebarList::All => Some(icon_names::CLIPBOARD),
            SidebarList::Today => Some(icon_names::IMAGE_ADJUST_BRIGHTNESS),
            SidebarList::Starred => Some(icon_names::STAR_FILLED_ROUNDED),
            SidebarList::Next7Days => Some(icon_names::WORK_WEEK),
            SidebarList::Done => Some(icon_names::CHECK_ROUND_OUTLINE),
            SidebarList::Custom(list) => match &list.icon {
                Some(icon) => Some(icon.as_str()),
                None => None,
            },
        }
    }

    /// Whether the entry is a smart list.
    pub fn smart(&self) -> (smart: bool)
        ensures
            smart == is_smart(*self),
    {
        match self {
            SidebarList::Custom(_) => false,
            _ => true,
        }
    }
}

/// The sidebar's smart lists are five entries, every one of them a smart
/// list with an icon, and no two of them share a name.
pub proof fn lemma_smart_lists_are_distinct_and_smart()
    ensures
        smart_lists().len() == 5,
        forall|i: int|
            0 <= i < smart_lists().len() ==> is_smart(#[trigger] smart_lists()[i]) && spec_icon(
                smart_lists()[i],
            ) is Some,
        forall|i: int, j: int|
            0 <= i < j < smart_lists().len() ==> spec_name(#[trigger] smart_lists()[i]) != spec_name(
                #[trigger] smart_lists()[j],
            ),
{
    reveal_strlit("all");
    reveal_strlit("today");
    reveal_strlit("starred");
    reveal_strlit("next-7-days");
    reveal_strlit("completed-list");
    assert(spec_name(SidebarList::All).len() == 3);
    assert(spec_name(SidebarList::Today).len() == 5);
    assert(spec_name(SidebarList::Starred).len() == 7);
    assert(spec_name(SidebarList::Next7Days).len() == 11);
    assert(spec_name(SidebarList::Done).len() == 14);
    assert(spec_name(SidebarList::Today)[0] == 't');
    assert(spec_name(SidebarList::Starred)[0] == 's');
}

/// A list that the user made shows its own name, description and icon,
/// and is never a smart list.
pub proof fn lemma_custom_entry_shows_its_list(l: List)
    ensures
        !is_smart(SidebarList::Custom(l)),
        spec_name(SidebarList::Custom(l)) == l.name@,
        spec_description(SidebarList::Custom(l)) == l.description@,
        (spec_icon(SidebarList::Custom(l)) is Some) == (l.icon is Some),
{
}

} // verus!
