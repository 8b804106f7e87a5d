//! Moving a selection through a list of identifiers, as the widget trees and
//! the lists of the interface do.
use crate::text::chars_equal;
use crate::text::chars_of;
use crate::text::string_views;
use vstd::prelude::*;

verus! {

/// `i` is the first position of `x` in `s`.
pub open spec fn is_first_index(s: Seq<Seq<char>>, x: Seq<char>, i: int) -> bool {
    &&& 0 <= i < s.len()
    &&& s[i] == x
    &&& forall|j: int| 0 <= j < i ==> s[j] != x
}

/// The first position of `x` in `s`, if `x` occurs.
pub open spec fn index_of(s: Seq<Seq<char>>, x: Seq<char>) -> Option<int> {
    if exists|i: int| #[trigger] is_first_index(s, x, i) {
        Some(choose|i: int| #[trigger] is_first_index(s, x, i))
    } else {
        None
    }
}

/// The selection after moving down: the entry after the selected one, the
/// selected one when it is the last, or the first entry when nothing in the
/// list is selected.
pub open spec fn selection_after_next(s: Seq<Seq<char>>, selected: Option<Seq<char>>) -> Option<
    Seq<char>,
> {
    match selected {
        Some(x) => match index_of(s, x) {
            Some(i) => if i + 1 < s.len() {
                Some(s[i + 1])
            } else {
                Some(x)
            },
            None => if s.len() > 0 {
                Some(s[0])
            } else {
                None
            },
        },
        None => if s.len() > 0 {
            Some(s[0])
        } else {
            None
        },
    }
}

/// The selection after moving up: the entry before the selected one, the
/// selected one when it is the first, or the first entry when nothing in the
/// list is selected.
pub open spec fn selection_after_previous(s: Seq<Seq<char>>, selected: Option<Seq<char>>) -> Option<
    Seq<char>,
> {
    match selected {
        Some(x) => match index_of(s, x) {
            Some(i) => if i > 0 {
                Some(s[i - 1])
            } else {
                Some(x)
            },
            None => if s.len() > 0 {
                Some(s[0])
            } else {
                None
            },
        },
        None => if s.len() > 0 {
            Some(s[0])
        } else {
            None
        },
    }
}

pub proof fn lemma_first_index_unique(s: Seq<Seq<char>>, x: Seq<char>, i: int, j: int)
    requires
        is_first_index(s, x, i),
        is_first_index(s, x, j),
    ensures
        i == j,
{
}

/// The position of `id` in `ids`.
pub fn position_of(ids: &Vec<String>, id: &String) -> (r: Option<usize>)
    ensures
        match r {
            Some(i) => i < ids.len() && index_of(string_views(ids@), id@) == Some(i as int),
            None => index_of(string_views(ids@), id@) is None,
        },
{
    let ghost s = string_views(ids@);
    let target = chars_of(id.as_str());
    let mut i: usize = 0;
    while i < ids.len()
        invariant
            s == string_views(ids@),
            target@ == id@,
            i <= ids.len(),
            forall|j: int| 0 <= j < i ==> s[j] != id@,
        decreases ids.len() - i,
    {
        let candidate = chars_of(ids[i].as_str());
        if chars_equal(&candidate, &target) {
            proof {
                assert(is_first_index(s, id@, i as int));
                assert forall|k: int| #[trigger] is_first_index(s, id@, k) implies k == i by {
                    lemma_first_index_unique(s, id@, i as int, k);
                }
            }
            return Some(i);
        }
        i += 1;
    }
    proof {
        assert forall|k: int| !#[trigger] is_first_index(s, id@, k) by {
            if 0 <= k < s.len() {
                assert(s[k] != id@);
            }
        }
    }
    None
}

/// The identifier selected after moving down through `ids`.
pub fn next_id(ids: &Vec<String>, selected: Option<&String>) -> (r: Option<String>)
    ensures
        match r {
            Some(x) => selection_after_next(
                string_views(ids@),
                match selected {
                    Some(s) => Some(s@),
                    None => None,
                },
            ) == Some(x@),
            None => selection_after_next(
                string_views(ids@),
                match selected {
                    Some(s) => Some(s@),
                    None => None,
                },
            ) is None,
        },
{
    let current = match selected {
        Some(s) => position_of(ids, s),
        None => None,
    };
    match current {
        Some(i) => {
            if i + 1 < ids.len() {
                Some(ids[i + 1].clone())
            } else {
                Some(selected.unwrap().clone())
            }
        },
        None => {
            if ids.len() > 0 {
                Some(ids[0].clone())
            } else {
                None
            }
        },
    }
}

/// The identifier selected after moving up through `ids`.
pub fn previous_id(ids: &Vec<String>, selected: Option<&String>) -> (r: Option<String>)
    ensures
        match r {
            Some(x) => selection_after_previous(
                string_views(ids@),
                match selected {
                    Some(s) => Some(s@),
                    None => None,
                },
            ) == Some(x@),
            None => selection_after_previous(
                string_views(ids@),
                match selected {
                    Some(s) => Some(s@),
                    None => None,
                },
            ) is None,
        },
{
    let current = match selected {
        Some(s) => position_of(ids, s),
        None => None,
    };
    match current {
        Some(i) => {
            if i > 0 {
                Some(ids[i - 1].clone())
            } else {
                Some(selected.unwrap().clone())
            }
        },
        None => {
            if ids.len() > 0 {
                Some(ids[0].clone())
            } else {
                None
            }
        },
    }
}

/// In a list without repeated identifiers, moving down from an entry that is
/// not the last and then up comes back to it; so does moving up from an entry
/// that is not the first and then down.
pub proof fn lemma_next_then_previous(s: Seq<Seq<char>>, i: int)
    requires
        0 <= i < s.len(),
        forall|a: int, b: int| 0 <= a < b < s.len() ==> s[a] != s[b],
    ensures
        i + 1 < s.len() ==> selection_after_previous(s, selection_after_next(s, Some(s[i])))
            == Some(s[i]),
        i > 0 ==> selection_after_next(s, selection_after_previous(s, Some(s[i]))) == Some(s[i]),
{
    assert forall|k: int| 0 <= k < s.len() implies #[trigger] is_first_index(s, s[k], k) by {
        assert forall|j: int| 0 <= j < k implies #[trigger] s[j] != s[k] by {}
    }
    assert forall|m: int, k: int|
        0 <= m < s.len() && #[trigger] is_first_index(s, s[m], k) implies k == m by {
        lemma_first_index_unique(s, s[m], m, k);
    }
    if i + 1 < s.len() {
        assert(is_first_index(s, s[i + 1], i + 1));
        assert(is_first_index(s, s[i], i));
    }
    if i > 0 {
        assert(is_first_index(s, s[i - 1], i - 1));
        assert(is_first_index(s, s[i], i));
    }
}

} // verus!
