//! Sort direction of a list request, and the page metadata of list responses.
use vstd::prelude::*;
use crate::repo_text::{ASC, DESC};

verus! {

/// The direction of an ORDER BY.
#[derive(PartialEq, Eq, Structural, Clone, Copy)]
pub enum SortOrder {
    Asc,
    Desc,
}

/// `s` equals `asc` when ASCII letter case is ignored (`str::eq_ignore_ascii_case`).
pub open spec fn is_asc_text(s: Seq<char>) -> bool {
    &&& s.len() == 3
    &&& (s[0] == 'a' || s[0] == 'A')
    &&& (s[1] == 's' || s[1] == 'S')
    &&& (s[2] == 'c' || s[2] == 'C')
}

/// The keyword of a direction.
pub open spec fn order_text(o: SortOrder) -> Seq<char> {
    match o {
        SortOrder::Asc => ASC@,
        SortOrder::Desc => DESC@,
    }
}

impl SortOrder {
    /// The direction a request asks for: ascending for `asc` in any letter case,
    /// descending for anything else.
    pub fn from_request(s: &str) -> (r: SortOrder)
        ensures
            r == (if is_asc_text(s@) {
                SortOrder::Asc
            } else {
                SortOrder::Desc
            }),
    {
        let n = s.unicode_len();
        if n != 3 {
            return SortOrder::Desc;
        }
        let a = s.get_char(0);
        let b = s.get_char(1);
        let c = s.get_char(2);
        if (a == 'a' || a == 'A') && (b == 's' || b == 'S') && (c == 'c' || c == 'C') {
            SortOrder::Asc
        } else {
            SortOrder::Desc
        }
    }

    /// `ASC` or `DESC`.
    pub fn sql(&self) -> (r: &'static str)
        ensures
            r@ == order_text(*self),
    {
        match self {
            SortOrder::Asc => ASC,
            SortOrder::Desc => DESC,
        }
    }
}

} // verus!
