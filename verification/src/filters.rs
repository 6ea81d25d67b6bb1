//! What each query type filters by, and how it sorts.

use vstd::prelude::*;

verus! {

/// The direction in which rows are sorted.
#[derive(Clone, Copy, PartialEq, Eq, Debug, Structural)]
pub enum SortOrder {
    Asc,
    Desc,
}

impl SortOrder {
    /// The keyword of the direction.
    pub open spec fn keyword(self) -> Seq<char> {
        match self {
            SortOrder::Asc => "ASC"@,
            SortOrder::Desc => "DESC"@,
        }
    }

    /// The index that is kept in that direction.
    pub open spec fn index(self) -> Seq<char> {
        match self {
            SortOrder::Asc => "idx_asc"@,
            SortOrder::Desc => "idx_desc"@,
        }
    }

    /// Descending or ascending.
    pub fn from_flag(use_desc: bool) -> (r: SortOrder)
        ensures
            r == if use_desc {
                SortOrder::Desc
            } else {
                SortOrder::Asc
            },
    {
        if use_desc {
            SortOrder::Desc
        } else {
            SortOrder::Asc
        }
    }

    /// The keyword of the direction.
    pub fn direction(self) -> (r: &'static str)
        ensures
            r@ == self.keyword(),
            self is Asc ==> r@ == "ASC"@,
            self is Desc ==> r@ == "DESC"@,
    {
        match self {
            SortOrder::Asc => "ASC",
            SortOrder::Desc => "DESC",
        }
    }

    /// The name of the index that is kept in that direction.
    pub fn index_name(self) -> (r: &'static str)
        ensures
            r@ == self.index(),
            self is Asc ==> r@ == "idx_asc"@,
            self is Desc ==> r@ == "idx_desc"@,
    {
        match self {
            SortOrder::Asc => "idx_asc",
            SortOrder::Desc => "idx_desc",
        }
    }
}

/// The direction in which a query type sorts.
pub open spec fn order_of(query_type: u8) -> SortOrder {
    if query_type == 5 || query_type == 8 {
        SortOrder::Asc
    } else {
        SortOrder::Desc
    }
}

/// The query type asks for one maker.
pub open spec fn wants_maker(query_type: u8) -> bool {
    query_type == 4 || query_type == 6 || query_type == 10
}

/// The query type asks for a least volume.
pub open spec fn wants_volume(query_type: u8) -> bool {
    query_type == 7 || query_type == 9 || query_type == 10
}

/// The side of the cursor on which the query type looks: before it or after it. `None` where
/// it has no cursor.
pub open spec fn cursor_side(query_type: u8) -> Option<bool> {
    if query_type == 3 || query_type == 6 || query_type == 9 || query_type == 10 {
        Some(true)
    } else if query_type == 5 {
        Some(false)
    } else {
        None
    }
}

/// How the query type compares rows with its cursor.
pub open spec fn operator_of(query_type: u8) -> Seq<char> {
    if query_type == 5 {
        ">"@
    } else {
        "<"@
    }
}

/// The direction in which a query type sorts.
pub fn sort_order(query_type: u8) -> (r: SortOrder)
    ensures
        r == order_of(query_type),
        r is Asc <==> query_type == 5 || query_type == 8,
{
    match query_type {
        5 | 8 => SortOrder::Asc,
        _ => SortOrder::Desc,
    }
}

/// Whether the query type asks for one maker.
pub fn needs_maker(query_type: u8) -> (r: bool)
    ensures
        r == wants_maker(query_type),
        r <==> query_type == 4 || query_type == 6 || query_type == 10,
{
    match query_type {
        4 | 6 | 10 => true,
        _ => false,
    }
}

/// Whether the query type asks for a least volume.
pub fn needs_volume(query_type: u8) -> (r: bool)
    ensures
        r == wants_volume(query_type),
        r <==> query_type == 7 || query_type == 9 || query_type == 10,
{
    match query_type {
        7 | 9 | 10 => true,
        _ => false,
    }
}

/// Whether the query type looks before its cursor (`true`) or after it (`false`), where it has
/// one.
pub fn cursor_direction(query_type: u8) -> (r: Option<bool>)
    ensures
        r == cursor_side(query_type),
        r == Some(true) <==> query_type == 3 || query_type == 6 || query_type == 9 || query_type
            == 10,
        r == Some(false) <==> query_type == 5,
{
    match query_type {
        3 | 6 | 9 | 10 => Some(true),
        5 => Some(false),
        _ => None,
    }
}

/// The sign with which the query type compares rows with its cursor.
pub fn cursor_operator(query_type: u8) -> (r: &'static str)
    ensures
        r@ == operator_of(query_type),
        query_type == 5 ==> r@ == ">"@,
        query_type != 5 ==> r@ == "<"@,
{
    if query_type == 5 {
        ">"
    } else {
        "<"
    }
}

/// A query type with a cursor walks away from it: it looks before the cursor and sorts
/// downwards, or looks after it and sorts upwards, and its sign says the same.
pub proof fn cursor_and_order_agree(query_type: u8)
    requires
        cursor_side(query_type) is Some,
    ensures
        cursor_side(query_type) == Some(true) <==> order_of(query_type) == SortOrder::Desc,
        cursor_side(query_type) == Some(true) <==> operator_of(query_type) == "<"@,
        cursor_side(query_type) == Some(false) <==> operator_of(query_type) == ">"@,
{
    reveal_strlit("<");
    reveal_strlit(">");
    assert("<"@[0] != ">"@[0]);
}

} // verus!
