//! The session-listing query: which columns to sort by, the query string
//! that toggles a sort column, and the ORDER BY clause a query denotes.

use vstd::prelude::*;
use vstd::string::StringExecFns;

use crate::utils::{spec_dec_str, u64_to_dec};

verus! {

/// A sortable column of the session listing.
#[derive(Clone, Copy, Debug, PartialEq, Eq, Structural)]
pub enum SortColumn {
    StartTime,
    EndTime,
}

pub open spec fn spec_col_num(c: SortColumn) -> nat {
    match c {
        SortColumn::StartTime => 0,
        SortColumn::EndTime => 1,
    }
}

pub open spec fn spec_col_from(value: nat) -> Result<SortColumn, ()> {
    if value == 0 {
        Ok(SortColumn::StartTime)
    } else if value == 1 {
        Ok(SortColumn::EndTime)
    } else {
        Err(())
    }
}

impl SortColumn {
    /// Decodes a column from its query-string number.
    pub fn try_from(value: usize) -> (r: Result<SortColumn, ()>)
        ensures
            r == spec_col_from(value as nat),
    {
        match value {
            0 => Ok(SortColumn::StartTime),
            1 => Ok(SortColumn::EndTime),
            _ => Err(()),
        }
    }

    /// The column's query-string number.
    pub fn index(&self) -> (r: u8)
        ensures
            r as nat == spec_col_num(*self),
    {
        match self {
            SortColumn::StartTime => 0,
            SortColumn::EndTime => 1,
        }
    }
}

/// One page of the session listing: the page number and up to two sort
/// directives, all optional.
pub struct PagedSessionRequest {
    pub page: Option<usize>,
    pub primary_sort: Option<usize>,
    pub primary_asc: Option<bool>,
    pub secondary_sort: Option<usize>,
    pub secondary_asc: Option<bool>,
}

pub open spec fn spec_bool_str(b: bool) -> Seq<char> {
    if b {
        "true"@
    } else {
        "false"@
    }
}

pub open spec fn spec_or_true(o: Option<bool>) -> bool {
    match o {
        Some(b) => b,
        None => true,
    }
}

/// The URL that re-requests the listing with `col` toggled: an absent sort
/// slot is filled with `col`; a slot already sorting by `col` has its
/// direction flipped; a slot sorting by the other column is kept. The
/// primary slot is considered first, and nothing past a filled slot is
/// emitted once `col` has been placed.
pub open spec fn spec_sorted_query_string(req: PagedSessionRequest, col: SortColumn) -> Seq<
    char,
> {
    let base = "/?"@ + match req.page {
        Some(p) => "page="@ + spec_dec_str(p as nat) + "&"@,
        None => Seq::<char>::empty(),
    };
    match req.primary_sort {
        None => base + "primary_sort="@ + spec_dec_str(spec_col_num(col)),
        Some(ps) => {
            let with_primary = base + "primary_sort="@ + spec_dec_str(ps as nat) + "&"@
                + "primary_asc="@;
            if ps as nat == spec_col_num(col) {
                with_primary + spec_bool_str(!spec_or_true(req.primary_asc))
            } else {
                let with_direction = with_primary + spec_bool_str(spec_or_true(req.primary_asc))
                    + "&"@;
                match req.secondary_sort {
                    None => with_direction + "secondary_sort="@ + spec_dec_str(spec_col_num(col)),
                    Some(ss) => {
                        let with_secondary = with_direction + "secondary_sort="@ + spec_dec_str(
                            ss as nat,
                        ) + "&"@ + "secondary_asc="@;
                        if ss as nat == spec_col_num(col) {
                            with_secondary + spec_bool_str(!spec_or_true(req.secondary_asc))
                        } else {
                            with_secondary + spec_bool_str(spec_or_true(req.secondary_asc))
                        }
                    }
                }
            }
        }
    }
}

fn bool_str(b: bool) -> (r: &'static str)
    ensures
        r@ == spec_bool_str(b),
{
    if b {
        "true"
    } else {
        "false"
    }
}

/// Builds the link that toggles sorting by `sort_column_to_toggle`.
#[verifier::rlimit(60)]
pub fn build_sorted_query_string(request: &PagedSessionRequest, sort_column_to_toggle: SortColumn)
    -> (r: String)
    ensures
        r@ == spec_sorted_query_string(*request, sort_column_to_toggle),
{
    let mut url = String::new();
    url.append("/?");
    if let Some(page) = request.page {
        url.append("page=");
        let page_digits = u64_to_dec(page as u64);
        url.append(page_digits.as_str());
        url.append("&");
    }

    match request.primary_sort {
        None => {
            url.append("primary_sort=");
            let col_digits = u64_to_dec(sort_column_to_toggle.index() as u64);
            url.append(col_digits.as_str());
            proof {
                assert(url@ =~= spec_sorted_query_string(*request, sort_column_to_toggle));
            }
            return url;
        }
        Some(primary_sort) => {
            url.append("primary_sort=");
            let primary_digits = u64_to_dec(primary_sort as u64);
            url.append(primary_digits.as_str());

            url.append("&");
            url.append("primary_asc=");
            if primary_sort == sort_column_to_toggle.index() as usize {
                url.append(bool_str(!request.primary_asc.unwrap_or(true)));
                proof {
                    assert(url@ =~= spec_sorted_query_string(*request, sort_column_to_toggle));
                }
                return url;
            } else {
                url.append(bool_str(request.primary_asc.unwrap_or(true)));
            }
        }
    }

    url.append("&");
    match request.secondary_sort {
        None => {
            url.append("secondary_sort=");
            let col_digits = u64_to_dec(sort_column_to_toggle.index() as u64);
            url.append(col_digits.as_str());
        }
        Some(secondary_sort) => {
            url.append("secondary_sort=");
            let secondary_digits = u64_to_dec(secondary_sort as u64);
            url.append(secondary_digits.as_str());

            url.append("&");
            url.append("secondary_asc=");
            if secondary_sort == sort_column_to_toggle.index() as usize {
                url.append(bool_str(!request.secondary_asc.unwrap_or(true)));
            } else {
                url.append(bool_str(request.secondary_asc.unwrap_or(true)));
            }
        }
    }

    proof {
        assert(url@ =~= spec_sorted_query_string(*request, sort_column_to_toggle));
    }
    url
}

pub open spec fn spec_direction(o: Option<bool>) -> Seq<char> {
    if spec_or_true(o) {
        " ASC"@
    } else {
        " DESC"@
    }
}

pub open spec fn spec_order_by_column(col: SortColumn, lead: bool) -> Seq<char> {
    match (lead, col) {
        (true, SortColumn::StartTime) => "ORDER BY start_time_stamp"@,
        (true, SortColumn::EndTime) => "ORDER BY end_time_stamp"@,
        (false, SortColumn::StartTime) => ", start_time_stamp"@,
        (false, SortColumn::EndTime) => ", end_time_stamp"@,
    }
}

/// The ORDER BY clause the two sort directives denote: empty when neither
/// is given, rejected when a directive names an unknown column, and always
/// ending in the id column as the final tie breaker when any directive is
/// given.
pub open spec fn spec_order_by_clause(req: PagedSessionRequest) -> Result<Seq<char>, ()> {
    match req.primary_sort {
        Some(ps) => match spec_col_from(ps as nat) {
            Err(()) => Err(()),
            Ok(pc) => {
                let head = spec_order_by_column(pc, true) + spec_direction(req.primary_asc);
                match req.secondary_sort {
                    Some(ss) => match spec_col_from(ss as nat) {
                        Err(()) => Err(()),
                        Ok(sc) => Ok(
                            head + spec_order_by_column(sc, false) + spec_direction(
                                req.secondary_asc,
                            ) + ", id"@,
                        ),
                    },
                    None => Ok(head + ", id"@),
                }
            }
        },
        None => match req.secondary_sort {
            Some(ss) => match spec_col_from(ss as nat) {
                Err(()) => Err(()),
                Ok(sc) => Ok(
                    spec_order_by_column(sc, true) + spec_direction(req.secondary_asc) + ", id"@,
                ),
            },
            None => Ok(Seq::<char>::empty()),
        },
    }
}

/// Builds the ORDER BY clause for the session listing, rejecting a sort
/// directive that names an unknown column.
pub fn build_order_by_clause(request: &PagedSessionRequest) -> (r: Result<String, ()>)
    ensures
        match r {
            Ok(s) => spec_order_by_clause(*request) == Ok::<Seq<char>, ()>(s@),
            Err(()) => spec_order_by_clause(*request) is Err,
        },
{
    let mut order_by = String::new();
    if let Some(primary_sort) = request.primary_sort {
        match SortColumn::try_from(primary_sort) {
            Err(()) => {
                return Err(());
            }
            Ok(SortColumn::StartTime) => order_by.append("ORDER BY start_time_stamp"),
            Ok(SortColumn::EndTime) => order_by.append("ORDER BY end_time_stamp"),
        }

        if request.primary_asc.unwrap_or(true) {
            order_by.append(" ASC");
        } else {
            order_by.append(" DESC");
        }

        if let Some(secondary_sort) = request.secondary_sort {
            match SortColumn::try_from(secondary_sort) {
                Err(()) => {
                    return Err(());
                }
                Ok(SortColumn::StartTime) => order_by.append(", start_time_stamp"),
                Ok(SortColumn::EndTime) => order_by.append(", end_time_stamp"),
            }

            if request.secondary_asc.unwrap_or(true) {
                order_by.append(" ASC");
            } else {
                order_by.append(" DESC");
            }
        }

        order_by.append(", id");
    } else if let Some(secondary_sort) = request.secondary_sort {
        match SortColumn::try_from(secondary_sort) {
            Err(()) => {
                return Err(());
            }
            Ok(SortColumn::StartTime) => order_by.append("ORDER BY start_time_stamp"),
            Ok(SortColumn::EndTime) => order_by.append("ORDER BY end_time_stamp"),
        }

        if request.secondary_asc.unwrap_or(true) {
            order_by.append(" ASC");
        } else {
            order_by.append(" DESC");
        }

        order_by.append(", id");
    }

    proof {
        assert(spec_order_by_clause(*request) == Ok::<Seq<char>, ()>(order_by@)) by {
            assert(spec_order_by_clause(*request) matches Ok(s) && s =~= order_by@);
        }
    }
    Ok(order_by)
}

} // verus!
