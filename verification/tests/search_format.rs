use lsp_analyzer::message::{ProtocolId, Response};
use lsp_analyzer::session_search::{
    PagedSessionRequest, SortColumn, build_order_by_clause, build_sorted_query_string,
};
use lsp_analyzer::utils::{CivilTime, get_iso_string, narrow_session_id, u64_to_dec, u64_to_dec_padded};

fn plain_request() -> PagedSessionRequest {
    PagedSessionRequest {
        page: None,
        primary_sort: None,
        primary_asc: None,
        secondary_sort: None,
        secondary_asc: None,
    }
}

#[test]
fn toggle_fills_the_primary_slot_when_nothing_is_sorted() {
    let url = build_sorted_query_string(&plain_request(), SortColumn::StartTime);
    assert_eq!(url, "/?primary_sort=0");
    let url = build_sorted_query_string(&plain_request(), SortColumn::EndTime);
    assert_eq!(url, "/?primary_sort=1");
}

#[test]
fn toggle_flips_the_direction_of_the_matching_primary_slot() {
    let mut request = plain_request();
    request.page = Some(2);
    request.primary_sort = Some(0);
    let url = build_sorted_query_string(&request, SortColumn::StartTime);
    assert_eq!(url, "/?page=2&primary_sort=0&primary_asc=false");

    request.primary_asc = Some(false);
    let url = build_sorted_query_string(&request, SortColumn::StartTime);
    assert_eq!(url, "/?page=2&primary_sort=0&primary_asc=true");
}

#[test]
fn toggle_falls_through_to_an_empty_secondary_slot() {
    let mut request = plain_request();
    request.primary_sort = Some(1);
    let url = build_sorted_query_string(&request, SortColumn::StartTime);
    assert_eq!(url, "/?primary_sort=1&primary_asc=true&secondary_sort=0");
}

#[test]
fn toggle_flips_the_direction_of_the_matching_secondary_slot() {
    let mut request = plain_request();
    request.primary_sort = Some(1);
    request.secondary_sort = Some(0);
    request.secondary_asc = Some(true);
    let url = build_sorted_query_string(&request, SortColumn::StartTime);
    assert_eq!(url, "/?primary_sort=1&primary_asc=true&secondary_sort=0&secondary_asc=false");
}

#[test]
fn toggle_keeps_a_secondary_slot_sorting_by_the_other_column() {
    let mut request = plain_request();
    request.primary_sort = Some(1);
    request.secondary_sort = Some(1);
    request.secondary_asc = Some(false);
    let url = build_sorted_query_string(&request, SortColumn::StartTime);
    assert_eq!(url, "/?primary_sort=1&primary_asc=true&secondary_sort=1&secondary_asc=false");
}

#[test]
fn order_by_is_empty_without_directives() {
    assert_eq!(build_order_by_clause(&plain_request()), Ok(String::new()));
}

#[test]
fn order_by_with_primary_only() {
    let mut request = plain_request();
    request.primary_sort = Some(0);
    assert_eq!(
        build_order_by_clause(&request),
        Ok("ORDER BY start_time_stamp ASC, id".to_string())
    );
    request.primary_asc = Some(false);
    assert_eq!(
        build_order_by_clause(&request),
        Ok("ORDER BY start_time_stamp DESC, id".to_string())
    );
}

#[test]
fn order_by_with_both_directives() {
    let mut request = plain_request();
    request.primary_sort = Some(1);
    request.primary_asc = Some(false);
    request.secondary_sort = Some(0);
    assert_eq!(
        build_order_by_clause(&request),
        Ok("ORDER BY end_time_stamp DESC, start_time_stamp ASC, id".to_string())
    );
}

#[test]
fn order_by_with_secondary_only() {
    let mut request = plain_request();
    request.secondary_sort = Some(1);
    request.secondary_asc = Some(false);
    assert_eq!(
        build_order_by_clause(&request),
        Ok("ORDER BY end_time_stamp DESC, id".to_string())
    );
}

#[test]
fn order_by_rejects_unknown_columns() {
    let mut request = plain_request();
    request.primary_sort = Some(5);
    assert_eq!(build_order_by_clause(&request), Err(()));
    let mut request = plain_request();
    request.secondary_sort = Some(2);
    assert_eq!(build_order_by_clause(&request), Err(()));
}

#[test]
fn sort_column_decoding() {
    assert_eq!(SortColumn::try_from(0), Ok(SortColumn::StartTime));
    assert_eq!(SortColumn::try_from(1), Ok(SortColumn::EndTime));
    assert_eq!(SortColumn::try_from(2), Err(()));
    assert_eq!(SortColumn::StartTime.index(), 0);
    assert_eq!(SortColumn::EndTime.index(), 1);
}

#[test]
fn decimal_rendering() {
    assert_eq!(u64_to_dec(0), "0");
    assert_eq!(u64_to_dec(7), "7");
    assert_eq!(u64_to_dec(12345), "12345");
    assert_eq!(u64_to_dec(18446744073709551615), "18446744073709551615");
    assert_eq!(u64_to_dec_padded(7, 3), "007");
    assert_eq!(u64_to_dec_padded(12345, 3), "12345");
    assert_eq!(u64_to_dec_padded(0, 2), "00");
}

#[test]
fn iso_string_formats_like_the_session_view() {
    let t = CivilTime { year: 2024, month: 3, day: 7, hour: 9, minute: 5, second: 30, millisecond: 42 };
    assert_eq!(get_iso_string(&t), "3/07/2024 at 09:05:30.042");
    assert_eq!(get_iso_string(&t), format!(
        "{}/{:02}/{:04} at {:02}:{:02}:{:02}.{:03}",
        3, 7, 2024, 9, 5, 30, 42
    ));
}

#[test]
fn iso_string_handles_negative_years_like_the_standard_formatter() {
    let t = CivilTime { year: -12, month: 11, day: 23, hour: 0, minute: 0, second: 1, millisecond: 999 };
    assert_eq!(get_iso_string(&t), format!(
        "{}/{:02}/{:04} at {:02}:{:02}:{:02}.{:03}",
        11, 23, -12, 0, 0, 1, 999
    ));
}

#[test]
fn session_id_narrowing() {
    assert_eq!(narrow_session_id(5), Some(5));
    assert_eq!(narrow_session_id(-7), Some(-7));
    assert_eq!(narrow_session_id(i32::MAX as i64), Some(i32::MAX));
    assert_eq!(narrow_session_id(i32::MAX as i64 + 1), None);
    assert_eq!(narrow_session_id(i32::MIN as i64), Some(i32::MIN));
    assert_eq!(narrow_session_id(i32::MIN as i64 - 1), None);
}

#[test]
fn response_storage_fields_cover_all_outcomes() {
    let err = Response::new_err(ProtocolId::Number(1), 3, "bad".to_string());
    assert_eq!(
        err.storage_fields(),
        (true, Some(3), Some("bad".to_string()), None, None)
    );

    let ok = Response::new_ok(ProtocolId::Number(1), "{}".to_string());
    assert_eq!(ok.storage_fields(), (false, None, None, None, Some("{}".to_string())));

    let neither = Response { id: ProtocolId::Number(1), result: None, error: None };
    assert_eq!(neither.storage_fields(), (false, None, None, None, None));
}
