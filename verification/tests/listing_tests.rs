use discovery::{collect_servers, get_server_by_id, get_servers, Server, Status};

const BASE: &str = "SELECT id, server_id, server_name, icon_url, banner_url, invite_link, members, description, is_verified, is_nsfw, owner, owner_id, added_on, last_bumped FROM servers WHERE is_banned = 0";

fn server(id: &str) -> Server {
    Server {
        id: Some(1),
        server_id: id.to_string(),
        server_name: format!("name of {}", id),
        icon_url: None,
        banner_url: None,
        invite_link: Some(format!("https://stt.gg/{}", id)),
        members: 10,
        description: None,
        is_verified: 0,
        is_nsfw: 0,
        owner: None,
        owner_id: Some("owner".to_string()),
        added_on: Some("2024-01-01 00:00:00".to_string()),
        last_bumped: Some("2024-01-01 00:00:00".to_string()),
    }
}

#[test]
fn default_listing_orders_by_last_bump() {
    let q = get_servers(None, None);
    assert_eq!(q.sql, format!("{} ORDER BY last_bumped DESC", BASE));
    assert!(q.params.is_empty());
}

#[test]
fn listing_sort_orders() {
    assert_eq!(get_servers(None, Some("members")).sql, format!("{} ORDER BY members DESC", BASE));
    assert_eq!(
        get_servers(None, Some("activity")).sql,
        format!("{} ORDER BY is_verified DESC, members DESC, last_bumped DESC", BASE)
    );
    assert_eq!(get_servers(None, Some("newest")).sql, format!("{} ORDER BY added_on DESC", BASE));
    assert_eq!(get_servers(None, Some("bumps")).sql, format!("{} ORDER BY last_bumped DESC", BASE));
    assert_eq!(get_servers(None, Some("Members")).sql, format!("{} ORDER BY last_bumped DESC", BASE));
}

#[test]
fn listing_search_binds_pattern_twice() {
    let q = get_servers(Some("rust"), Some("members"));
    assert_eq!(
        q.sql,
        format!("{} AND (server_name LIKE ? OR description LIKE ?) ORDER BY members DESC", BASE)
    );
    assert_eq!(q.params, vec!["%rust%".to_string(), "%rust%".to_string()]);
    assert_eq!(q.sql.matches('?').count(), q.params.len());
}

#[test]
fn empty_search_still_filters() {
    let q = get_servers(Some(""), None);
    assert_eq!(q.params, vec!["%%".to_string(), "%%".to_string()]);
}

#[test]
fn collect_keeps_rows_in_order() {
    let rows = vec![Ok(server("a")), Ok(server("b"))];
    let servers = collect_servers(rows).unwrap();
    assert_eq!(servers.len(), 2);
    assert_eq!(servers[0].server_id, "a");
    assert_eq!(servers[1].server_id, "b");
}

#[test]
fn collect_reports_first_failure() {
    let rows = vec![Ok(server("a")), Err("first".to_string()), Err("second".to_string())];
    let e = collect_servers(rows).unwrap_err();
    assert_eq!(e.status, Status::InternalServerError);
    assert_eq!(e.message, "first");
}

#[test]
fn collect_of_nothing_is_empty() {
    assert!(collect_servers(Vec::new()).unwrap().is_empty());
}

#[test]
fn lookup_answers() {
    assert_eq!(get_server_by_id(Ok(Some(server("x")))).unwrap().server_id, "x");
    let e = get_server_by_id(Ok(None)).unwrap_err();
    assert_eq!(e.status, Status::NotFound);
    assert_eq!(e.status.code(), 404);
    assert_eq!(e.message, "Not found");
    let e = get_server_by_id(Err("disk I/O error".to_string())).unwrap_err();
    assert_eq!(e.status, Status::InternalServerError);
    assert_eq!(e.message, "disk I/O error");
}
