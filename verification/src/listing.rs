use crate::model::Server;
use crate::response::{ApiError, Status};
use vstd::prelude::*;

verus! {

/// The query that lists the servers that are not banned.
pub open spec fn listing_base() -> Seq<char> {
    "SELECT id, server_id, server_name, icon_url, banner_url, invite_link, members, description, is_verified, is_nsfw, owner, owner_id, added_on, last_bumped FROM servers WHERE is_banned = 0"@
}

/// The filter added for a search: name or description matches.
pub open spec fn search_filter() -> Seq<char> {
    " AND (server_name LIKE ? OR description LIKE ?)"@
}

/// The sort order asked for, "bumps" when none is.
pub open spec fn sort_key(sort: Option<Seq<char>>) -> Seq<char> {
    match sort {
        Some(s) => s,
        None => "bumps"@,
    }
}

/// The ordering of the listing for a sort key: by members, by activity
/// (verified first, then members, then last bump), by newest, and by last
/// bump for any other key.
pub open spec fn order_clause(key: Seq<char>) -> Seq<char> {
    if key == "members"@ {
        " ORDER BY members DESC"@
    } else if key == "activity"@ {
        " ORDER BY is_verified DESC, members DESC, last_bumped DESC"@
    } else if key == "newest"@ {
        " ORDER BY added_on DESC"@
    } else {
        " ORDER BY last_bumped DESC"@
    }
}

/// The SQL text of the listing for an optional search and sort.
pub open spec fn listing_sql(q: Option<Seq<char>>, sort: Option<Seq<char>>) -> Seq<char> {
    listing_base() + (if q is Some {
        search_filter()
    } else {
        Seq::empty()
    }) + order_clause(sort_key(sort))
}

/// The LIKE pattern for a search: the search text anywhere.
pub open spec fn search_pattern(q: Seq<char>) -> Seq<char> {
    "%"@ + q + "%"@
}

/// The parameters bound to the listing's placeholders: the pattern twice
/// for a search, none otherwise.
pub open spec fn listing_params(q: Option<Seq<char>>) -> Seq<Seq<char>> {
    match q {
        Some(s) => seq![search_pattern(s), search_pattern(s)],
        None => Seq::empty(),
    }
}

/// The listing query: its SQL text and the texts bound to its placeholders,
/// in order.
pub struct ListingQuery {
    pub sql: String,
    pub params: Vec<String>,
}

pub open spec fn texts(v: Seq<String>) -> Seq<Seq<char>> {
    v.map_values(|s: String| s@)
}

fn text_is(s: &str, lit: &str) -> (r: bool)
    ensures
        r == (s@ == lit@),
{
    String::from_str(s) == String::from_str(lit)
}

/// The query behind `GET /api/servers`: the servers that are not banned,
/// filtered by the search text `q` when there is one, in the order that
/// `sort` names.
pub fn get_servers(q: Option<&str>, sort: Option<&str>) -> (query: ListingQuery)
    ensures
        query.sql@ == listing_sql(opt_str(q), opt_str(sort)),
        texts(query.params@) == listing_params(opt_str(q)),
{
    let mut sql = String::from_str(
        "SELECT id, server_id, server_name, icon_url, banner_url, invite_link, members, description, is_verified, is_nsfw, owner, owner_id, added_on, last_bumped FROM servers WHERE is_banned = 0",
    );
    let mut params: Vec<String> = Vec::new();
    match q {
        Some(search) => {
            sql.append(" AND (server_name LIKE ? OR description LIKE ?)");
            let mut pattern = String::from_str("%");
            pattern.append(search);
            pattern.append("%");
            params.push(pattern.clone());
            params.push(pattern);
        },
        None => {},
    }
    let key = match sort {
        Some(s) => s,
        None => "bumps",
    };
    if text_is(key, "members") {
        sql.append(" ORDER BY members DESC");
    } else if text_is(key, "activity") {
        sql.append(" ORDER BY is_verified DESC, members DESC, last_bumped DESC");
    } else if text_is(key, "newest") {
        sql.append(" ORDER BY added_on DESC");
    } else {
        sql.append(" ORDER BY last_bumped DESC");
    }
    proof {
        assert(sql@ =~= listing_sql(opt_str(q), opt_str(sort)));
        assert(texts(params@) =~= listing_params(opt_str(q)));
    }
    ListingQuery { sql, params }
}

pub open spec fn opt_str(s: Option<&str>) -> Option<Seq<char>> {
    match s {
        Some(t) => Some(t@),
        None => None,
    }
}

/// The listing never shows banned servers, and binds one text to each
/// placeholder: every listing query starts with the query of the servers
/// that are not banned; a search adds the filter with its two placeholders
/// and binds two texts, and no search adds neither.
pub proof fn listing_keeps_ban_filter(q: Option<Seq<char>>, sort: Option<Seq<char>>)
    ensures
        listing_sql(q, sort).subrange(0, listing_base().len() as int) == listing_base(),
        q is Some ==> listing_sql(q, sort).subrange(
            listing_base().len() as int,
            (listing_base().len() + search_filter().len()) as int,
        ) == search_filter() && listing_params(q).len() == 2,
        q is None ==> listing_sql(q, sort) == listing_base() + order_clause(sort_key(sort))
            && listing_params(q).len() == 0,
{
    assert(listing_sql(q, sort).subrange(0, listing_base().len() as int) =~= listing_base());
    if q is Some {
        assert(listing_sql(q, sort).subrange(
            listing_base().len() as int,
            (listing_base().len() + search_filter().len()) as int,
        ) =~= search_filter());
    } else {
        assert(listing_sql(q, sort) =~= listing_base() + order_clause(sort_key(sort)));
    }
}

/// `s` ends with `suffix`.
pub open spec fn ends_with(s: Seq<char>, suffix: Seq<char>) -> bool {
    s.len() >= suffix.len() && s.subrange(s.len() - suffix.len(), s.len() as int) == suffix
}

/// The listing is in the order the sort names, with or without a search:
/// "members" by member count, "activity" by verification, members and last
/// bump, "newest" by date added, and no sort or any other sort by last
/// bump. A search only inserts its filter between the base query and the
/// ordering, which stays the same.
pub proof fn listing_order_follows_sort(q: Option<Seq<char>>, sort: Option<Seq<char>>, search: Seq<char>)
    ensures
        sort == Some("members"@) ==> ends_with(listing_sql(q, sort), " ORDER BY members DESC"@),
        sort == Some("activity"@) ==> ends_with(
            listing_sql(q, sort),
            " ORDER BY is_verified DESC, members DESC, last_bumped DESC"@,
        ),
        sort == Some("newest"@) ==> ends_with(listing_sql(q, sort), " ORDER BY added_on DESC"@),
        (sort is None || (sort != Some("members"@) && sort != Some("activity"@) && sort != Some("newest"@)))
            ==> ends_with(listing_sql(q, sort), " ORDER BY last_bumped DESC"@),
        listing_sql(Some(search), sort) == listing_base() + search_filter() + listing_sql(None, sort).subrange(
            listing_base().len() as int,
            listing_sql(None, sort).len() as int,
        ),
{
    reveal_strlit("members");
    reveal_strlit("activity");
    reveal_strlit("newest");
    reveal_strlit("bumps");
    let s = listing_sql(q, sort);
    let o = order_clause(sort_key(sort));
    assert(s.subrange(s.len() - o.len(), s.len() as int) =~= o);
    assert(listing_sql(None, sort) =~= listing_base() + o);
    assert(listing_sql(None, sort).subrange(listing_base().len() as int, listing_sql(None, sort).len() as int) =~= o);
    assert(listing_sql(Some(search), sort) =~= listing_base() + search_filter() + o);
    if sort == Some("members"@) {
        assert(sort_key(sort) == "members"@);
        assert(o == " ORDER BY members DESC"@);
    }
    if sort == Some("newest"@) {
        assert(sort_key(sort) == "newest"@);
        assert("newest"@ != "members"@);
        assert("newest"@ != "activity"@);
        assert(o == " ORDER BY added_on DESC"@);
    }
    if sort is None {
        assert("bumps"@[0] != "members"@[0]);
        assert("bumps"@[0] != "activity"@[0]);
        assert("bumps"@ != "newest"@);
    }
}

/// The answer of `GET /api/servers` from the rows that the query read: all
/// the servers in order, or an internal error with the text of the first
/// row that failed to read.
pub fn collect_servers(rows: Vec<Result<Server, String>>) -> (r: Result<Vec<Server>, ApiError>)
    ensures
        (match r {
            Ok(servers) => servers@.len() == rows@.len()
                && forall|i: int| 0 <= i < rows@.len() ==> rows@[i] == Ok::<Server, String>(#[trigger] servers@[i]),
            Err(e) => e.status == Status::InternalServerError
                && exists|i: int| 0 <= i < rows@.len()
                    && rows@[i] == Err::<Server, String>(e.message)
                    && forall|j: int| 0 <= j < i ==> (#[trigger] rows@[j]) is Ok,
        }),
{
    let ghost all = rows@;
    let mut servers: Vec<Server> = Vec::new();
    for row in it: rows.into_iter()
        invariant
            it.seq() == all,
            servers@.len() == it.index(),
            forall|i: int| 0 <= i < it.index() ==> all[i] == Ok::<Server, String>(#[trigger] servers@[i]),
    {
        let ghost k = it.index();
        assert(all[k] == row);
        match row {
            Ok(s) => servers.push(s),
            Err(m) => {
                assert forall|j: int| 0 <= j < k implies all[j] is Ok by {
                    assert(all[j] == Ok::<Server, String>(servers@[j]));
                }
                return Err(ApiError { status: Status::InternalServerError, message: m });
            },
        }
    }
    Ok(servers)
}

/// The answer of `GET /api/servers/:sid` from the lookup: the server, not
/// found when there is none, or an internal error with the lookup's text.
pub fn get_server_by_id(found: Result<Option<Server>, String>) -> (r: Result<Server, ApiError>)
    ensures
        (match found {
            Ok(Some(s)) => r == Ok::<Server, ApiError>(s),
            Ok(None) => r matches Err(e) && e.status == Status::NotFound && e.message@ == "Not found"@,
            Err(m) => r matches Err(e) && e.status == Status::InternalServerError && e.message == m,
        }),
{
    match found {
        Ok(Some(s)) => Ok(s),
        Ok(None) => Err(ApiError { status: Status::NotFound, message: String::from_str("Not found") }),
        Err(m) => Err(ApiError { status: Status::InternalServerError, message: m }),
    }
}

} // verus!
