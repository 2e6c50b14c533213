use vstd::prelude::*;

verus! {

/// A server as the chat platform's server endpoint describes it: its name,
/// description, owner, and the ids of its icon and banner images.
#[derive(Debug)]
pub struct StoatServer {
    pub name: String,
    pub description: Option<String>,
    pub icon_id: Option<String>,
    pub banner_id: Option<String>,
    pub owner_id: Option<String>,
}

/// An invite as the chat platform's invite endpoint describes it: the name
/// of the user who made it and the server's member count.
#[derive(Debug)]
pub struct StoatInvite {
    pub user_name: Option<String>,
    pub member_count: Option<i64>,
}

/// Where the refresh of one listing reads from: the server endpoint, and
/// the invite endpoint when the listing has an invite link.
#[derive(Debug)]
pub struct RefreshTargets {
    pub server_url: String,
    pub invite_url: Option<String>,
}

/// The values that the refresh of one listing writes. An absent value keeps
/// the stored one.
#[derive(Debug)]
pub struct RefreshUpdate {
    pub server_id: String,
    pub server_name: Option<String>,
    pub description: Option<String>,
    pub icon_url: Option<String>,
    pub banner_url: Option<String>,
    pub owner_id: Option<String>,
    pub owner: Option<String>,
    pub members: Option<i64>,
}

/// The part of a text after its last '/', the whole text when it has none.
pub open spec fn after_last_slash(s: Seq<char>) -> Seq<char>
    decreases s.len(),
{
    if s.len() == 0 {
        s
    } else if s.last() == '/' {
        Seq::empty()
    } else {
        after_last_slash(s.drop_last()).push(s.last())
    }
}

pub open spec fn server_url_text(server_id: Seq<char>) -> Seq<char> {
    "https://stoat.chat/api/servers/"@ + server_id
}

pub open spec fn invite_url_text(code: Seq<char>) -> Seq<char> {
    "https://stoat.chat/api/invites/"@ + code
}

pub open spec fn icon_url_text(icon_id: Seq<char>) -> Seq<char> {
    "https://cdn.stoatusercontent.com/icons/"@ + icon_id + "?max_side=256"@
}

pub open spec fn banner_url_text(banner_id: Seq<char>) -> Seq<char> {
    "https://cdn.stoatusercontent.com/banners/"@ + banner_id
}

/// The invite code is the link's last segment: the link is some prefix
/// followed by the code, the code holds no '/', and the prefix is empty or
/// ends with '/'.
pub proof fn invite_code_is_last_segment(link: Seq<char>)
    ensures
        ({
            let code = after_last_slash(link);
            let cut = link.len() - code.len();
            &&& 0 <= cut <= link.len()
            &&& link.subrange(cut, link.len() as int) == code
            &&& forall|i: int| 0 <= i < code.len() ==> code[i] != '/'
            &&& (cut == 0 || link[cut - 1] == '/')
        }),
    decreases link.len(),
{
    if link.len() > 0 && link.last() != '/' {
        invite_code_is_last_segment(link.drop_last());
        let code = after_last_slash(link);
        let prev = after_last_slash(link.drop_last());
        assert(code == prev.push(link.last()));
        let cut = link.len() - code.len();
        assert(link.subrange(cut, link.len() as int) =~= link.drop_last().subrange(cut, link.len() - 1).push(link.last()));
        assert forall|i: int| 0 <= i < code.len() implies code[i] != '/' by {
            if i < prev.len() {
                assert(code[i] == prev[i]);
            }
        }
        if cut > 0 {
            assert(link[cut - 1] == link.drop_last()[cut - 1]);
        }
    } else if link.len() > 0 {
        assert(link.subrange(link.len() as int, link.len() as int) =~= after_last_slash(link));
    }
}

/// The invite code of an invite link: its last path segment.
pub fn invite_code(link: &str) -> (code: String)
    ensures
        code@ == after_last_slash(link@),
{
    let n = link.unicode_len();
    let mut i: usize = n;
    assert(link@.take(n as int) =~= link@);
    assert(link@.subrange(n as int, n as int) =~= Seq::<char>::empty());
    while i > 0 && link.get_char(i - 1) != '/'
        invariant
            n == link@.len(),
            i <= n,
            after_last_slash(link@) == after_last_slash(link@.take(i as int)) + link@.subrange(i as int, n as int),
        decreases i,
    {
        let ghost s = link@;
        assert(s.take(i as int).drop_last() =~= s.take(i - 1));
        assert(s.take(i as int).last() == s[i - 1]);
        assert(s.subrange(i - 1, n as int) =~= seq![s[i - 1]] + s.subrange(i as int, n as int));
        assert(after_last_slash(s.take(i as int)) == after_last_slash(s.take(i - 1)).push(s[i - 1]));
        assert(after_last_slash(s.take(i as int)) + s.subrange(i as int, n as int)
            =~= after_last_slash(s.take(i - 1)) + s.subrange(i - 1, n as int));
        i = i - 1;
    }
    proof {
        let s = link@;
        if i > 0 {
            assert(s.take(i as int).last() == s[i - 1]);
        }
        assert(after_last_slash(s.take(i as int)) =~= Seq::<char>::empty());
        assert(after_last_slash(link@) =~= link@.subrange(i as int, n as int));
    }
    String::from_str(link.substring_char(i, n))
}

fn prefixed(prefix: &str, rest: &str) -> (s: String)
    ensures
        s@ == prefix@ + rest@,
{
    let mut s = String::from_str(prefix);
    s.append(rest);
    s
}

fn joined(prefix: &str, middle: &str, suffix: &str) -> (s: String)
    ensures
        s@ == prefix@ + middle@ + suffix@,
{
    let mut s = String::from_str(prefix);
    s.append(middle);
    s.append(suffix);
    s
}

/// Whether an HTTP status code is a success (2xx).
pub fn is_success_status(code: u16) -> (r: bool)
    ensures
        r == (200 <= code < 300),
{
    200 <= code && code < 300
}

/// Where to read the current state of a listing from: the server endpoint
/// for its id, and the invite endpoint for the code of its invite link.
pub fn refresh_targets(server_id: &str, invite_link: Option<&str>) -> (t: RefreshTargets)
    ensures
        t.server_url@ == server_url_text(server_id@),
        (match invite_link {
            Some(link) => t.invite_url matches Some(u) && u@ == invite_url_text(after_last_slash(link@)),
            None => t.invite_url is None,
        }),
{
    let server_url = prefixed("https://stoat.chat/api/servers/", server_id);
    let invite_url = match invite_link {
        Some(link) => {
            let code = invite_code(link);
            Some(prefixed("https://stoat.chat/api/invites/", code.as_str()))
        },
        None => None,
    };
    proof {
        assert(server_url@ =~= server_url_text(server_id@));
        if invite_url is Some {
            assert(invite_url.unwrap()@ =~= invite_url_text(after_last_slash(invite_link.unwrap()@)));
        }
    }
    RefreshTargets { server_url, invite_url }
}

/// The values that the refresh writes for a listing, from what the server
/// endpoint and the invite endpoint answered (nothing where a read failed):
/// name, description and owner from the server, the icon and banner as
/// content-delivery URLs of their ids, the owner's name and the member
/// count from the invite.
pub fn refresh_update(server_id: String, server: Option<StoatServer>, invite: Option<StoatInvite>) -> (u: RefreshUpdate)
    ensures
        u.server_id == server_id,
        (match server {
            Some(s) => {
                &&& u.server_name == Some(s.name)
                &&& u.description == s.description
                &&& u.owner_id == s.owner_id
                &&& (match s.icon_id {
                    Some(i) => u.icon_url matches Some(url) && url@ == icon_url_text(i@),
                    None => u.icon_url is None,
                })
                &&& (match s.banner_id {
                    Some(b) => u.banner_url matches Some(url) && url@ == banner_url_text(b@),
                    None => u.banner_url is None,
                })
            },
            None => u.server_name is None && u.description is None && u.owner_id is None
                && u.icon_url is None && u.banner_url is None,
        }),
        (match invite {
            Some(i) => u.owner == i.user_name && u.members == i.member_count,
            None => u.owner is None && u.members is None,
        }),
{
    let mut update = RefreshUpdate {
        server_id,
        server_name: None,
        description: None,
        icon_url: None,
        banner_url: None,
        owner_id: None,
        owner: None,
        members: None,
    };
    match server {
        Some(s) => {
            update.icon_url = match &s.icon_id {
                Some(i) => Some(joined("https://cdn.stoatusercontent.com/icons/", i.as_str(), "?max_side=256")),
                None => None,
            };
            update.banner_url = match &s.banner_id {
                Some(b) => Some(prefixed("https://cdn.stoatusercontent.com/banners/", b.as_str())),
                None => None,
            };
            update.server_name = Some(s.name);
            update.description = s.description;
            update.owner_id = s.owner_id;
        },
        None => {},
    }
    match invite {
        Some(i) => {
            update.owner = i.user_name;
            update.members = i.member_count;
        },
        None => {},
    }
    proof {
        if server is Some && server.unwrap().banner_id is Some {
            assert(update.banner_url.unwrap()@ =~= banner_url_text(server.unwrap().banner_id.unwrap()@));
        }
    }
    update
}

} // verus!
