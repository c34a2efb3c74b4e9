//! Homeserver addresses, user and event identifiers, and where a session is stored.

use matrix_sdk::ruma::IdParseError;
use matrix_sdk::ruma::OwnedEventId;
use matrix_sdk::ruma::UserId;
use vstd::prelude::*;

use crate::error::{AccountError, AccountErrorView};
use crate::text::{chars_of, starts_with, text_between, texts};

verus! {

/// Whether a homeserver is given as a URL, with its scheme.
pub open spec fn has_scheme(hs: Seq<char>) -> bool {
    "http://"@.is_prefix_of(hs) || "https://"@.is_prefix_of(hs)
}

/// The URL of a homeserver: what was given, with `https` for a scheme if it has none.
pub open spec fn homeserver_url(hs: Seq<char>) -> Seq<char> {
    if has_scheme(hs) {
        hs
    } else {
        "https://"@ + hs
    }
}

/// The URL of a homeserver that is given with or without a scheme.
pub fn normalize_homeserver(hs: &str) -> (r: String)
    ensures
        r@ == homeserver_url(hs@),
{
    if starts_with(hs, "http://") || starts_with(hs, "https://") {
        hs.to_owned()
    } else {
        "https://".to_owned().concat(hs)
    }
}

/// A homeserver's URL has a scheme, so normalizing it once more changes nothing.
pub proof fn law_normalizing_twice_is_normalizing_once(hs: Seq<char>)
    ensures
        has_scheme(homeserver_url(hs)),
        homeserver_url(homeserver_url(hs)) == homeserver_url(hs),
{
    if !has_scheme(hs) {
        let url = "https://"@ + hs;
        assert(url.subrange(0, "https://"@.len() as int) == "https://"@);
    }
}

/// `s` up to its first slash.
pub open spec fn up_to_slash(s: Seq<char>) -> Seq<char>
    decreases s.len(),
{
    if s.len() == 0 || s[0] == '/' {
        seq![]
    } else {
        seq![s[0]] + up_to_slash(s.skip(1))
    }
}

/// The name of a homeserver: what was given, without the scheme and the path of a URL.
pub open spec fn server_name(hs: Seq<char>) -> Seq<char> {
    if "http://"@.is_prefix_of(hs) {
        up_to_slash(hs.skip("http://"@.len() as int))
    } else if "https://"@.is_prefix_of(hs) {
        up_to_slash(hs.skip("https://"@.len() as int))
    } else {
        up_to_slash(hs)
    }
}

/// The name of a homeserver that is given as a name or as a URL.
fn server_name_of(hs: &str) -> (r: String)
    ensures
        r@ == server_name(hs@),
{
    let chars = chars_of(hs);
    proof {
        reveal_strlit("http://");
        reveal_strlit("https://");
    }
    let start: usize = if starts_with(hs, "http://") {
        7
    } else if starts_with(hs, "https://") {
        8
    } else {
        0
    };
    let ghost rest = hs@.skip(start as int);
    assert(hs@.skip(0) == hs@);
    assert(server_name(hs@) == up_to_slash(rest));
    let mut end: usize = start;
    assert(chars@.subrange(start as int, start as int) + up_to_slash(rest) == up_to_slash(rest));
    while end < chars.len() && chars[end] != '/'
        invariant
            chars@ == hs@,
            start <= end <= chars@.len(),
            chars@.subrange(start as int, end as int) + up_to_slash(chars@.skip(end as int))
                == up_to_slash(rest),
        decreases chars@.len() - end,
    {
        let ghost tail = chars@.skip(end as int);
        assert(tail.skip(1) == chars@.skip(end + 1));
        assert(chars@.subrange(start as int, end + 1) == chars@.subrange(
            start as int,
            end as int,
        ).push(tail[0]));
        assert(chars@.subrange(start as int, end + 1) + up_to_slash(tail.skip(1))
            == chars@.subrange(start as int, end as int) + up_to_slash(tail));
        end = end + 1;
    }
    assert(up_to_slash(chars@.skip(end as int)) == Seq::<char>::empty());
    text_between(&chars, start, end)
}

/// The user identifier that a login is for: the user name where it is one already, and else the
/// one that the user name and the homeserver's name make up.
pub open spec fn login_id(username: Seq<char>, homeserver: Seq<char>) -> Seq<char> {
    if "@"@.is_prefix_of(username) {
        username
    } else {
        "@"@ + username + ":"@ + server_name(homeserver)
    }
}

/// The user identifier of a login, in the form `@user:server`.
pub fn normalize_user_id(username: &str, homeserver: &str) -> (r: String)
    ensures
        r@ == login_id(username@, homeserver@),
{
    if starts_with(username, "@") {
        username.to_owned()
    } else {
        let server = server_name_of(homeserver);
        "@".to_owned().concat(username).concat(":").concat(server.as_str())
    }
}

proof fn lemma_up_to_slash(name: Seq<char>, rest: Seq<char>)
    requires
        !name.contains('/'),
        rest.len() > 0 ==> rest[0] == '/',
    ensures
        up_to_slash(name + rest) == name,
    decreases name.len(),
{
    let s = name + rest;
    if name.len() > 0 {
        let tail = name.skip(1);
        assert(name[0] != '/') by {
            assert(name.contains(name[0]));
        }
        assert(!tail.contains('/')) by {
            if tail.contains('/') {
                let i = choose|i: int| 0 <= i < tail.len() && tail[i] == '/';
                assert(name[i + 1] == '/');
            }
        }
        assert(s.skip(1) == tail + rest);
        lemma_up_to_slash(tail, rest);
        assert(seq![name[0]] + tail == name);
    } else {
        assert(s == rest);
    }
}

/// A homeserver has the same name whether it is given by that name or by a URL, with or without a
/// path. So a login is for the same user in either form.
pub proof fn law_server_name_of_url(name: Seq<char>, path: Seq<char>, username: Seq<char>)
    requires
        !name.contains('/'),
        path.len() > 0 ==> path[0] == '/',
    ensures
        server_name(name) == name,
        server_name("http://"@ + name + path) == name,
        server_name("https://"@ + name + path) == name,
        login_id(username, "http://"@ + name + path) == login_id(username, name),
        login_id(username, "https://"@ + name + path) == login_id(username, name),
{
    reveal_strlit("http://");
    reveal_strlit("https://");
    lemma_up_to_slash(name, path);
    lemma_up_to_slash(name, Seq::empty());
    assert(name + Seq::<char>::empty() == name);
    assert(!has_scheme(name)) by {
        if "http://"@.is_prefix_of(name) {
            assert(name[5] == "http://"@[5]);
        }
        if "https://"@.is_prefix_of(name) {
            assert(name[6] == "https://"@[6]);
        }
    }
    let http = "http://"@ + name + path;
    assert(http.subrange(0, 7) == "http://"@);
    assert(http.skip(7) == name + path);
    let https = "https://"@ + name + path;
    assert(https[4] == 's');
    assert(!"http://"@.is_prefix_of(https)) by {
        if "http://"@.is_prefix_of(https) {
            assert(https[4] == "http://"@[4]);
        }
    }
    assert(https.subrange(0, 8) == "https://"@);
    assert(https.skip(8) == name + path);
}

/// A login's user identifier starts with `@`, so it stays the same when it is used to log in.
pub proof fn law_login_id_is_stable(username: Seq<char>, homeserver: Seq<char>, other: Seq<char>)
    ensures
        login_id(login_id(username, homeserver), other) == login_id(username, homeserver),
{
    let id = login_id(username, homeserver);
    assert("@"@.is_prefix_of(id)) by {
        if !"@"@.is_prefix_of(username) {
            assert(id.subrange(0, "@"@.len() as int) == "@"@);
        }
    }
}

/// The character that stands for `c` in the name of a session's directory.
pub open spec fn safe_char(c: char) -> char {
    if c == '@' || c == ':' || c == '.' {
        '_'
    } else {
        c
    }
}

/// The name of a user's session directory: the user identifier with an underscore for each at
/// sign, colon and dot.
pub open spec fn safe_id(user_id: Seq<char>) -> Seq<char> {
    user_id.map_values(|c: char| safe_char(c))
}

/// Where a user's session is stored, by the names of the directories below the data directory.
pub open spec fn session_dirs(user_id: Seq<char>) -> Seq<Seq<char>> {
    seq!["sessions"@, safe_id(user_id)]
}

/// Where a user's session is stored, by the names of the directories below the data directory,
/// the outermost first.
pub fn session_db_path(user_id: &str, _homeserver: &str) -> (r: Vec<String>)
    ensures
        texts(r@) == session_dirs(user_id@),
{
    let chars = chars_of(user_id);
    let mut name = String::new();
    let mut i: usize = 0;
    while i < chars.len()
        invariant
            chars@ == user_id@,
            i <= chars@.len(),
            name@ == safe_id(user_id@.take(i as int)),
        decreases chars@.len() - i,
    {
        let c = chars[i];
        name.push(
            if c == '@' || c == ':' || c == '.' {
                '_'
            } else {
                c
            },
        );
        assert(safe_id(user_id@.take(i + 1)) == safe_id(user_id@.take(i as int)).push(safe_char(c)));
        i = i + 1;
    }
    assert(user_id@.take(i as int) == user_id@);
    let mut dirs: Vec<String> = Vec::new();
    dirs.push("sessions".to_owned());
    dirs.push(name);
    assert(texts(dirs@) == session_dirs(user_id@));
    dirs
}

/// A session directory's name holds none of the characters that it must not hold, has one
/// character for each of the user identifier, and is its own session directory's name.
pub proof fn law_session_name_is_safe(user_id: Seq<char>)
    ensures
        !safe_id(user_id).contains('@'),
        !safe_id(user_id).contains(':'),
        !safe_id(user_id).contains('.'),
        safe_id(user_id).len() == user_id.len(),
        safe_id(safe_id(user_id)) == safe_id(user_id),
{
    let name = safe_id(user_id);
    assert forall|i: int| 0 <= i < name.len() implies name[i] != '@' && name[i] != ':' && name[i]
        != '.' by {
        assert(name[i] == safe_char(user_id[i]));
    }
    assert(safe_id(name) == name);
}

/// Why ruma refuses a text as a user identifier; `None` where it takes it.
pub uninterp spec fn user_id_error(s: Seq<char>) -> Option<IdParseError>;

/// `<&UserId>::try_from` checks a user identifier and gives it back. It depends on the text alone,
/// and takes none that does not start with `@` or has no colon.
#[verifier::external_body]
fn check_user_id(s: &str) -> (r: Result<String, IdParseError>)
    ensures
        match r {
            Ok(id) => id@ == s@ && user_id_error(s@) is None,
            Err(e) => user_id_error(s@) == Some(e),
        },
        r is Ok ==> s@.len() > 0 && s@[0] == '@' && s@.contains(':'),
{
    <&UserId>::try_from(s).map(|id| id.to_string())
}

/// The user identifier that `s` is.
pub fn parse_user_id(s: &str) -> (r: Result<String, AccountError>)
    ensures
        match r {
            Ok(id) => id@ == s@ && user_id_error(s@) is None,
            Err(e) => user_id_error(s@) matches Some(error) && e@ == (AccountErrorView::InvalidId {
                error,
            }),
        },
        r is Ok ==> s@.len() > 0 && s@[0] == '@' && s@.contains(':'),
{
    match check_user_id(s) {
        Ok(id) => Ok(id),
        Err(error) => Err(AccountError::InvalidId { error }),
    }
}

/// Why ruma refuses a text as an event identifier; `None` where it takes it.
pub uninterp spec fn event_id_error(s: Seq<char>) -> Option<IdParseError>;

/// `OwnedEventId::from_str`, which `parse` calls, checks an event identifier and gives it back. It
/// depends on the text alone and takes none that does not start with `$`; of the texts without a
/// colon it takes each that does.
#[verifier::external_body]
fn check_event_id(s: &str) -> (r: Result<String, IdParseError>)
    ensures
        match r {
            Ok(id) => id@ == s@ && event_id_error(s@) is None,
            Err(e) => event_id_error(s@) == Some(e),
        },
        r is Ok ==> s@.len() > 0 && s@[0] == '$',
        !s@.contains(':') && s@.len() > 0 && s@[0] == '$' ==> r is Ok,
{
    s.parse::<OwnedEventId>().map(|id| id.to_string())
}

/// The event identifier that `s` is.
pub fn parse_event_id(s: &str) -> (r: Result<String, AccountError>)
    ensures
        match r {
            Ok(id) => id@ == s@ && event_id_error(s@) is None,
            Err(e) => event_id_error(s@) matches Some(error) && e@ == (AccountErrorView::InvalidId {
                error,
            }),
        },
        r is Ok ==> s@.len() > 0 && s@[0] == '$',
        !s@.contains(':') && s@.len() > 0 && s@[0] == '$' ==> r is Ok,
{
    match check_event_id(s) {
        Ok(id) => Ok(id),
        Err(error) => Err(AccountError::InvalidId { error }),
    }
}

/// The URL of a homeserver is what was given where that begins with `http://` or `https://`, and
/// else that after `https://`.
pub proof fn law_url_keeps_the_homeserver(hs: &str, r: String)
    requires
        call_ensures(normalize_homeserver, (hs,), r),
    ensures
        (exists|host: Seq<char>| hs@ == "http://"@ + host) ==> r@ == hs@,
        (exists|host: Seq<char>| hs@ == "https://"@ + host) ==> r@ == hs@,
        r@ == hs@ || r@ == "https://"@ + hs@,
        r@ == hs@ ==> (exists|host: Seq<char>| hs@ == "http://"@ + host) || (exists|
            host: Seq<char>,
        | hs@ == "https://"@ + host),
{
    if exists|host: Seq<char>| hs@ == "http://"@ + host {
        let host = choose|host: Seq<char>| hs@ == "http://"@ + host;
        assert(hs@.subrange(0, "http://"@.len() as int) == "http://"@);
    }
    if exists|host: Seq<char>| hs@ == "https://"@ + host {
        let host = choose|host: Seq<char>| hs@ == "https://"@ + host;
        assert(hs@.subrange(0, "https://"@.len() as int) == "https://"@);
    }
    if "http://"@.is_prefix_of(hs@) {
        let host = hs@.skip("http://"@.len() as int);
        assert(hs@ == "http://"@ + host);
    }
    if "https://"@.is_prefix_of(hs@) {
        let host = hs@.skip("https://"@.len() as int);
        assert(hs@ == "https://"@ + host);
    }
    if r@ == hs@ {
        reveal_strlit("https://");
        assert(("https://"@ + hs@).len() == hs@.len() + 8);
    }
}

/// A login is for the user identifier given, or else for the user of that name on the homeserver,
/// whatever the form in which the homeserver was given: `name` is its name, `path` what follows it.
pub proof fn law_login_is_for_the_user_given(
    username: &str,
    homeserver: &str,
    r: String,
    name: Seq<char>,
    path: Seq<char>,
)
    requires
        call_ensures(normalize_user_id, (username, homeserver), r),
        !name.contains('/'),
        path.len() > 0 ==> path[0] == '/',
        ({
            ||| homeserver@ == "http://"@ + name + path
            ||| homeserver@ == "https://"@ + name + path
            ||| homeserver@ == name + path && !"http://"@.is_prefix_of(homeserver@)
                && !"https://"@.is_prefix_of(homeserver@)
        }),
    ensures
        username@.len() > 0 && username@[0] == '@' ==> r@ == username@,
        username@.len() == 0 || username@[0] != '@' ==> r@ == seq!['@'] + username@ + seq![':']
            + name,
{
    reveal_strlit("@");
    reveal_strlit(":");
    law_server_name_of_url(name, path, username@);
    lemma_up_to_slash(name, path);
    assert("@"@ == seq!['@']);
    assert(":"@ == seq![':']);
    if username@.len() > 0 && username@[0] == '@' {
        assert(username@.subrange(0, 1) == "@"@);
    } else if "@"@.is_prefix_of(username@) {
        assert(username@[0] == "@"@[0]);
    }
}

/// A session is stored in a directory below `sessions`, whose name has for each character of the
/// user identifier that character, or an underscore for an at sign, a colon or a dot. The
/// homeserver makes no difference.
pub proof fn law_session_directory_names_the_user(user_id: &str, homeserver: &str, r: Vec<String>)
    requires
        call_ensures(session_db_path, (user_id, homeserver), r),
    ensures
        r@.len() == 2,
        r@[0]@ == "sessions"@,
        r@[1]@.len() == user_id@.len(),
        forall|i: int|
            0 <= i < user_id@.len() ==> #[trigger] r@[1]@[i] == if user_id@[i] == '@' || user_id@[i]
                == ':' || user_id@[i] == '.' {
                '_'
            } else {
                user_id@[i]
            },
{
    let dirs = texts(r@);
    assert(dirs.len() == 2);
    assert(dirs[0] == r@[0]@);
    assert(dirs[1] == r@[1]@);
}

/// An identifier that is taken is given back as it is, and one that is not is answered with the
/// reason for which it was refused. A user identifier begins with an at sign, an event identifier
/// with a dollar sign.
pub proof fn law_identifiers_are_given_back(
    s: &str,
    user: Result<String, AccountError>,
    event: Result<String, AccountError>,
)
    requires
        call_ensures(parse_user_id, (s,), user),
        call_ensures(parse_event_id, (s,), event),
    ensures
        user matches Ok(id) ==> id@ == s@ && s@.len() > 0 && s@[0] == '@',
        user matches Err(e) ==> (e matches AccountError::InvalidId { error } && user_id_error(s@)
            == Some(error)),
        event matches Ok(id) ==> id@ == s@ && s@.len() > 0 && s@[0] == '$',
        event matches Err(e) ==> (e matches AccountError::InvalidId { error } && event_id_error(s@)
            == Some(error)),
        user is Ok <==> user_id_error(s@) is None,
        event is Ok <==> event_id_error(s@) is None,
        user is Ok ==> event is Err,
{
}

} // verus!
