//! Rules of the portal's HTTP sign-in interface.

use vstd::prelude::*;
use crate::backend::text::chars_of;
use crate::backend::text::contains;
use crate::backend::text::cut;
use crate::backend::text::find_from;
use crate::backend::text::first_at;
use crate::backend::text::joined;
use crate::backend::text::matches_at;
use crate::backend::text::occurs_at;
use crate::backend::text::strip_back;
use crate::backend::text::strip_front;
use crate::backend::text::trimmed;

verus! {

/// Address of the portal's sign-in interface.
pub const PORTAL_BASE_URL: &'static str = "https://portal.csu.edu.cn:802/eportal/portal";

/// Page that tells a host which address the portal sees it under.
pub const IP_PAGE_URL: &'static str = "http://10.1.1.1";

/// Name of the function that the portal wraps its answer in.
pub const CALLBACK: &'static str = "dr1004";

/// Value of the `login_method` parameter.
pub const LOGIN_METHOD: &'static str = "1";

/// What comes before the user name in the account parameter.
pub const ACCOUNT_PREFIX: &'static str = ",1,";

/// Browser that the client presents itself as.
pub const USER_AGENT: &'static str =
    "Mozilla/5.0 (Windows NT 10.0; Win64; x64) AppleWebKit/537.36 (KHTML, like Gecko) Chrome/131.0.0.0 Safari/537.36 Edg/131.0.0.0";

/// Value of the `Referer` header of a sign-in request.
pub const REFERER: &'static str = "https://portal.csu.edu.cn/";

/// Value of the `Origin` header of a sign-in request.
pub const ORIGIN: &'static str = "https://portal.csu.edu.cn";

/// What the portal answers to a sign-in request.
#[derive(Debug)]
pub struct AuthResponse {
    pub result: i32,
    pub msg: String,
    pub ret_code: i32,
}

/// Carrier through which the account reaches the portal.
#[derive(Clone, Copy, Debug, PartialEq, Eq, Structural)]
pub enum ISP {
    /// China Unicom.
    Unicom,
    /// China Mobile.
    Mobile,
    /// China Telecom.
    Telecom,
    /// The campus network itself.
    Campus,
}

impl ISP {
    /// The suffix the portal expects after `@` in the account name.
    pub open spec fn suffix(self) -> Seq<char> {
        match self {
            ISP::Unicom => "unicomn"@,
            ISP::Mobile => "cmccn"@,
            ISP::Telecom => "telecomn"@,
            ISP::Campus => ""@,
        }
    }

    /// Returns the suffix the portal expects after `@` in the account name.
    pub fn as_str(&self) -> (s: &'static str)
        ensures
            s@ == self.suffix(),
    {
        match self {
            ISP::Unicom => "unicomn",
            ISP::Mobile => "cmccn",
            ISP::Telecom => "telecomn",
            ISP::Campus => "",
        }
    }
}

/// True when a quoted value that starts at the beginning of `rest` ends
/// before position `end`: at the first quote, at the next `marker`, or at the
/// end of `rest`, whichever comes first.
pub open spec fn value_ends(rest: Seq<char>, marker: Seq<char>, quote: char, end: int) -> bool {
    &&& 0 <= end <= rest.len()
    &&& end == rest.len() || rest[end] == quote || occurs_at(rest, marker, end)
    &&& forall|i: int| 0 <= i < end ==> rest[i] != quote && !occurs_at(rest, marker, i)
}

/// The value that follows the first `marker` in `text`, if `marker` stands in
/// `text` at all.
pub open spec fn field_of(text: Seq<char>, marker: Seq<char>, quote: char) -> Option<Seq<char>> {
    if contains(text, marker) {
        let at = choose|at: int| first_at(text, marker, 0, at);
        let rest = text.skip(at + marker.len());
        let end = choose|end: int| value_ends(rest, marker, quote, end);
        Some(rest.take(end))
    } else {
        None
    }
}

/// The address that a portal page names for this host: the value of `v46ip`,
/// else that of `v4ip`, else that of `ss5`.
pub open spec fn ip_in(page: Seq<char>) -> Option<Seq<char>> {
    if field_of(page, "v46ip='"@, '\'') is Some {
        field_of(page, "v46ip='"@, '\'')
    } else if field_of(page, "v4ip='"@, '\'') is Some {
        field_of(page, "v4ip='"@, '\'')
    } else {
        field_of(page, "ss5=\""@, '"')
    }
}

/// There is one first position of a pattern.
proof fn lemma_first_at_unique(text: Seq<char>, pattern: Seq<char>, a: int, b: int)
    requires
        first_at(text, pattern, 0, a),
        first_at(text, pattern, 0, b),
    ensures
        a == b,
{
}

/// There is one position where a value ends.
proof fn lemma_value_ends_unique(rest: Seq<char>, marker: Seq<char>, quote: char, a: int, b: int)
    requires
        value_ends(rest, marker, quote, a),
        value_ends(rest, marker, quote, b),
    ensures
        a == b,
{
}

/// The value that follows the first `marker` in `text`.
pub fn field(text: &str, marker: &str, quote: char) -> (value: Option<String>)
    ensures
        match value {
            Some(found) => field_of(text@, marker@, quote) == Some(found@),
            None => field_of(text@, marker@, quote) is None,
        },
{
    let chars = chars_of(text);
    let pattern = chars_of(marker);
    match find_from(&chars, &pattern, 0) {
        None => None,
        Some(at) => {
            let n = chars.len();
            assert(occurs_at(chars@, pattern@, at as int));
            assert(at + pattern@.len() <= n);
            let start = at + pattern.len();
            let ghost rest = text@.skip(start as int);
            let mut end: usize = start;
            while end < n && chars[end] != quote && !matches_at(&chars, &pattern, end)
                invariant
                    start <= end <= n,
                    n == chars@.len(),
                    chars@ == text@,
                    pattern@ == marker@,
                    rest == text@.skip(start as int),
                    forall|i: int|
                        0 <= i < end - start ==> rest[i] != quote && !occurs_at(
                            rest,
                            marker@,
                            i,
                        ),
                decreases n - end,
            {
                proof {
                    lemma_occurs_in_rest(text@, marker@, start as int, end - start);
                    assert(rest[end - start] == text@[end as int]);
                    assert(!occurs_at(rest, marker@, end - start));
                }
                end = end + 1;
            }
            proof {
                lemma_occurs_in_rest(text@, marker@, start as int, end - start);
                assert(value_ends(rest, marker@, quote, end - start));
                let first = choose|first: int| first_at(text@, marker@, 0, first);
                lemma_first_at_unique(text@, marker@, first, at as int);
                let stop = choose|stop: int| value_ends(rest, marker@, quote, stop);
                lemma_value_ends_unique(rest, marker@, quote, stop, end - start);
                assert(rest.take(end - start) =~= text@.subrange(start as int, end as int));
            }
            Some(cut(text, start, end))
        },
    }
}

/// A pattern stands in the rest of a text where it stands in the text.
proof fn lemma_occurs_in_rest(text: Seq<char>, pattern: Seq<char>, start: int, i: int)
    requires
        0 <= start <= text.len(),
        0 <= i,
    ensures
        occurs_at(text.skip(start), pattern, i) == occurs_at(text, pattern, start + i),
{
    let rest = text.skip(start);
    if i + pattern.len() <= rest.len() {
        assert(rest.subrange(i, i + pattern.len()) =~= text.subrange(
            start + i,
            start + i + pattern.len(),
        ));
    }
}

/// The address that a portal page names for this host, if it names one.
pub fn extract_ip(text: &str) -> (ip: Option<String>)
    ensures
        match ip {
            Some(found) => ip_in(text@) == Some(found@),
            None => ip_in(text@) is None,
        },
{
    match field(text, "v46ip='", '\'') {
        Some(ip) => Some(ip),
        None => match field(text, "v4ip='", '\'') {
            Some(ip) => Some(ip),
            None => field(text, "ss5=\"", '"'),
        },
    }
}

/// The account parameter of a sign-in request: the prefix, the user name, `@`
/// and the carrier's suffix.
pub open spec fn account_of(username: Seq<char>, isp: ISP) -> Seq<char> {
    ACCOUNT_PREFIX@ + username + "@"@ + isp.suffix()
}

/// The portal's answer without the call it is wrapped in: without the callback
/// and the opening bracket at its start, and without the closing bracket and
/// the semicolon at its end.
pub open spec fn payload_of(reply: Seq<char>) -> Seq<char> {
    strip_back(strip_front(reply, "dr1004("@), ");"@)
}

/// The portal's answer without the call it is wrapped in.
pub fn jsonp_payload(reply: &str) -> (payload: String)
    ensures
        payload@ == payload_of(reply@),
{
    trimmed(reply, "dr1004(", ");")
}

/// Why the portal client gave up.
#[derive(Clone, Copy, Debug, PartialEq, Eq, Structural)]
pub enum AuthError {
    /// The portal page names no address for this host.
    NoIp,
}

/// One name and value of a request's query or headers.
#[derive(Debug)]
pub struct Pair {
    pub name: String,
    pub value: String,
}

impl View for Pair {
    type V = (Seq<char>, Seq<char>);

    open spec fn view(&self) -> (Seq<char>, Seq<char>) {
        (self.name@, self.value@)
    }
}

impl Pair {
    /// The pair of `name` and `value`.
    pub fn new(name: &str, value: &str) -> (pair: Pair)
        ensures
            pair@ == (name@, value@),
    {
        Pair { name: String::from_str(name), value: String::from_str(value) }
    }
}

/// The views of a list of pairs, in order.
pub open spec fn pair_views(pairs: Seq<Pair>) -> Seq<(Seq<char>, Seq<char>)> {
    Seq::new(pairs.len(), |i: int| pairs[i]@)
}

/// A sign-in request, ready to be sent.
#[derive(Debug)]
pub struct LoginRequest {
    /// Where the request goes.
    pub url: String,
    /// The parameters of the query, each name once, in the order in which
    /// they are listed for the portal.
    pub query: Vec<Pair>,
    /// The headers, in the order in which they are set.
    pub headers: Vec<Pair>,
}

/// The portal client: who signs in, and where.
#[derive(Debug)]
pub struct AuthClient {
    pub base_url: String,
    pub username: String,
    pub password: String,
    pub isp: ISP,
}

impl AuthClient {
    /// The query of the sign-in request of `username` with `password` through
    /// `isp`, from the address `ip`.
    pub open spec fn query_of(
        username: Seq<char>,
        password: Seq<char>,
        isp: ISP,
        ip: Seq<char>,
    ) -> Seq<(Seq<char>, Seq<char>)> {
        seq![
            ("callback"@, CALLBACK@),
            ("login_method"@, LOGIN_METHOD@),
            ("user_account"@, account_of(username, isp)),
            ("user_password"@, password),
            ("wlan_user_ip"@, ip),
        ]
    }

    /// The headers of every sign-in request.
    pub open spec fn login_headers() -> Seq<(Seq<char>, Seq<char>)> {
        seq![("User-Agent"@, USER_AGENT@), ("Referer"@, REFERER@), ("Origin"@, ORIGIN@)]
    }

    /// A client for `username` with `password` through `isp`, at the portal's
    /// usual address.
    pub fn new(username: String, password: String, isp: ISP) -> (client: AuthClient)
        ensures
            client.base_url@ == PORTAL_BASE_URL@,
            client.username@ == username@,
            client.password@ == password@,
            client.isp == isp,
    {
        AuthClient { base_url: String::from_str(PORTAL_BASE_URL), username, password, isp }
    }

    /// The account parameter of this client's sign-in request.
    pub fn user_account(&self) -> (account: String)
        ensures
            account@ == account_of(self.username@, self.isp),
    {
        let mut account = joined(ACCOUNT_PREFIX, self.username.as_str());
        account.append("@");
        account.append(self.isp.as_str());
        account
    }

    /// The address under which the portal sees this host, read off the page
    /// that the portal serves at [`IP_PAGE_URL`]. Fails exactly when the page
    /// names none.
    pub fn get_ip(&self, page: &str) -> (ip: Result<String, AuthError>)
        ensures
            match ip {
                Ok(found) => ip_in(page@) == Some(found@),
                Err(error) => ip_in(page@) is None && error == AuthError::NoIp,
            },
    {
        match extract_ip(page) {
            Some(ip) => Ok(ip),
            None => Err(AuthError::NoIp),
        }
    }

    /// The sign-in request of this client from the address `ip`.
    pub fn login(&self, ip: &str) -> (request: LoginRequest)
        ensures
            request.url@ == self.base_url@ + "/login"@,
            pair_views(request.query@) == Self::query_of(
                self.username@,
                self.password@,
                self.isp,
                ip@,
            ),
            pair_views(request.headers@) == Self::login_headers(),
    {
        let url = joined(self.base_url.as_str(), "/login");
        let account = self.user_account();
        let mut query: Vec<Pair> = Vec::new();
        query.push(Pair::new("callback", CALLBACK));
        query.push(Pair::new("login_method", LOGIN_METHOD));
        query.push(Pair::new("user_account", account.as_str()));
        query.push(Pair::new("user_password", self.password.as_str()));
        query.push(Pair::new("wlan_user_ip", ip));
        let mut headers: Vec<Pair> = Vec::new();
        headers.push(Pair::new("User-Agent", USER_AGENT));
        headers.push(Pair::new("Referer", REFERER));
        headers.push(Pair::new("Origin", ORIGIN));
        assert(pair_views(query@) =~= Self::query_of(
            self.username@,
            self.password@,
            self.isp,
            ip@,
        ));
        assert(pair_views(headers@) =~= Self::login_headers());
        LoginRequest { url, query, headers }
    }
}

} // verus!
