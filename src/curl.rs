//! Instrumentation of the curl extension: the header lists configured on a
//! handle, the exit span target derived from the handle's URL, and the
//! verdict drawn from the response status.

use std::collections::HashMap;
use url::Url;
use vstd::prelude::*;

verus! {

/// The curl option that carries the outgoing header list.
pub const CURLOPT_HTTPHEADER: i64 = 10023;

/// The status that curl reports when no response was received.
pub const FAILURE_STATUS: i64 = 0;

/// Why the exec before-hook could not derive a span target.
#[derive(Debug, Clone, Copy, PartialEq, Eq, Structural)]
pub enum CurlError {
    /// The handle's effective URL does not parse.
    InvalidUrl,
}

/// Whether the separator `://` starts at position `i` of `s`.
pub open spec fn separator_at(s: Seq<char>, i: int) -> bool {
    0 <= i && i + 2 < s.len() && s[i] == ':' && s[i + 1] == '/' && s[i + 2] == '/'
}

/// Whether `s` holds the separator `://` somewhere.
pub open spec fn has_scheme_separator(s: Seq<char>) -> bool {
    exists|i: int| #[trigger] separator_at(s, i)
}

/// Checks whether `s` names its scheme.
pub fn contains_scheme_separator(s: &str) -> (r: bool)
    ensures
        r == has_scheme_separator(s@),
{
    let n = s.unicode_len();
    let mut i: usize = 0;
    while i < n && n - i > 2
        invariant
            n == s@.len(),
            i <= n,
            forall|j: int| 0 <= j < i ==> !#[trigger] separator_at(s@, j),
        decreases n - i,
    {
        if s.get_char(i) == ':' && s.get_char(i + 1) == '/' && s.get_char(i + 2) == '/' {
            assert(separator_at(s@, i as int));
            return true;
        }
        i = i + 1;
    }
    assert forall|j: int| !#[trigger] separator_at(s@, j) by {
        if 0 <= j < i {
        }
    }
    false
}

/// Compares two texts character by character.
pub fn text_eq(a: &str, b: &str) -> (r: bool)
    ensures
        r == (a@ == b@),
{
    let n = a.unicode_len();
    if n != b.unicode_len() {
        return false;
    }
    let mut i: usize = 0;
    while i < n
        invariant
            n == a@.len(),
            n == b@.len(),
            forall|j: int| 0 <= j < i ==> a@[j] == b@[j],
        decreases n - i,
    {
        if a.get_char(i) != b.get_char(i) {
            return false;
        }
        i = i + 1;
    }
    assert(a@ =~= b@);
    true
}

/// The URL that is parsed for a raw effective URL: one without a scheme is
/// taken as plain HTTP.
pub open spec fn with_default_scheme(raw: Seq<char>) -> Seq<char> {
    if has_scheme_separator(raw) {
        raw
    } else {
        "http://"@ + raw
    }
}

/// The decimal digits of `n`, without leading zeros.
pub open spec fn decimal(n: nat) -> Seq<char>
    decreases n,
{
    if n < 10 {
        seq![((n + 48) as u8) as char]
    } else {
        decimal(n / 10).push((((n % 10) + 48) as u8) as char)
    }
}

/// The parts of a parsed URL that the instrumentation reads.
pub struct UrlParts {
    pub scheme: String,
    pub host: Option<String>,
    /// The explicit port; absent when the URL gives none or gives the
    /// scheme's default.
    pub port: Option<u16>,
    pub path: String,
}

/// An optional text as a value.
pub open spec fn opt_text(s: Option<String>) -> Option<Seq<char>> {
    match s {
        Some(t) => Some(t@),
        None => None,
    }
}

/// A parsed URL as a value: scheme, host, explicit port and path.
pub open spec fn parts_view(p: UrlParts) -> (Seq<char>, Option<Seq<char>>, Option<u16>, Seq<char>) {
    (p.scheme@, opt_text(p.host), p.port, p.path@)
}

/// What the url crate parses a text into, if it parses.
pub uninterp spec fn parsed_url(s: Seq<char>) -> Option<(Seq<char>, Option<Seq<char>>, Option<u16>, Seq<char>)>;

/// Relies on url's `Url::parse`, read through `scheme`, `host_str`, `port`
/// and `path`: the parts depend on the text alone.
#[verifier::external_body]
fn parse_url(s: &str) -> (r: Option<UrlParts>)
    ensures
        match r {
            None => parsed_url(s@) is None,
            Some(p) => parsed_url(s@) == Some(parts_view(p)),
        },
{
    match Url::parse(s) {
        Ok(u) => Some(
            UrlParts {
                scheme: u.scheme().to_owned(),
                host: u.host_str().map(|h| h.to_owned()),
                port: u.port(),
                path: u.path().to_owned(),
            },
        ),
        Err(_) => None,
    }
}

/// Relies on std's `ToString` for `u16`, which writes the decimal digits.
#[verifier::external_body]
fn port_text(port: u16) -> (r: String)
    ensures
        r@ == decimal(port as nat),
{
    port.to_string()
}

/// Where an exit span points: the operation (the request path) and the
/// peer, written `host:port`.
pub struct ExitTarget {
    pub operation: String,
    pub peer: String,
}

/// An optional exit target as a value.
pub open spec fn target_view(t: Option<ExitTarget>) -> Option<(Seq<char>, Seq<char>)> {
    match t {
        Some(x) => Some((x.operation@, x.peer@)),
        None => None,
    }
}

/// The port a peer is written with: the explicit one, else the scheme's
/// default.
pub open spec fn effective_port(scheme: Seq<char>, port: Option<u16>) -> nat {
    match port {
        Some(p) => p as nat,
        None => if scheme == "https"@ {
            443
        } else {
            80
        },
    }
}

/// The exit target of a parsed URL: none unless the scheme is HTTP or HTTPS
/// and the URL has a host.
pub open spec fn target_of(parts: (Seq<char>, Option<Seq<char>>, Option<u16>, Seq<char>)) -> Option<
    (Seq<char>, Seq<char>),
> {
    let (scheme, host, port, path) = parts;
    if scheme != "http"@ && scheme != "https"@ {
        None
    } else {
        match host {
            None => None,
            Some(h) => Some((path, h + ":"@ + decimal(effective_port(scheme, port)))),
        }
    }
}

/// The exit target of an already parsed URL.
pub fn exit_target_of(parts: &UrlParts) -> (r: Option<ExitTarget>)
    ensures
        target_view(r) == target_of(parts_view(*parts)),
{
    let is_http = text_eq(parts.scheme.as_str(), "http");
    let is_https = text_eq(parts.scheme.as_str(), "https");
    proof {
        reveal_strlit("http");
        reveal_strlit("https");
    }
    if !is_http && !is_https {
        return None;
    }
    match &parts.host {
        None => None,
        Some(h) => {
            let port: u16 = match parts.port {
                Some(p) => p,
                None => if is_https {
                    443
                } else {
                    80
                },
            };
            let peer = h.clone().concat(":").concat(port_text(port).as_str());
            proof {
                reveal_strlit(":");
            }
            Some(ExitTarget { operation: parts.path.clone(), peer })
        },
    }
}

/// The exit target for a handle's raw effective URL. A URL that does not
/// parse is an error; one that is not HTTP(S) or has no host gets no span.
pub fn exit_target(raw_url: &str) -> (r: Result<Option<ExitTarget>, CurlError>)
    ensures
        match parsed_url(with_default_scheme(raw_url@)) {
            None => r == Err::<Option<ExitTarget>, CurlError>(CurlError::InvalidUrl),
            Some(p) => r is Ok && target_view(r->Ok_0) == target_of(p),
        },
{
    let full = if contains_scheme_separator(raw_url) {
        raw_url.to_owned()
    } else {
        "http://".to_owned().concat(raw_url)
    };
    match parse_url(full.as_str()) {
        None => Err(CurlError::InvalidUrl),
        Some(parts) => Ok(exit_target_of(&parts)),
    }
}

/// How a finished call marks its span.
#[derive(Debug, Clone, Copy, PartialEq, Eq, Structural)]
pub enum StatusVerdict {
    /// No response: the span is erroneous and logs curl's last error.
    Failed,
    /// An error response: the span is erroneous, without a log.
    Erroneous,
    /// The span is not erroneous.
    Fine,
}

/// The verdict for a response status.
pub open spec fn verdict_of(status: i64) -> StatusVerdict {
    if status == FAILURE_STATUS {
        StatusVerdict::Failed
    } else if status >= 400 {
        StatusVerdict::Erroneous
    } else {
        StatusVerdict::Fine
    }
}

/// Classifies the status that the handle reports after the call.
pub fn status_verdict(status: i64) -> (r: StatusVerdict)
    ensures
        r == verdict_of(status),
{
    if status == FAILURE_STATUS {
        StatusVerdict::Failed
    } else if status >= 400 {
        StatusVerdict::Erroneous
    } else {
        StatusVerdict::Fine
    }
}

/// The curl entry points that the plugin hooks.
#[derive(Debug, Clone, Copy, PartialEq, Eq, Structural)]
pub enum CurlHook {
    /// `curl_setopt`: remembers a header list set on a handle.
    SetOpt,
    /// `curl_setopt_array`: remembers a header list among many options.
    SetOptArray,
    /// `curl_exec`: opens an exit span and injects the propagation header.
    Exec,
    /// `curl_close`: forgets the handle's header list.
    Close,
}

/// The number of arguments below which a hooked call is not inspected.
pub open spec fn required_args_of(hook: CurlHook) -> usize {
    match hook {
        CurlHook::SetOpt => 3,
        CurlHook::SetOptArray => 2,
        CurlHook::Exec => 1,
        CurlHook::Close => 1,
    }
}

impl CurlHook {
    /// How many arguments the hooked call must have for its before-hook to
    /// read them.
    pub fn required_args(&self) -> (r: usize)
        ensures
            r == required_args_of(*self),
    {
        match self {
            CurlHook::SetOpt => 3,
            CurlHook::SetOptArray => 2,
            CurlHook::Exec => 1,
            CurlHook::Close => 1,
        }
    }
}

/// Whether `p` is a prefix of `s`.
pub open spec fn is_prefix(p: Seq<char>, s: Seq<char>) -> bool {
    p.len() <= s.len() && s.subrange(0, p.len() as int) == p
}

/// Checks whether `s` starts with `p`.
pub fn starts_with_text(s: &str, p: &str) -> (r: bool)
    ensures
        r == is_prefix(p@, s@),
{
    let n = p.unicode_len();
    if n > s.unicode_len() {
        return false;
    }
    let mut i: usize = 0;
    while i < n
        invariant
            n == p@.len(),
            n <= s@.len(),
            i <= n,
            forall|j: int| 0 <= j < i ==> s@[j] == p@[j],
        decreases n - i,
    {
        if s.get_char(i) != p.get_char(i) {
            assert(s@.subrange(0, n as int)[i as int] != p@[i as int]);
            return false;
        }
        i = i + 1;
    }
    assert(s@.subrange(0, n as int) =~= p@);
    true
}

/// The hook for a function name, if the plugin hooks it.
pub open spec fn hook_for(name: Seq<char>) -> Option<CurlHook> {
    if name == "curl_setopt"@ {
        Some(CurlHook::SetOpt)
    } else if name == "curl_setopt_array"@ {
        Some(CurlHook::SetOptArray)
    } else if name == "curl_exec"@ {
        Some(CurlHook::Exec)
    } else if name == "curl_close"@ {
        Some(CurlHook::Close)
    } else {
        None
    }
}

/// A header list as a value.
pub open spec fn list_view(v: Vec<String>) -> Seq<Seq<char>> {
    v@.map_values(|s: String| s@)
}

/// The header line that carries a propagation token.
pub open spec fn propagation_line(token: Seq<char>) -> Seq<char> {
    "sw8: "@ + token
}

/// A copy of a header list.
fn clone_list(v: &Vec<String>) -> (r: Vec<String>)
    ensures
        list_view(r) == list_view(*v),
{
    let mut r: Vec<String> = Vec::new();
    let mut i: usize = 0;
    while i < v.len()
        invariant
            i <= v@.len(),
            r@.len() == i,
            forall|j: int| 0 <= j < i ==> r@[j]@ == v@[j]@,
        decreases v@.len() - i,
    {
        r.push(v[i].clone());
        i = i + 1;
    }
    assert(list_view(r) =~= list_view(*v));
    r
}

/// Instrumentation of the curl functions. It keeps, per handle, the header
/// list last configured on it, until the handle is executed or closed.
pub struct CurlPlugin {
    pending: HashMap<i64, Vec<String>>,
}

impl View for CurlPlugin {
    type V = Map<i64, Seq<Seq<char>>>;

    closed spec fn view(&self) -> Map<i64, Seq<Seq<char>>> {
        self.pending@.map_values(|v: Vec<String>| list_view(v))
    }
}

impl Default for CurlPlugin {
    fn default() -> (r: Self)
        ensures
            r@ == Map::<i64, Seq<Seq<char>>>::empty(),
    {
        CurlPlugin::new()
    }
}

impl CurlPlugin {
    /// A plugin with no pending header list.
    pub fn new() -> (r: Self)
        ensures
            r@ == Map::<i64, Seq<Seq<char>>>::empty(),
    {
        let r = CurlPlugin { pending: HashMap::new() };
        assert(r@ =~= Map::<i64, Seq<Seq<char>>>::empty());
        r
    }

    /// The plugin matches no class: it instruments free functions only.
    pub fn class_names(&self) -> (r: Option<&'static [&'static str]>)
        ensures
            r is None,
    {
        None
    }

    /// The prefix of the function names that the plugin matches.
    pub fn function_name_prefix(&self) -> (r: Option<&'static str>)
        ensures
            r is Some && r->0@ == "curl_"@,
    {
        Some("curl_")
    }

    /// Whether the plugin matches a call: free functions whose name starts
    /// with its prefix.
    pub fn matches(&self, class_name: Option<&str>, function_name: &str) -> (r: bool)
        ensures
            r == (class_name is None && is_prefix("curl_"@, function_name@)),
    {
        match class_name {
            Some(_) => false,
            None => starts_with_text(function_name, "curl_"),
        }
    }

    /// The hook for a matched function; none for the functions the plugin
    /// does not instrument.
    pub fn hook(&self, _class_name: Option<&str>, function_name: &str) -> (r: Option<CurlHook>)
        ensures
            r == hook_for(function_name@),
    {
        proof {
            reveal_strlit("curl_setopt");
            reveal_strlit("curl_setopt_array");
            reveal_strlit("curl_exec");
            reveal_strlit("curl_close");
        }
        if text_eq(function_name, "curl_setopt") {
            Some(CurlHook::SetOpt)
        } else if text_eq(function_name, "curl_setopt_array") {
            Some(CurlHook::SetOptArray)
        } else if text_eq(function_name, "curl_exec") {
            Some(CurlHook::Exec)
        } else if text_eq(function_name, "curl_close") {
            Some(CurlHook::Close)
        } else {
            None
        }
    }

    fn remember(&mut self, resource: i64, headers: Vec<String>)
        ensures
            final(self)@ == old(self)@.insert(resource, list_view(headers)),
    {
        self.pending.insert(resource, headers);
        assert(self@ =~= old(self)@.insert(resource, list_view(headers)));
    }

    /// Before `curl_setopt(resource, option, value)`: a header list set with
    /// the header option is remembered for the handle; `value` is `None`
    /// when the value is not a list, which is then ignored.
    pub fn on_setopt(&mut self, resource: i64, option: i64, value: Option<Vec<String>>)
        ensures
            final(self)@ == (match value {
                Some(v) => if option == CURLOPT_HTTPHEADER {
                    old(self)@.insert(resource, list_view(v))
                } else {
                    old(self)@
                },
                None => old(self)@,
            }),
    {
        if option == CURLOPT_HTTPHEADER {
            if let Some(v) = value {
                self.remember(resource, v);
            }
        }
    }

    /// Before `curl_setopt_array(resource, options)`: `options` holds the
    /// entries whose key is an integer and whose value is a list. A header
    /// list among them is remembered for the handle.
    pub fn on_setopt_array(&mut self, resource: i64, options: &Vec<(i64, Vec<String>)>)
        ensures
            (forall|i: int| 0 <= i < options@.len() ==> options@[i].0 != CURLOPT_HTTPHEADER)
                ==> final(self)@ == old(self)@,
            forall|i: int|
                0 <= i < options@.len() && options@[i].0 == CURLOPT_HTTPHEADER && (forall|j: int|
                    0 <= j < i ==> options@[j].0 != CURLOPT_HTTPHEADER) ==> final(self)@ == old(
                    self,
                )@.insert(resource, list_view(#[trigger] options@[i].1)),
    {
        let n = options.len();
        let mut i: usize = 0;
        while i < n
            invariant
                n == options@.len(),
                i <= n,
                *self == *old(self),
                forall|j: int| 0 <= j < i ==> options@[j].0 != CURLOPT_HTTPHEADER,
            decreases n - i,
        {
            if options[i].0 == CURLOPT_HTTPHEADER {
                let headers = clone_list(&options[i].1);
                self.remember(resource, headers);
                assert(forall|k: int|
                    0 <= k < options@.len() && options@[k].0 == CURLOPT_HTTPHEADER && (forall|j: int|
                        0 <= j < k ==> options@[j].0 != CURLOPT_HTTPHEADER) ==> k == i);
                assert(options@[i as int].0 == CURLOPT_HTTPHEADER);
                return;
            }
            i = i + 1;
        }
    }

    /// Before `curl_close(resource)`: the handle's header list is dropped.
    pub fn on_close(&mut self, resource: i64)
        ensures
            final(self)@ == old(self)@.remove(resource),
    {
        self.pending.remove(&resource);
        assert(self@ =~= old(self)@.remove(resource));
    }

    /// Before `curl_exec(resource)`: takes the handle's header list (empty
    /// when none was configured) and appends the propagation header. The
    /// result is what is set on the handle before the real call proceeds.
    pub fn headers_for_exec(&mut self, resource: i64, token: &str) -> (r: Vec<String>)
        ensures
            final(self)@ == old(self)@.remove(resource),
            list_view(r) == (if old(self)@.contains_key(resource) {
                old(self)@[resource]
            } else {
                Seq::<Seq<char>>::empty()
            }).push(propagation_line(token@)),
    {
        let mut headers = match self.pending.remove(&resource) {
            Some(v) => v,
            None => Vec::new(),
        };
        let line = "sw8: ".to_owned().concat(token);
        proof {
            reveal_strlit("sw8: ");
        }
        let ghost before = headers@;
        headers.push(line);
        assert(self@ =~= old(self)@.remove(resource));
        assert(list_view(headers) =~= before.map_values(|s: String| s@).push(propagation_line(token@)));
        headers
    }
}

} // verus!
