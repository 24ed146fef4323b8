use vstd::prelude::*;

verus! {

/// The first index at or after `from` that holds `c`, or the length of `s`.
pub open spec fn find_char(s: Seq<char>, c: char, from: int) -> int
    decreases s.len() - from,
{
    if from >= s.len() {
        s.len() as int
    } else if s[from] == c {
        from
    } else {
        find_char(s, c, from + 1)
    }
}

/// The value of the first `name=value` pair among the `&`-separated pairs of
/// `u` that begin at or after `start`.
pub open spec fn param_from(u: Seq<char>, name: Seq<char>, start: int) -> Option<Seq<char>>
    decreases u.len() - start,
{
    let end = find_char(u, '&', start);
    let eq = find_char(u, '=', start);
    if eq < end && u.subrange(start, eq) == name {
        Some(u.subrange(eq + 1, end))
    } else if start <= end && end < u.len() {
        param_from(u, name, end + 1)
    } else {
        None
    }
}

/// The value of the query parameter `name` of the request target `u`: the
/// query is what follows the first `?`.
pub open spec fn query_param_spec(u: Seq<char>, name: Seq<char>) -> Option<Seq<char>> {
    let q = find_char(u, '?', 0);
    if q < u.len() {
        param_from(u, name, q + 1)
    } else {
        None
    }
}

/// The authorization code that a callback to `u` carries, if its `state`
/// parameter is `state`; otherwise the request is not the awaited callback.
pub open spec fn callback_code_spec(u: Seq<char>, state: Seq<char>) -> Option<Seq<char>> {
    if query_param_spec(u, "state"@) == Some(state) {
        query_param_spec(u, "code"@)
    } else {
        None
    }
}

/// What a listener waiting for `state` ends with when the requests `urls`
/// arrive in turn: the code of the first awaited callback among them.
pub open spec fn first_callback(urls: Seq<Seq<char>>, state: Seq<char>) -> Option<Seq<char>>
    decreases urls.len(),
{
    if urls.len() == 0 {
        None
    } else {
        match callback_code_spec(urls[0], state) {
            Some(c) => Some(c),
            None => first_callback(urls.drop_first(), state),
        }
    }
}

pub open spec fn opt_view(o: Option<String>) -> Option<Seq<char>> {
    match o {
        Some(s) => Some(s@),
        None => None,
    }
}

proof fn lemma_find_char_range(s: Seq<char>, c: char, from: int)
    requires
        0 <= from <= s.len(),
    ensures
        from <= find_char(s, c, from) <= s.len(),
    decreases s.len() - from,
{
    if from < s.len() && s[from] != c {
        lemma_find_char_range(s, c, from + 1);
    }
}

fn find_char_exec(s: &str, c: char, from: usize) -> (r: usize)
    requires
        from <= s@.len(),
    ensures
        r == find_char(s@, c, from as int),
{
    let n = s.unicode_len();
    let mut i = from;
    while i < n
        invariant
            from <= i <= n,
            n == s@.len(),
            find_char(s@, c, from as int) == find_char(s@, c, i as int),
        decreases n - i,
    {
        if s.get_char(i) == c {
            return i;
        }
        i = i + 1;
    }
    i
}

/// Whether the characters of `s` from `start` to `end` are those of `name`.
fn matches_at(s: &str, start: usize, end: usize, name: &str) -> (r: bool)
    requires
        start <= end <= s@.len(),
    ensures
        r == (s@.subrange(start as int, end as int) == name@),
{
    let n = name.unicode_len();
    if end - start != n {
        assert(s@.subrange(start as int, end as int).len() != name@.len());
        return false;
    }
    let mut k: usize = 0;
    while k < n
        invariant
            k <= n,
            n == name@.len(),
            end - start == n,
            start <= end <= s@.len(),
            forall|j: int| 0 <= j < k ==> s@[start + j] == name@[j],
        decreases n - k,
    {
        if s.get_char(start + k) != name.get_char(k) {
            assert(s@.subrange(start as int, end as int)[k as int] != name@[k as int]);
            return false;
        }
        k = k + 1;
    }
    assert(s@.subrange(start as int, end as int) =~= name@);
    true
}

fn param_value(u: &str, name: &str, from: usize) -> (r: Option<String>)
    requires
        from <= u@.len(),
    ensures
        opt_view(r) == param_from(u@, name@, from as int),
{
    let n = u.unicode_len();
    let mut start = from;
    loop
        invariant
            start <= n,
            n == u@.len(),
            param_from(u@, name@, from as int) == param_from(u@, name@, start as int),
        decreases n - start,
    {
        let end = find_char_exec(u, '&', start);
        let eq = find_char_exec(u, '=', start);
        proof {
            lemma_find_char_range(u@, '&', start as int);
            lemma_find_char_range(u@, '=', start as int);
        }
        if eq < end && matches_at(u, start, eq, name) {
            let v = u.substring_char(eq + 1, end);
            return Some(String::from_str(v));
        }
        if end < n {
            start = end + 1;
        } else {
            return None;
        }
    }
}

/// The value of the query parameter `name` of the request target `url`.
pub fn query_param(url: &str, name: &str) -> (r: Option<String>)
    ensures
        opt_view(r) == query_param_spec(url@, name@),
{
    let q = find_char_exec(url, '?', 0);
    proof {
        lemma_find_char_range(url@, '?', 0);
    }
    if q < url.unicode_len() {
        param_value(url, name, q + 1)
    } else {
        None
    }
}

/// Decides an inbound request to the callback listener: the authorization
/// code if the request carries `state=<expected_state>` and a code, `None`
/// for a request that the listener ignores.
pub fn callback_code(url: &str, expected_state: &str) -> (r: Option<String>)
    ensures
        opt_view(r) == callback_code_spec(url@, expected_state@),
{
    let state = query_param(url, "state");
    match state {
        Some(s) => {
            if matches_at(s.as_str(), 0, s.unicode_len(), expected_state) {
                assert(s@.subrange(0, s@.len() as int) =~= s@);
                query_param(url, "code")
            } else {
                assert(s@.subrange(0, s@.len() as int) =~= s@);
                None
            }
        },
        None => None,
    }
}

/// What a request to the callback listener means.
pub enum CallbackRequest {
    /// Not the awaited callback: its `state` is missing or differs.
    Ignored,
    /// The awaited callback, with its authorization code.
    Authorized(String),
    /// The awaited callback without a code: the provider refused.
    Refused,
}

/// Whether `r` is what the request target `u` means to a listener waiting
/// for `state`.
pub open spec fn callback_request_spec(u: Seq<char>, state: Seq<char>, r: CallbackRequest) -> bool {
    if query_param_spec(u, "state"@) != Some(state) {
        r is Ignored
    } else {
        match query_param_spec(u, "code"@) {
            Some(c) => r matches CallbackRequest::Authorized(code) && code@ == c,
            None => r is Refused,
        }
    }
}

/// Decides an inbound request to the callback listener: ignored unless it
/// carries `state=<expected_state>`; then authorized with its code, or
/// refused where it has none. Only an ignored request leaves the wait open.
pub fn classify_callback(url: &str, expected_state: &str) -> (r: CallbackRequest)
    ensures
        callback_request_spec(url@, expected_state@, r),
{
    let state = query_param(url, "state");
    match state {
        Some(s) => {
            assert(s@.subrange(0, s@.len() as int) =~= s@);
            if matches_at(s.as_str(), 0, s.unicode_len(), expected_state) {
                match query_param(url, "code") {
                    Some(c) => CallbackRequest::Authorized(c),
                    None => CallbackRequest::Refused,
                }
            } else {
                CallbackRequest::Ignored
            }
        },
        None => CallbackRequest::Ignored,
    }
}

/// A request whose `state` differs from the awaited one never ends the wait
/// and never supplies the code: with it before or after the awaited
/// callback, the listener ends with the awaited callback's code.
pub proof fn lemma_mismatched_state_ignored(
    bad: Seq<char>,
    good: Seq<char>,
    state: Seq<char>,
    other: Seq<char>,
)
    requires
        query_param_spec(bad, "state"@) == Some(other),
        other != state,
        callback_code_spec(good, state) is Some,
    ensures
        callback_code_spec(bad, state) is None,
        forall|r: CallbackRequest| #[trigger] callback_request_spec(bad, state, r) ==> r is Ignored,
        first_callback(seq![bad, good], state) == callback_code_spec(good, state),
        first_callback(seq![good, bad], state) == callback_code_spec(good, state),
{
    let s1 = seq![bad, good];
    let s2 = seq![good, bad];
    assert(s1[0] == bad);
    assert(s1.drop_first() =~= seq![good]);
    assert(seq![good][0] == good);
    assert(first_callback(seq![good], state) == callback_code_spec(good, state));
    assert(s2[0] == good);
}

/// The address to bind the listener to: `callback_url` without a leading
/// `http://` or `https://`.
pub open spec fn bind_address_spec(callback_url: Seq<char>) -> Seq<char> {
    if callback_url.len() >= 7 && callback_url.subrange(0, 7) == "http://"@ {
        callback_url.subrange(7, callback_url.len() as int)
    } else if callback_url.len() >= 8 && callback_url.subrange(0, 8) == "https://"@ {
        callback_url.subrange(8, callback_url.len() as int)
    } else {
        callback_url
    }
}

/// The host:port to listen on for a redirect URI, its scheme stripped.
pub fn bind_address(callback_url: &str) -> (r: String)
    ensures
        r@ == bind_address_spec(callback_url@),
{
    let n = callback_url.unicode_len();
    proof {
        reveal_strlit("http://");
        reveal_strlit("https://");
    }
    if n >= 7 && matches_at(callback_url, 0, 7, "http://") {
        String::from_str(callback_url.substring_char(7, n))
    } else if n >= 8 && matches_at(callback_url, 0, 8, "https://") {
        String::from_str(callback_url.substring_char(8, n))
    } else {
        String::from_str(callback_url)
    }
}

} // verus!
