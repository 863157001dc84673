//! Backend locator: the base URL of the backend and the trust policy used to
//! reach it.
use vstd::prelude::*;

use crate::text::{join2, starts_with, tail_from};

verus! {

/// The address used when no backend URL is configured.
pub open spec fn default_base_url() -> Seq<char> {
    "https://localhost:8080"@
}

/// Where the backend lives and how its certificates are treated.
///
/// The backend runs on self-managed PKI, so invalid and self-signed
/// certificates are accepted on purpose.
#[derive(Clone, Debug, PartialEq, Eq)]
pub struct BackendTarget {
    pub base_url: String,
    pub accept_invalid_certs: bool,
}

/// The configured URL exactly as given, or the default when none is.
pub open spec fn resolved_base_url(configured: Option<Seq<char>>) -> Seq<char> {
    match configured {
        Some(u) => u,
        None => default_base_url(),
    }
}

impl BackendTarget {
    /// Builds the target from the configured backend URL, if any. Never fails.
    pub fn resolve(configured: Option<String>) -> (r: BackendTarget)
        ensures
            r.base_url@ == resolved_base_url(
                match configured {
                    Some(u) => Some(u@),
                    None => None,
                },
            ),
            r.accept_invalid_certs,
    {
        let base_url = match configured {
            Some(u) => u,
            None => String::from_str("https://localhost:8080"),
        };
        BackendTarget { base_url, accept_invalid_certs: true }
    }
}

/// The WebSocket form of a backend base URL: `https://` becomes `wss://`,
/// `http://` becomes `ws://`, and any other URL is kept as it is.
pub open spec fn ws_base_url(base: Seq<char>) -> Seq<char> {
    if "https://"@.is_prefix_of(base) {
        "wss://"@ + base.skip(8)
    } else if "http://"@.is_prefix_of(base) {
        "ws://"@ + base.skip(7)
    } else {
        base
    }
}

/// Backend URL of a chat session relay.
pub open spec fn chat_ws_url(base: Seq<char>, session_id: Seq<char>, user_id: Seq<char>) -> Seq<char> {
    ws_base_url(base) + "/ws?session_id="@ + session_id + "&user_id="@ + user_id
}

/// Backend URL of a task-progress relay, for one task or for all of them.
pub open spec fn task_ws_url(base: Seq<char>, task_id: Option<Seq<char>>) -> Seq<char> {
    match task_id {
        Some(t) => ws_base_url(base) + "/ws/task-progress/"@ + t,
        None => ws_base_url(base) + "/ws/task-progress"@,
    }
}

impl BackendTarget {
    /// The base URL with its HTTP scheme swapped for the WebSocket one.
    pub fn ws_base(&self) -> (r: String)
        ensures
            r@ == ws_base_url(self.base_url@),
    {
        let base = self.base_url.as_str();
        proof {
            reveal_strlit("https://");
            reveal_strlit("http://");
        }
        if starts_with(base, "https://") {
            let rest = tail_from(base, 8);
            join2("wss://", rest.as_str())
        } else if starts_with(base, "http://") {
            let rest = tail_from(base, 7);
            join2("ws://", rest.as_str())
        } else {
            String::from_str(base)
        }
    }

    /// Backend URL for a chat session relay keyed by session and user.
    pub fn chat_ws_url(&self, session_id: &str, user_id: &str) -> (r: String)
        ensures
            r@ == chat_ws_url(self.base_url@, session_id@, user_id@),
    {
        let mut r = self.ws_base();
        r.append("/ws?session_id=");
        r.append(session_id);
        r.append("&user_id=");
        r.append(user_id);
        r
    }

    /// Backend URL for a task-progress relay.
    pub fn task_ws_url(&self, task_id: Option<&str>) -> (r: String)
        ensures
            r@ == task_ws_url(
                self.base_url@,
                match task_id {
                    Some(t) => Some(t@),
                    None => None,
                },
            ),
    {
        let mut r = self.ws_base();
        match task_id {
            Some(t) => {
                r.append("/ws/task-progress/");
                r.append(t);
            },
            None => {
                r.append("/ws/task-progress");
            },
        }
        r
    }
}

/// The port this server listens on when none is configured.
pub const DEFAULT_LISTEN_PORT: u16 = 3000;

/// A decimal digit.
pub open spec fn is_digit(c: char) -> bool {
    48 <= (c as u32) <= 57
}

/// Every character is a decimal digit.
pub open spec fn all_digits(s: Seq<char>) -> bool {
    forall|i: int| 0 <= i < s.len() ==> is_digit(#[trigger] s[i])
}

/// The value of a string of decimal digits.
pub open spec fn digits_value(s: Seq<char>) -> int
    decreases s.len(),
{
    if s.len() == 0 {
        0
    } else {
        digits_value(s.drop_last()) * 10 + ((s.last() as u32) - 48)
    }
}

/// The digits of a port number: the text without a leading `+`.
pub open spec fn port_digits(s: Seq<char>) -> Seq<char> {
    if s.len() > 1 && s[0] == '+' {
        s.skip(1)
    } else {
        s
    }
}

/// A port number written in decimal, with an optional leading `+`, as
/// `str::parse::<u16>` reads it: at least one digit, nothing else, and a
/// value that fits in 16 bits.
pub open spec fn parsed_port(s: Seq<char>) -> Option<u16> {
    let d = port_digits(s);
    if d.len() > 0 && all_digits(d) && digits_value(d) <= 65535 {
        Some(digits_value(d) as u16)
    } else {
        None
    }
}

/// The listen port: the configured one when it reads as a port, else the
/// default.
pub open spec fn listen_port_of(configured: Option<Seq<char>>) -> u16 {
    match configured {
        Some(s) => match parsed_port(s) {
            Some(p) => p,
            None => DEFAULT_LISTEN_PORT,
        },
        None => DEFAULT_LISTEN_PORT,
    }
}

proof fn lemma_digits_value_grows(s: Seq<char>, k: int)
    requires
        0 <= k <= s.len(),
        forall|i: int| 0 <= i < s.len() ==> is_digit(#[trigger] s[i]),
    ensures
        0 <= digits_value(s.take(k)) <= digits_value(s),
    decreases s.len(),
{
    if s.len() > 0 {
        let init = s.drop_last();
        assert forall|i: int| 0 <= i < init.len() implies is_digit(#[trigger] init[i]) by {
            assert(init[i] == s[i]);
        }
        if k == s.len() {
            assert(s.take(k) =~= s);
            lemma_digits_value_grows(init, init.len() as int);
            assert(init.take(init.len() as int) =~= init);
        } else {
            lemma_digits_value_grows(init, k);
            assert(init.take(k) =~= s.take(k));
            lemma_digits_value_grows(init, init.len() as int);
            assert(init.take(init.len() as int) =~= init);
            assert(is_digit(s[s.len() - 1]));
        }
    }
}

/// Reads a port number written in decimal.
pub fn parse_port(s: &str) -> (r: Option<u16>)
    ensures
        r == parsed_port(s@),
{
    let n = s.unicode_len();
    let start: usize = if n > 1 && s.get_char(0) == '+' {
        1
    } else {
        0
    };
    let ghost d = s@.skip(start as int);
    assert(s@.skip(0) =~= s@);
    assert(d == port_digits(s@));
    if n == start {
        return None;
    }
    let mut value: u32 = 0;
    let mut i: usize = start;
    while i < n
        invariant
            n == s@.len(),
            start <= i <= n,
            start < n,
            d == s@.skip(start as int),
            d == port_digits(s@),
            d.len() == n - start,
            value <= 65535,
            value == digits_value(d.take(i - start)),
            forall|k: int| 0 <= k < i - start ==> is_digit(#[trigger] d[k]),
        decreases n - i,
    {
        let c = s.get_char(i);
        assert(d[i - start] == c);
        let code = c as u32;
        if code < 48 || code > 57 {
            assert(!is_digit(d[i - start]));
            assert(!all_digits(d));
            return None;
        }
        assert(d.take(i - start + 1).drop_last() =~= d.take(i - start));
        let next = value * 10 + (code - 48);
        if next > 65535 {
            proof {
                assert(d.take(i - start + 1).last() == c);
                assert(digits_value(d.take(i - start + 1)) == next);
                if all_digits(d) {
                    lemma_digits_value_grows(d, i - start + 1);
                }
            }
            return None;
        }
        value = next;
        i = i + 1;
    }
    assert(d.take(n - start) =~= d);
    Some(value as u16)
}

/// The port to listen on: the configured value when it reads as a port,
/// else the default. Never fails.
pub fn listen_port(configured: Option<&str>) -> (r: u16)
    ensures
        r == listen_port_of(
            match configured {
                Some(s) => Some(s@),
                None => None,
            },
        ),
{
    match configured {
        Some(s) => match parse_port(s) {
            Some(p) => p,
            None => DEFAULT_LISTEN_PORT,
        },
        None => DEFAULT_LISTEN_PORT,
    }
}

} // verus!
