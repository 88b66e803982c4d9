//! HTTP for plugins: only URLs that begin with an allowed prefix are
//! served, and every answer is the same canned one.

use vstd::prelude::*;
use vstd::string::StringExecFns;
use crate::text::{chars_of, has_prefix, matches_at};

verus! {

/// The method of a request.
#[derive(Debug, Clone, Copy, PartialEq, Eq, Structural)]
pub enum HttpMethod {
    /// GET.
    Get,
    /// POST.
    Post,
    /// PUT.
    Put,
    /// DELETE.
    Delete,
}

impl HttpMethod {
    /// The method of a number: 1, 2 and 3 are Post, Put and Delete, every
    /// other number is Get.
    pub open spec fn spec_from_u32(val: u32) -> HttpMethod {
        if val == 1 {
            HttpMethod::Post
        } else if val == 2 {
            HttpMethod::Put
        } else if val == 3 {
            HttpMethod::Delete
        } else {
            HttpMethod::Get
        }
    }

    /// The method of a number.
    pub fn from_u32(val: u32) -> (m: HttpMethod)
        ensures
            m == Self::spec_from_u32(val),
    {
        match val {
            1 => HttpMethod::Post,
            2 => HttpMethod::Put,
            3 => HttpMethod::Delete,
            _ => HttpMethod::Get,
        }
    }
}

/// The answer to a request.
#[derive(Debug, Clone)]
pub struct HttpResponse {
    /// The status code.
    pub status_code: u16,
    /// The body.
    pub body: Vec<u8>,
    /// The headers, each a name and a value.
    pub headers: Vec<(String, String)>,
}

/// Whether the URL begins with one of the prefixes.
pub open spec fn url_allowed(prefixes: Seq<Seq<char>>, url: Seq<char>) -> bool {
    exists|i: int| 0 <= i < prefixes.len() && has_prefix(url, #[trigger] prefixes[i])
}

/// The prefixes that are allowed where nothing else is said.
pub open spec fn default_allow_list() -> Seq<Seq<char>> {
    seq!["http://localhost"@, "https://api.example.com"@, "https://httpbin.org"@]
}

/// The message for a URL that is not allowed.
pub open spec fn not_allowed_message() -> Seq<char> {
    "URL not in allow-list"@
}

/// Whether `r` is the canned answer: status 200, a small JSON body and
/// one header that names its type.
pub open spec fn is_canned(r: HttpResponse) -> bool {
    &&& r.status_code == 200
    &&& r.body@ == "{\"success\": true}"@.map_values(|c: char| c as u8)
    &&& r.headers@.len() == 1
    &&& r.headers@[0].0@ == "content-type"@
    &&& r.headers@[0].1@ == "application/json"@
}

/// HTTP for plugins.
pub struct HttpAPI {
    allow_list: Vec<Vec<char>>,
    calls: u64,
}

impl HttpAPI {
    /// The allowed prefixes.
    pub closed spec fn prefixes(&self) -> Seq<Seq<char>> {
        self.allow_list@.map_values(|p: Vec<char>| p@)
    }

    /// The number of requests made so far.
    pub closed spec fn spec_calls(&self) -> u64 {
        self.calls
    }

    /// HTTP with the default allow list.
    pub fn new() -> (h: HttpAPI)
        ensures
            h.prefixes() == default_allow_list(),
            h.spec_calls() == 0,
    {
        let mut allow_list: Vec<Vec<char>> = Vec::new();
        allow_list.push(chars_of("http://localhost"));
        allow_list.push(chars_of("https://api.example.com"));
        allow_list.push(chars_of("https://httpbin.org"));
        let h = HttpAPI { allow_list, calls: 0 };
        assert(h.prefixes() =~= default_allow_list());
        h
    }

    /// Adds a prefix to the allow list.
    pub fn allow_prefix(&mut self, prefix: &str)
        ensures
            final(self).prefixes() == old(self).prefixes().push(prefix@),
            final(self).spec_calls() == old(self).spec_calls(),
    {
        self.allow_list.push(chars_of(prefix));
        assert(self.prefixes() =~= old(self).prefixes().push(prefix@));
    }

    /// Whether the URL begins with an allowed prefix.
    pub fn is_url_allowed(&self, url: &str) -> (r: bool)
        ensures
            r == url_allowed(self.prefixes(), url@),
    {
        let chars = chars_of(url);
        let mut i: usize = 0;
        while i < self.allow_list.len()
            invariant
                i <= self.allow_list.len(),
                chars@ == url@,
                forall|j: int| 0 <= j < i ==> !has_prefix(url@, #[trigger] self.prefixes()[j]),
            decreases self.allow_list.len() - i,
        {
            if matches_at(&chars, &self.allow_list[i], 0) {
                assert(has_prefix(url@, self.prefixes()[i as int]));
                return true;
            }
            i = i + 1;
        }
        false
    }

    /// The canned body as bytes.
    fn canned_body() -> (body: Vec<u8>)
        ensures
            body@ == "{\"success\": true}"@.map_values(|c: char| c as u8),
    {
        proof {
            reveal_strlit("{\"success\": true}");
        }
        let mut body: Vec<u8> = Vec::new();
        body.push(123);
        body.push(34);
        body.push(115);
        body.push(117);
        body.push(99);
        body.push(99);
        body.push(101);
        body.push(115);
        body.push(115);
        body.push(34);
        body.push(58);
        body.push(32);
        body.push(116);
        body.push(114);
        body.push(117);
        body.push(101);
        body.push(125);
        assert(body@ =~= "{\"success\": true}"@.map_values(|c: char| c as u8));
        body
    }

    /// Serves a request: the canned answer for an allowed URL, an error
    /// for any other. The request is counted either way.
    pub fn request(&mut self, method: HttpMethod, url: &str, body: Option<&[u8]>, timeout_ms: u64) -> (r: Result<
        HttpResponse,
        String,
    >)
        ensures
            final(self).prefixes() == old(self).prefixes(),
            final(self).spec_calls() == old(self).spec_calls().wrapping_add(1),
            r is Ok <==> url_allowed(old(self).prefixes(), url@),
            match r {
                Ok(resp) => is_canned(resp),
                Err(e) => e@ == not_allowed_message(),
            },
    {
        self.calls = self.calls.wrapping_add(1);
        if !self.is_url_allowed(url) {
            return Err(String::from_str("URL not in allow-list"));
        }
        let mut headers: Vec<(String, String)> = Vec::new();
        headers.push((String::from_str("content-type"), String::from_str("application/json")));
        Ok(HttpResponse { status_code: 200, body: Self::canned_body(), headers })
    }

    /// A GET request with a timeout of five seconds.
    pub fn get(&mut self, url: &str) -> (r: Result<HttpResponse, String>)
        ensures
            final(self).prefixes() == old(self).prefixes(),
            final(self).spec_calls() == old(self).spec_calls().wrapping_add(1),
            r is Ok <==> url_allowed(old(self).prefixes(), url@),
            match r {
                Ok(resp) => is_canned(resp),
                Err(e) => e@ == not_allowed_message(),
            },
    {
        self.request(HttpMethod::Get, url, None, 5000)
    }

    /// A POST request with a timeout of five seconds.
    pub fn post(&mut self, url: &str, body: &[u8]) -> (r: Result<HttpResponse, String>)
        ensures
            final(self).prefixes() == old(self).prefixes(),
            final(self).spec_calls() == old(self).spec_calls().wrapping_add(1),
            r is Ok <==> url_allowed(old(self).prefixes(), url@),
            match r {
                Ok(resp) => is_canned(resp),
                Err(e) => e@ == not_allowed_message(),
            },
    {
        self.request(HttpMethod::Post, url, Some(body), 5000)
    }

    /// The number of requests made so far.
    pub fn get_call_count(&self) -> (n: u64)
        ensures
            n == self.spec_calls(),
    {
        self.calls
    }

    /// The status that the plugin sees: the status code of the answer, or
    /// -3 for a request that was refused.
    pub fn status_for_plugin(r: &Result<HttpResponse, String>) -> (code: i32)
        ensures
            code == match r {
                Ok(resp) => resp.status_code as i32,
                Err(_) => -3i32,
            },
    {
        match r {
            Ok(resp) => resp.status_code as i32,
            Err(_) => -3,
        }
    }
}

} // verus!
