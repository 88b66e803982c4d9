//! Object storage: where a bucket lives and how its paths are written.

use vstd::prelude::*;
use vstd::string::StringExecFns;
use crate::text::{chars_of, find_char, first_index_of, has_prefix, matches_at, slice_chars, string_of};

verus! {

/// Where a bucket lives and how it is reached.
#[derive(Debug, Clone)]
pub struct S3Config {
    /// Name of the bucket.
    pub bucket: String,
    /// Region.
    pub region: String,
    /// Endpoint, where it is not the usual one.
    pub endpoint: Option<String>,
    /// Whether the bucket is named in the path.
    pub path_style: bool,
    /// The most requests at a time.
    pub max_connections: usize,
    /// Seconds after which a request is given up.
    pub timeout_secs: u64,
}

impl Default for S3Config {
    fn default() -> (c: S3Config)
        ensures
            c.bucket@.len() == 0,
            c.region@ == "us-east-1"@,
            c.endpoint is None,
            !c.path_style,
            c.max_connections == 8,
            c.timeout_secs == 30,
    {
        S3Config {
            bucket: String::new(),
            region: String::from_str("us-east-1"),
            endpoint: None,
            path_style: false,
            max_connections: 8,
            timeout_secs: 30,
        }
    }
}

impl S3Config {
    /// The configuration of a bucket in a region, else the defaults.
    pub fn new(bucket: &str, region: &str) -> (c: Self)
        ensures
            c.bucket@ == bucket@,
            c.region@ == region@,
            c.endpoint is None,
            !c.path_style,
            c.max_connections == 8,
            c.timeout_secs == 30,
    {
        S3Config {
            bucket: String::from_str(bucket),
            region: String::from_str(region),
            endpoint: None,
            path_style: false,
            max_connections: 8,
            timeout_secs: 30,
        }
    }

    /// The same configuration with the endpoint.
    pub fn with_endpoint(self, endpoint: &str) -> (c: Self)
        ensures
            c.endpoint is Some && c.endpoint->0@ == endpoint@,
            c.bucket == self.bucket,
            c.region == self.region,
            c.path_style == self.path_style,
            c.max_connections == self.max_connections,
            c.timeout_secs == self.timeout_secs,
    {
        let mut c = self;
        c.endpoint = Some(String::from_str(endpoint));
        c
    }

    /// The same configuration with the path style.
    pub fn with_path_style(self, path_style: bool) -> (c: Self)
        ensures
            c.path_style == path_style,
            c.bucket == self.bucket,
            c.region == self.region,
            c.endpoint == self.endpoint,
            c.max_connections == self.max_connections,
            c.timeout_secs == self.timeout_secs,
    {
        let mut c = self;
        c.path_style = path_style;
        c
    }
}

/// An object of a bucket.
#[derive(Debug, Clone)]
pub struct S3Object {
    /// The key.
    pub key: String,
    /// The size, in bytes.
    pub size: u64,
    /// The entity tag.
    pub etag: Option<String>,
    /// When it was last changed.
    pub last_modified: Option<String>,
}

/// What goes wrong with object storage.
#[derive(Debug)]
pub enum S3Error {
    /// Object storage is not built in.
    NotEnabled(String),
    /// The store could not be reached.
    Connection(String),
    /// There is no such object.
    NotFound(String),
    /// The store refused.
    AccessDenied(String),
    /// Anything else.
    Other(String),
}

impl S3Error {
    /// The error as a sentence.
    pub open spec fn spec_message(&self) -> Seq<char> {
        match self {
            S3Error::NotEnabled(m) => "Feature not enabled: "@ + m@,
            S3Error::Connection(m) => "Connection error: "@ + m@,
            S3Error::NotFound(m) => "Not found: "@ + m@,
            S3Error::AccessDenied(m) => "Access denied: "@ + m@,
            S3Error::Other(m) => "S3 error: "@ + m@,
        }
    }

    /// The error as a sentence.
    pub fn message(&self) -> (s: String)
        ensures
            s@ == self.spec_message(),
    {
        let (head, tail) = match self {
            S3Error::NotEnabled(m) => ("Feature not enabled: ", m),
            S3Error::Connection(m) => ("Connection error: ", m),
            S3Error::NotFound(m) => ("Not found: ", m),
            S3Error::AccessDenied(m) => ("Access denied: ", m),
            S3Error::Other(m) => ("S3 error: ", m),
        };
        let mut s = String::from_str(head);
        s.append(tail.as_str());
        s
    }
}

/// The adapter of a build without object storage: it knows its bucket and
/// refuses every request.
#[derive(Debug)]
pub struct S3Adapter {
    config: S3Config,
}

impl S3Adapter {
    /// The configuration.
    pub closed spec fn spec_config(&self) -> S3Config {
        self.config
    }

    /// The adapter of a configuration.
    pub fn new(config: S3Config) -> (a: Self)
        ensures
            a.spec_config() == config,
    {
        S3Adapter { config }
    }

    /// Lists objects: refused.
    pub fn list_objects(&self, prefix: &str) -> (r: Result<Vec<S3Object>, S3Error>)
        ensures
            r is Err && r->Err_0 is NotEnabled,
    {
        Err(
            S3Error::NotEnabled(
                String::from_str(
                    "Enable the 'aws_s3' feature to use S3. Add `features = [\"aws_s3\"]` to your Cargo.toml.",
                ),
            ),
        )
    }

    /// Reads an object: refused.
    pub fn read_object(&self, key: &str) -> (r: Result<Vec<u8>, S3Error>)
        ensures
            r is Err && r->Err_0 is NotEnabled,
    {
        Err(S3Error::NotEnabled(String::from_str("Enable the 'aws_s3' feature to use S3.")))
    }

    /// Streams an object: refused.
    pub fn stream_object(&self, key: &str, chunk_size: usize) -> (r: Result<(), S3Error>)
        ensures
            r is Err && r->Err_0 is NotEnabled,
    {
        Err(S3Error::NotEnabled(String::from_str("Enable the 'aws_s3' feature to use S3.")))
    }

    /// Asks whether an object is there: refused.
    pub fn object_exists(&self, key: &str) -> (r: Result<bool, S3Error>)
        ensures
            r is Err && r->Err_0 is NotEnabled,
    {
        Err(S3Error::NotEnabled(String::from_str("Enable the 'aws_s3' feature to use S3.")))
    }

    /// The bucket.
    pub fn bucket(&self) -> (b: &str)
        ensures
            b@ == self.spec_config().bucket@,
    {
        self.config.bucket.as_str()
    }

    /// The region.
    pub fn region(&self) -> (r: &str)
        ensures
            r@ == self.spec_config().region@,
    {
        self.config.region.as_str()
    }
}

/// The bucket and the key of a URI `s3://bucket/key`: the bucket ends at
/// the first slash behind the scheme, the key is all that follows and is
/// empty where nothing does.
pub open spec fn s3_uri_parts(uri: Seq<char>) -> Option<(Seq<char>, Seq<char>)> {
    if has_prefix(uri, "s3://"@) {
        let path = uri.skip(5);
        let at = first_index_of(path, '/');
        if at < path.len() {
            Some((path.take(at), path.skip(at + 1)))
        } else {
            Some((path, Seq::empty()))
        }
    } else {
        None
    }
}

/// The bucket and the key of a URI `s3://bucket/key`.
pub fn parse_s3_uri(uri: &str) -> (r: Option<(String, String)>)
    ensures
        match r {
            Some(parts) => s3_uri_parts(uri@) == Some((parts.0@, parts.1@)),
            None => s3_uri_parts(uri@) is None,
        },
{
    let chars = chars_of(uri);
    let scheme = chars_of("s3://");
    proof {
        reveal_strlit("s3://");
    }
    if !matches_at(&chars, &scheme, 0) {
        return None;
    }
    let at = find_char(&chars, '/', 5);
    let bucket = slice_chars(&chars, 5, at);
    let key = if at < chars.len() {
        slice_chars(&chars, at + 1, chars.len())
    } else {
        Vec::new()
    };
    proof {
        let path = uri@.skip(5);
        assert(path.take(at - 5) =~= chars@.subrange(5, at as int));
        if at < chars.len() {
            assert(path.skip(at - 5 + 1) =~= chars@.subrange(at + 1, chars.len() as int));
        } else {
            assert(path.take(at - 5) =~= path);
            assert(key@ =~= Seq::<char>::empty());
        }
    }
    Some((string_of(&bucket), string_of(&key)))
}

/// Whether a path is written as an S3 URI, with `s3://` or `s3a://`.
pub fn is_s3_path(path: &str) -> (r: bool)
    ensures
        r == (has_prefix(path@, "s3://"@) || has_prefix(path@, "s3a://"@)),
{
    let chars = chars_of(path);
    let a = chars_of("s3://");
    let b = chars_of("s3a://");
    matches_at(&chars, &a, 0) || matches_at(&chars, &b, 0)
}

} // verus!
