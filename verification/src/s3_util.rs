//! Addresses of objects in S3 buckets.

use vstd::prelude::*;
use vstd::string::{StrSliceExecFns, StringExecFns};
use url::Url;

verus! {

/// The address of an object: the bucket and the key of the object in it.
#[derive(Debug)]
pub struct S3Uri {
    pub bucket: String,
    pub object: String,
}

/// What `url::Url::parse` makes of `input`: nothing where it is no absolute
/// URL, and else the host of the URL, if it has one, and its path.
pub uninterp spec fn parsed_url(input: Seq<char>) -> Option<(Option<Seq<char>>, Seq<char>)>;

/// The host and the path of a URL.
pub struct UrlParts {
    pub host: Option<String>,
    pub path: String,
}

impl View for UrlParts {
    type V = (Option<Seq<char>>, Seq<char>);

    open spec fn view(&self) -> (Option<Seq<char>>, Seq<char>) {
        (
            match self.host {
                Some(host) => Some(host@),
                None => None,
            },
            self.path@,
        )
    }
}

/// `url::Url::parse`, with `Url::host_str` and `Url::path` of the URL that
/// it gives. The three depend on the text alone, so the outcome is named.
#[verifier::external_body]
fn parse_url(input: &str) -> (r: Option<UrlParts>)
    ensures
        match parsed_url(input@) {
            Some(parts) => r matches Some(found) && found@ == parts,
            None => r is None,
        },
{
    let url = Url::parse(input).ok()?;
    Some(UrlParts { host: url.host_str().map(String::from), path: url.path().to_string() })
}

/// The number of `/` that `path` begins with.
pub open spec fn leading_slashes(path: Seq<char>) -> int
    decreases path.len(),
{
    if path.len() > 0 && path[0] == '/' {
        1 + leading_slashes(path.drop_first())
    } else {
        0
    }
}

/// The key of the object that the path of a URL names: the path without the
/// slashes that it begins with.
pub open spec fn object_key(path: Seq<char>) -> Seq<char> {
    path.skip(leading_slashes(path))
}

/// The address that the host and the path of a URL give, or why they give
/// none: the host is the bucket and must be there, and the path must hold
/// more than slashes.
pub open spec fn address_of(host: Option<Seq<char>>, path: Seq<char>) -> Result<
    (Seq<char>, Seq<char>),
    Seq<char>,
> {
    match host {
        None => Err("Invalid S3 URI, missing bucket name"@),
        Some(bucket) => if object_key(path).len() == 0 {
            Err("Invalid S3 URI, missing object"@)
        } else {
            Ok((bucket, object_key(path)))
        },
    }
}

/// The address that `input` is the text of, or why it is none.
pub open spec fn spec_parse(input: Seq<char>) -> Result<(Seq<char>, Seq<char>), Seq<char>> {
    match parsed_url(input) {
        None => Err("Invalid S3 URI"@),
        Some(parts) => address_of(parts.0, parts.1),
    }
}

/// Whether `result` is the address or the error that `expected` gives.
pub open spec fn is_outcome(
    result: Result<S3Uri, &'static str>,
    expected: Result<(Seq<char>, Seq<char>), Seq<char>>,
) -> bool {
    match expected {
        Ok((bucket, object)) => result matches Ok(uri) && uri.bucket@ == bucket && uri.object@
            == object,
        Err(message) => result matches Err(text) && text@ == message,
    }
}

/// The text of `path` without the slashes that it begins with.
pub fn trim_leading_slashes(path: &str) -> (object: String)
    ensures
        object@ == object_key(path@),
{
    let len: usize = path.unicode_len();
    let mut start: usize = 0;
    assert(path@.skip(0) =~= path@);
    while start < len && path.get_char(start) == '/'
        invariant
            len == path@.len(),
            start <= len,
            leading_slashes(path@) == start + leading_slashes(path@.skip(start as int)),
        decreases len - start,
    {
        assert(path@.skip(start as int).drop_first() =~= path@.skip(start + 1));
        start = start + 1;
    }
    assert(path@.skip(start as int) =~= path@.subrange(start as int, len as int));
    path.substring_char(start, len).to_owned()
}

impl S3Uri {
    /// The address that the host and the path of a URL give.
    pub fn from_url_parts(host: Option<String>, path: &str) -> (r: Result<S3Uri, &'static str>)
        ensures
            is_outcome(
                r,
                address_of(
                    match host {
                        Some(bucket) => Some(bucket@),
                        None => None,
                    },
                    path@,
                ),
            ),
    {
        let bucket = match host {
            Some(bucket) => bucket,
            None => {
                return Err("Invalid S3 URI, missing bucket name");
            },
        };
        let object = trim_leading_slashes(path);
        if object.as_str().unicode_len() == 0 {
            return Err("Invalid S3 URI, missing object");
        }
        Ok(S3Uri { bucket, object })
    }

    /// Reads an address of the form `s3://bucket/key`.
    pub fn parse(s: &str) -> (r: Result<S3Uri, &'static str>)
        ensures
            is_outcome(r, spec_parse(s@)),
    {
        match parse_url(s) {
            Some(parts) => S3Uri::from_url_parts(parts.host, parts.path.as_str()),
            None => Err("Invalid S3 URI"),
        }
    }

    /// The address as text: `s3://`, the bucket, a slash, the key and a
    /// closing parenthesis.
    pub fn to_string(&self) -> (text: String)
        ensures
            text@ == "s3://"@ + self.bucket@ + "/"@ + self.object@ + ")"@,
    {
        let mut text = "s3://".to_owned();
        text.append(self.bucket.as_str());
        text.append("/");
        text.append(self.object.as_str());
        text.append(")");
        text
    }
}

impl std::str::FromStr for S3Uri {
    type Err = &'static str;

    /// Reads an address of the form `s3://bucket/key`: the address or the
    /// error that `parse` gives.
    fn from_str(s: &str) -> (r: Result<Self, Self::Err>)
        ensures
            is_outcome(r, spec_parse(s@)),
    {
        S3Uri::parse(s)
    }
}

} // verus!
