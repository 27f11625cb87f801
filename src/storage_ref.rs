//! Object addresses: a bucket and a key, written `s3://bucket/key` or in the
//! regional HTTPS form `https://s3.us-east-1.amazonaws.com/bucket/key`.

use vstd::prelude::*;

use crate::error::PipelineError;
use crate::text::{chars_of, has_prefix, string_from_range};

verus! {

broadcast use vstd::string::group_string_axioms;

/// The scheme that `format_s3_uri` writes and `parse_s3_uri` accepts.
pub const S3_URI_SCHEME: &'static str = "s3://";

/// The HTTPS form that `parse_s3_uri` also accepts.
pub const S3_HTTPS_PREFIX: &'static str = "https://s3.us-east-1.amazonaws.com/";

/// The address of one stored object.
#[derive(Debug, Clone, PartialEq, Eq)]
pub struct StorageRef {
    pub bucket: String,
    pub key: String,
}

/// A `StorageRef` as character sequences.
pub struct StorageRefView {
    pub bucket: Seq<char>,
    pub key: Seq<char>,
}

impl StorageRefView {
    /// A usable address: a bucket without `/`, and a non-empty key.
    pub open spec fn is_valid(self) -> bool {
        &&& !self.bucket.contains('/')
        &&& self.key.len() > 0
    }

    /// `bucket/key`.
    pub open spec fn joined(self) -> Seq<char> {
        self.bucket + seq!['/'] + self.key
    }
}

impl StorageRef {
    /// A copy of the address.
    pub fn duplicate(&self) -> (r: StorageRef)
        ensures
            r == *self,
    {
        StorageRef { bucket: self.bucket.clone(), key: self.key.clone() }
    }
}

impl View for StorageRef {
    type V = StorageRefView;

    open spec fn view(&self) -> StorageRefView {
        StorageRefView { bucket: self.bucket@, key: self.key@ }
    }
}

/// What is left of `uri` once one recognised prefix is taken off, the HTTPS
/// form being tried first; `uri` itself where neither prefix is there.
pub open spec fn uri_rest(uri: Seq<char>) -> Seq<char> {
    if S3_HTTPS_PREFIX@.is_prefix_of(uri) {
        uri.skip(S3_HTTPS_PREFIX@.len() as int)
    } else if S3_URI_SCHEME@.is_prefix_of(uri) {
        uri.skip(S3_URI_SCHEME@.len() as int)
    } else {
        uri
    }
}

/// The address that `uri` names, if its remainder is `bucket/key` for a
/// valid pair (there is at most one such pair).
pub open spec fn parsed_ref(uri: Seq<char>) -> Option<StorageRefView> {
    let rest = uri_rest(uri);
    if exists|v: StorageRefView| v.is_valid() && v.joined() == rest {
        Some(choose|v: StorageRefView| v.is_valid() && v.joined() == rest)
    } else {
        None
    }
}

/// The scheme form of an address.
pub open spec fn s3_uri(v: StorageRefView) -> Seq<char> {
    S3_URI_SCHEME@ + v.joined()
}

/// Two valid addresses that join to the same text are the same address.
pub proof fn lemma_joined_unique(v: StorageRefView, w: StorageRefView)
    requires
        v.is_valid(),
        w.is_valid(),
        v.joined() == w.joined(),
    ensures
        v == w,
{
    let s = v.joined();
    let i = v.bucket.len() as int;
    let j = w.bucket.len() as int;
    assert(s[i] == '/');
    assert(s[j] == '/');
    if i < j {
        assert(s[i] == w.bucket[i]);
        assert(w.bucket.contains('/'));
    } else if j < i {
        assert(s[j] == v.bucket[j]);
        assert(v.bucket.contains('/'));
    }
    assert(v.bucket =~= s.take(i));
    assert(w.bucket =~= s.take(j));
    assert(v.key =~= s.skip(i + 1));
    assert(w.key =~= s.skip(j + 1));
}

/// Formatting a valid address and parsing the text gives the address back.
pub proof fn lemma_parse_format_round_trip(v: StorageRefView)
    requires
        v.is_valid(),
    ensures
        parsed_ref(s3_uri(v)) == Some(v),
{
    let uri = s3_uri(v);
    reveal_strlit("s3://");
    reveal_strlit("https://s3.us-east-1.amazonaws.com/");
    assert(uri[0] == 's');
    assert(!S3_HTTPS_PREFIX@.is_prefix_of(uri)) by {
        if S3_HTTPS_PREFIX@.is_prefix_of(uri) {
            assert(uri.subrange(0, S3_HTTPS_PREFIX@.len() as int)[0] == 'h');
        }
    }
    assert(S3_URI_SCHEME@ =~= uri.subrange(0, S3_URI_SCHEME@.len() as int));
    assert(uri_rest(uri) =~= v.joined());
    let w = choose|w: StorageRefView| w.is_valid() && w.joined() == uri_rest(uri);
    lemma_joined_unique(v, w);
}

/// Number of characters that `uri_rest` takes off the front.
fn prefix_len(chars: &Vec<char>) -> (n: usize)
    ensures
        n <= chars.len(),
        chars@.skip(n as int) == uri_rest(chars@),
{
    if has_prefix(chars, S3_HTTPS_PREFIX) {
        S3_HTTPS_PREFIX.unicode_len()
    } else if has_prefix(chars, S3_URI_SCHEME) {
        S3_URI_SCHEME.unicode_len()
    } else {
        assert(chars@.skip(0) =~= chars@);
        0
    }
}

/// Splits an object address into bucket and key. One recognised prefix is
/// taken off (the HTTPS form first, then `s3://`), and what is left is split
/// at its first `/` into bucket and key. The address is refused when no `/`
/// is left, or the key would be empty.
pub fn parse_s3_uri(uri: &str) -> (r: Result<StorageRef, PipelineError>)
    ensures
        match r {
            Ok(sr) => parsed_ref(uri@) == Some(sr@) && sr@.is_valid(),
            Err(e) => parsed_ref(uri@) is None && e == PipelineError::InvalidUriFormat,
        },
        !uri_rest(uri@).contains('/') ==> r == Err::<StorageRef, PipelineError>(
            PipelineError::InvalidUriFormat,
        ),
{
    let chars = chars_of(uri);
    let start = prefix_len(&chars);
    let ghost rest = uri_rest(uri@);
    let mut i: usize = start;
    while i < chars.len() && chars[i] != '/'
        invariant
            start <= i <= chars.len(),
            chars@ == uri@,
            chars@.skip(start as int) == rest,
            forall|j: int| start <= j < i ==> chars@[j] != '/',
        decreases chars.len() - i,
    {
        i = i + 1;
    }
    if i == chars.len() || i + 1 == chars.len() {
        proof {
            if exists|v: StorageRefView| v.is_valid() && v.joined() == rest {
                let v = choose|v: StorageRefView| v.is_valid() && v.joined() == rest;
                let b = v.bucket.len() as int;
                assert(rest[b] == '/');
                assert(rest[b] == chars@[start + b]);
                if b < i - start {
                    assert(false);
                } else if b > i - start {
                    assert(rest[i - start] == v.bucket[i - start]);
                    assert(v.bucket.contains('/'));
                }
            }
            if i == chars.len() {
                assert forall|k: int| 0 <= k < rest.len() implies rest[k] != '/' by {
                    assert(rest[k] == chars@[start + k]);
                }
            }
        }
        return Err(PipelineError::InvalidUriFormat);
    }
    let bucket = string_from_range(&chars, start, i);
    let key = string_from_range(&chars, i + 1, chars.len());
    let sr = StorageRef { bucket, key };
    proof {
        assert(rest[i - start] == chars@[i as int]);
        assert(sr@.joined() =~= rest);
        assert(!sr@.bucket.contains('/')) by {
            if sr@.bucket.contains('/') {
                let k = choose|k: int| 0 <= k < sr@.bucket.len() && sr@.bucket[k] == '/';
                assert(chars@[start + k] == '/');
            }
        }
        let w = choose|w: StorageRefView| w.is_valid() && w.joined() == rest;
        lemma_joined_unique(sr@, w);
    }
    Ok(sr)
}

/// Writes an address in the scheme form, `s3://bucket/key`.
pub fn format_s3_uri(r: &StorageRef) -> (s: String)
    ensures
        s@ == s3_uri(r@),
{
    let mut out = String::from_str(S3_URI_SCHEME);
    out.append(r.bucket.as_str());
    out.append("/");
    out.append(r.key.as_str());
    proof {
        reveal_strlit("/");
        assert(out@ =~= s3_uri(r@));
    }
    out
}

} // verus!
