//! Building object uploads: an uploader that collects the object's settings
//! and data, checks that nothing required is missing, and the names and
//! public address of a job's uploaded file.

use vstd::prelude::*;
use crate::text::{concat, owned};

verus! {

/// Collects what an object upload needs. `T` is the object data.
#[derive(Debug)]
pub struct S3Uploader<T> {
    /// Object data.
    pub data: Option<T>,
    /// Target filename to upload to.
    pub filename: Option<String>,
    /// Target bucket to upload to.
    pub bucket: Option<String>,
    /// Size of the body in bytes, given ahead of the streamed body.
    pub content_length: Option<i64>,
    /// The canned ACL to apply to the object.
    pub acl: Option<String>,
}

/// A complete upload request, every required part present.
#[derive(Debug)]
pub struct UploadRequest<T> {
    pub key: String,
    pub bucket: String,
    pub acl: Option<String>,
    pub content_length: i64,
    pub body: T,
}

/// An optional string seen as characters.
pub open spec fn opt_view(s: Option<String>) -> Option<Seq<char>> {
    match s {
        Some(x) => Some(x@),
        None => None,
    }
}

fn clone_opt(s: &Option<String>) -> (r: Option<String>)
    ensures
        r == *s,
{
    match s {
        Some(x) => Some(x.clone()),
        None => None,
    }
}

impl<T> Clone for S3Uploader<T> {
    /// Clones the static settings (bucket, acl) of the builder, but not the
    /// file details.
    fn clone(&self) -> (r: Self)
        ensures
            r.bucket == self.bucket,
            r.acl == self.acl,
            r.filename is None,
            r.data is None,
            r.content_length is None,
    {
        S3Uploader {
            bucket: clone_opt(&self.bucket),
            acl: clone_opt(&self.acl),
            filename: None,
            data: None,
            content_length: None,
        }
    }
}

impl<T> Default for S3Uploader<T> {
    /// An uploader with nothing set.
    fn default() -> (r: Self)
        ensures
            r.data is None,
            r.filename is None,
            r.bucket is None,
            r.content_length is None,
            r.acl is None,
    {
        S3Uploader { filename: None, bucket: None, data: None, content_length: None, acl: None }
    }
}

/// The error text for the first missing part of an upload, in the order
/// data, filename (the key), bucket, length.
pub open spec fn missing_text<T>(u: S3Uploader<T>) -> Seq<char> {
    if u.data is None {
        "data is required but missing"@
    } else if u.filename is None {
        "key is required but missing"@
    } else if u.bucket is None {
        "bucket is required but missing"@
    } else {
        "content_length is required but missing"@
    }
}

impl<T> S3Uploader<T> {
    /// Sets the target bucket.
    pub fn bucket(&mut self, bucket: &str) -> (r: &mut Self)
        ensures
            opt_view(r.bucket) == Some(bucket@),
            r.data == old(self).data,
            r.filename == old(self).filename,
            r.content_length == old(self).content_length,
            r.acl == old(self).acl,
            *final(self) == *final(r),
    {
        self.bucket = Some(owned(bucket));
        self
    }

    /// Sets the target filename.
    pub fn filename(&mut self, filename: &str) -> (r: &mut Self)
        ensures
            opt_view(r.filename) == Some(filename@),
            r.data == old(self).data,
            r.bucket == old(self).bucket,
            r.content_length == old(self).content_length,
            r.acl == old(self).acl,
            *final(self) == *final(r),
    {
        self.filename = Some(owned(filename));
        self
    }

    /// Sets the object data.
    pub fn data(&mut self, stream: T) -> (r: &mut Self)
        ensures
            r.data == Some(stream),
            r.filename == old(self).filename,
            r.bucket == old(self).bucket,
            r.content_length == old(self).content_length,
            r.acl == old(self).acl,
            *final(self) == *final(r),
    {
        self.data = Some(stream);
        self
    }

    /// Sets the size of the data in bytes.
    pub fn content_length(&mut self, size: i64) -> (r: &mut Self)
        ensures
            r.content_length == Some(size),
            r.data == old(self).data,
            r.filename == old(self).filename,
            r.bucket == old(self).bucket,
            r.acl == old(self).acl,
            *final(self) == *final(r),
    {
        self.content_length = Some(size);
        self
    }

    /// Sets the canned ACL.
    pub fn acl(&mut self, acl: &str) -> (r: &mut Self)
        ensures
            opt_view(r.acl) == Some(acl@),
            r.data == old(self).data,
            r.filename == old(self).filename,
            r.bucket == old(self).bucket,
            r.content_length == old(self).content_length,
            *final(self) == *final(r),
    {
        self.acl = Some(owned(acl));
        self
    }

    /// The upload request, once data, filename, bucket and length are all
    /// set; otherwise the first of them (in that order) that is missing.
    pub fn build(self) -> (r: Result<UploadRequest<T>, String>)
        ensures
            match r {
                Ok(req) => {
                    &&& self.data == Some(req.body)
                    &&& self.filename == Some(req.key)
                    &&& self.bucket == Some(req.bucket)
                    &&& self.content_length == Some(req.content_length)
                    &&& self.acl == req.acl
                },
                Err(e) => e@ == missing_text(self) && (self.data is None || self.filename is None || self.bucket is None
                    || self.content_length is None),
            },
    {
        let body = match self.data {
            Some(d) => d,
            None => return Err(owned("data is required but missing")),
        };
        let key = match self.filename {
            Some(f) => f,
            None => return Err(owned("key is required but missing")),
        };
        let bucket = match self.bucket {
            Some(b) => b,
            None => return Err(owned("bucket is required but missing")),
        };
        let content_length = match self.content_length {
            Some(n) => n,
            None => return Err(owned("content_length is required but missing")),
        };
        Ok(UploadRequest { key, bucket, acl: self.acl, content_length, body })
    }
}

/// The bucket jobs upload to.
pub open spec fn job_bucket() -> Seq<char> {
    "i.brod.es"@
}

/// The canned ACL of uploaded jobs.
pub open spec fn job_acl() -> Seq<char> {
    "public-read"@
}

/// The uploader a job starts from: the jobs' bucket and ACL, nothing else.
pub fn job_uploader<T>() -> (r: S3Uploader<T>)
    ensures
        opt_view(r.bucket) == Some(job_bucket()),
        opt_view(r.acl) == Some(job_acl()),
        r.data is None,
        r.filename is None,
        r.content_length is None,
{
    let mut u: S3Uploader<T> = S3Uploader::default();
    u.bucket("i.brod.es").acl("public-read");
    u.clone()
}

/// The object key a job's file is uploaded under.
pub fn upload_key(filename: &str) -> (r: String)
    ensures
        r@ == filename@ + ".mp4"@,
{
    concat(filename, ".mp4")
}

/// The public address of an object uploaded under `key` to the jobs' bucket.
pub fn public_url(key: &str) -> (r: String)
    ensures
        r@ == "https://"@ + job_bucket() + "/"@ + key@,
{
    let a = concat("https://", "i.brod.es");
    let b = concat(a.as_str(), "/");
    concat(b.as_str(), key)
}

} // verus!
