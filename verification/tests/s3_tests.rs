use vredditor::s3::{job_uploader, public_url, upload_key, S3Uploader};

#[test]
fn build_complete_request() {
    let mut u: S3Uploader<Vec<u8>> = S3Uploader::default();
    u.bucket("b").filename("f.mp4").content_length(3).acl("public-read").data(vec![1, 2, 3]);
    let req = u.build().unwrap();
    assert_eq!(req.bucket, "b");
    assert_eq!(req.key, "f.mp4");
    assert_eq!(req.content_length, 3);
    assert_eq!(req.acl, Some("public-read".to_string()));
    assert_eq!(req.body, vec![1, 2, 3]);
}

#[test]
fn build_reports_first_missing_part() {
    let u: S3Uploader<Vec<u8>> = S3Uploader::default();
    assert_eq!(u.build().unwrap_err(), "data is required but missing");
    let mut u: S3Uploader<Vec<u8>> = S3Uploader::default();
    u.data(vec![]);
    assert_eq!(u.build().unwrap_err(), "key is required but missing");
    let mut u: S3Uploader<Vec<u8>> = S3Uploader::default();
    u.data(vec![]).filename("f");
    assert_eq!(u.build().unwrap_err(), "bucket is required but missing");
    let mut u: S3Uploader<Vec<u8>> = S3Uploader::default();
    u.data(vec![]).filename("f").bucket("b");
    assert_eq!(u.build().unwrap_err(), "content_length is required but missing");
    let mut u: S3Uploader<Vec<u8>> = S3Uploader::default();
    u.data(vec![]).filename("f").bucket("b").content_length(0);
    assert!(u.build().unwrap().acl.is_none());
}

#[test]
fn clone_keeps_only_settings() {
    let mut u: S3Uploader<Vec<u8>> = S3Uploader::default();
    u.bucket("b").acl("a").filename("f").content_length(1).data(vec![9]);
    let c = u.clone();
    assert_eq!(c.bucket, Some("b".to_string()));
    assert_eq!(c.acl, Some("a".to_string()));
    assert!(c.filename.is_none());
    assert!(c.content_length.is_none());
    assert!(c.data.is_none());
}

#[test]
fn job_upload_names() {
    let u: S3Uploader<Vec<u8>> = job_uploader();
    assert_eq!(u.bucket, Some("i.brod.es".to_string()));
    assert_eq!(u.acl, Some("public-read".to_string()));
    assert!(u.filename.is_none());
    assert_eq!(upload_key("/tmp/abc1234"), "/tmp/abc1234.mp4");
    assert_eq!(public_url("abc1234.mp4"), "https://i.brod.es/abc1234.mp4");
}
