//! What responses and inspections tell.

use monk3i::inspect::{
    after_downloader, after_head, after_range, begin_inspection, InspectAction,
};
use monk3i::location::{read_request, Location};
use monk3i::media::{Inspection, YtDlpInfo};
use monk3i::resource::{
    describe_response, keeps_head_answer, read_head_filename, read_header,
    total_size_from_response, ResourceInfo, ResponseHead,
};

fn at(url: &str) -> Location {
    read_request(url).unwrap().location
}

fn head(url: &str) -> ResponseHead {
    ResponseHead {
        status_code: 200,
        content_type: None,
        content_disposition: None,
        content_range: None,
        content_length: None,
        location: at(url),
    }
}

fn told(action: InspectAction) -> ResourceInfo {
    match action {
        InspectAction::Tell(info) => info,
        other => panic!("{:?}", other),
    }
}

fn failure(action: InspectAction) -> String {
    match action {
        InspectAction::Fail(message) => message,
        other => panic!("{:?}", other),
    }
}

#[test]
fn headers_are_visible_ascii() {
    let read = |bytes: &[u8]| read_header(&Some(bytes.to_vec()));
    assert_eq!(read(b"text/plain"), Some("text/plain".into()));
    assert_eq!(read(b" \t~"), Some(" \t~".into()));
    assert_eq!(read(b""), Some("".into()));
    assert_eq!(read(b"a\x7f"), None);
    assert_eq!(read(b"a\n"), None);
    assert_eq!(read("ß".as_bytes()), None);
    assert_eq!(read_header(&None), None);
}

#[test]
fn sizes_come_from_the_range_first() {
    let size = total_size_from_response;
    assert_eq!(size(Some("bytes 0-0/1234"), Some(1)), Some(1234));
    assert_eq!(size(Some("bytes 0-0/0"), Some(1)), Some(0));
    assert_eq!(size(Some("bytes 0-0/*"), Some(1)), Some(1));
    assert_eq!(size(Some("bytes 0-0/many"), Some(1)), Some(1));
    assert_eq!(size(Some("bytes 0-0/18446744073709551616"), Some(1)), Some(1));
    assert_eq!(size(Some("77"), None), Some(77));
    assert_eq!(size(Some("bytes 0-0/ 12"), None), None);
    assert_eq!(size(None, Some(9)), Some(9));
    assert_eq!(size(None, None), None);
}

#[test]
fn head_answers_are_kept_or_not() {
    for code in [200, 204, 299, 300, 304, 399] {
        assert!(keeps_head_answer(Some(code)));
    }
    for code in [100, 199, 400, 404, 500, 599] {
        assert!(!keeps_head_answer(Some(code)));
    }
    assert!(!keeps_head_answer(None));
}

#[test]
fn responses_are_described() {
    let mut response = head("https://example.com/files/data?x=1");
    response.status_code = 206;
    response.content_type = Some(b"application/zip".to_vec());
    response.content_range = Some(b"bytes 0-0/5000".to_vec());
    response.content_length = Some(1);
    let info = describe_response("https://example.com/start", &response);
    assert_eq!(info.url, "https://example.com/start");
    assert_eq!(info.kind, "file");
    assert_eq!(info.content_type.as_deref(), Some("application/zip"));
    assert_eq!(info.filename.as_deref(), Some("data.zip"));
    assert_eq!(info.size, Some(5000));
    assert_eq!(info.final_url, "https://example.com/files/data?x=1");
    assert_eq!(info.status_code, 206);
}

#[test]
fn unreadable_headers_are_as_missing() {
    let mut response = head("https://example.com/x.png");
    response.content_type = Some(vec![0xff]);
    response.content_disposition = Some(b"attachment; filename=\xff".to_vec());
    response.content_range = Some(b"bytes 0-0/\xff".to_vec());
    response.content_length = Some(3);
    let info = describe_response("u", &response);
    assert_eq!(info.content_type, None);
    assert_eq!(info.kind, "image");
    assert_eq!(info.filename.as_deref(), Some("x.png"));
    assert_eq!(info.size, Some(3));
}

#[test]
fn response_names_get_extensions() {
    let mut response = head("https://example.com/");
    response.content_disposition = Some(b"attachment; filename=\"report\"".to_vec());
    response.content_type = Some(b"application/pdf".to_vec());
    assert_eq!(read_head_filename(&response), Some("report.pdf".into()));
    response.content_disposition = None;
    assert_eq!(read_head_filename(&response), None);
}

#[test]
fn inspections_begin_by_site() {
    let media = read_request("https://vimeo.com/1").unwrap();
    assert!(matches!(begin_inspection(&media), InspectAction::AskDownloader));
    let file = read_request("https://example.com/1").unwrap();
    assert!(matches!(begin_inspection(&file), InspectAction::SendHead));
}

#[test]
fn heads_are_told_or_asked_again() {
    let mut response = head("https://example.com/a.mp4");
    let info = told(after_head("u", Some(response.clone())));
    assert_eq!((info.kind.as_str(), info.status_code), ("video", 200));
    response.status_code = 405;
    assert!(matches!(after_head("u", Some(response.clone())), InspectAction::SendRange));
    assert!(matches!(after_head("u", None), InspectAction::SendRange));
    assert_eq!(told(after_range("u", Ok(response))).status_code, 405);
    assert_eq!(failure(after_range("u", Err("refused".into()))), "refused");
}

#[test]
fn media_is_told() {
    let info = YtDlpInfo {
        id: Some("x1".into()),
        title: Some("A/B".into()),
        ext: Some("webm".into()),
        filesize: None,
        filesize_approx: Some(7),
    };
    let resource = told(after_downloader("https://youtu.be/x1", Inspection::Answered(info)));
    assert_eq!(resource.url, "https://youtu.be/x1");
    assert_eq!(resource.final_url, "https://youtu.be/x1");
    assert_eq!(resource.kind, "media_page");
    assert_eq!(resource.content_type, None);
    assert_eq!(resource.filename.as_deref(), Some("A_B.webm"));
    assert_eq!(resource.size, Some(7));
    assert_eq!(resource.status_code, 200);
}

#[test]
fn failed_media_inspections_are_explained() {
    let fail = |inspection: Inspection| failure(after_downloader("u", inspection));
    assert_eq!(
        fail(Inspection::Missing),
        "YouTube/media extraction requires yt-dlp. Install yt-dlp, restart Monk3i, and try again.",
    );
    assert_eq!(
        fail(Inspection::NotStarted("no such file".into())),
        "Could not start yt-dlp: no such file",
    );
    assert_eq!(fail(Inspection::Failed(b" ERROR: gone\n".to_vec())), "ERROR: gone");
    assert_eq!(fail(Inspection::Failed(b"a\xffb".to_vec())), "a\u{fffd}b");
    assert_eq!(
        fail(Inspection::Failed(b" \n".to_vec())),
        "yt-dlp could not inspect this media URL.",
    );
    assert_eq!(
        fail(Inspection::Unreadable("EOF".into())),
        "Could not read media information: EOF",
    );
}
