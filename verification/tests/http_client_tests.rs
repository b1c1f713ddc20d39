use ser_std::http_client::{header_line, status_line};

#[test]
fn status_line_shows_the_code() {
    assert_eq!(status_line(200), "<- 200");
    assert_eq!(status_line(0), "<- 0");
    assert_eq!(status_line(65535), "<- 65535");
}

#[test]
fn header_lines_show_value_or_absence() {
    assert_eq!(header_line("Content-Length", Some("267")), "Content-Length: 267");
    assert_eq!(header_line("Content-Length", None), "No Content-Length Header");
    assert_eq!(header_line("Date", Some("Tue, 01 Jan 2030 00:00:00 GMT")), "Date: Tue, 01 Jan 2030 00:00:00 GMT");
    assert_eq!(header_line("Date", None), "No Date Header");
}
