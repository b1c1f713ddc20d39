use ser_std::web::{index_html, INDEX_PAGE};

#[test]
fn index_page_is_the_greeting() {
    let page = index_html();
    assert_eq!(page, INDEX_PAGE);
    assert!(page.starts_with("\n<!DOCTYPE html>"));
    assert!(page.contains("<title>esp-rs web server</title>"));
    assert!(page.contains("Hello World from ESP!"));
    assert!(page.ends_with("</html>\n"));
}
