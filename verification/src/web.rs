use vstd::prelude::*;

verus! {

/// The page that the web server answers on its root URL.
pub const INDEX_PAGE: &'static str = r#"
<!DOCTYPE html>
<html>
    <head>
        <meta charset="utf-8">
        <title>esp-rs web server</title>
    </head>
    <body>
    Hello World from ESP!
    </body>
</html>
"#;

/// The body of the answer to a GET on the root URL.
pub fn index_html() -> (page: String)
    ensures
        page@ == INDEX_PAGE@,
{
    String::from_str(INDEX_PAGE)
}

} // verus!
