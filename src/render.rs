use vstd::prelude::*;

use crate::error::ScriptError;

verus! {

/// What `String::from_utf8_lossy` makes of `bytes`: each invalid sequence becomes U+FFFD.
pub uninterp spec fn utf8_lossy(bytes: Seq<u8>) -> Seq<char>;

/// Every byte is an ASCII code.
pub open spec fn all_ascii(bytes: Seq<u8>) -> bool {
    forall|i: int| 0 <= i < bytes.len() ==> bytes[i] < 128
}

/// The characters whose codes are the given ASCII bytes.
pub open spec fn ascii_text(bytes: Seq<u8>) -> Seq<char> {
    bytes.map_values(|b: u8| b as char)
}

/// The command line that turns the document at `html_path` into a PDF at `output_path`:
/// the program, then its arguments.
pub open spec fn renderer_command_spec(output_path: Seq<char>, html_path: Seq<char>) -> Seq<Seq<char>> {
    seq![
        "chromium"@,
        "--headless"@,
        "--run-all-compositor-stages-before-draw"@,
        "--print-to-pdf="@ + output_path,
        "--no-pdf-header-footer"@,
        html_path,
    ]
}

/// Relies on `String::from_utf8_lossy`: the text depends on the bytes alone, and bytes
/// that are valid UTF-8, as ASCII is, come back as the same characters.
#[verifier::external_body]
fn decode_lossy(bytes: &[u8]) -> (r: String)
    ensures
        r@ == utf8_lossy(bytes@),
        all_ascii(bytes@) ==> r@ == ascii_text(bytes@),
{
    String::from_utf8_lossy(bytes).into_owned()
}

/// The headless browser invocation that prints `html_path` to `output_path`, without a
/// visible display, after every compositing stage, and without page headers or footers.
/// The first element is the program to run.
pub fn renderer_command(output_path: &str, html_path: &str) -> (r: Vec<String>)
    ensures
        r@.len() == 6,
        forall|i: int| 0 <= i < 6 ==> #[trigger] r@[i]@ == renderer_command_spec(output_path@, html_path@)[i],
{
    let mut print_to = String::from_str("--print-to-pdf=");
    print_to.append(output_path);
    let r = vec![
        String::from_str("chromium"),
        String::from_str("--headless"),
        String::from_str("--run-all-compositor-stages-before-draw"),
        print_to,
        String::from_str("--no-pdf-header-footer"),
        String::from_str(html_path),
    ];
    r
}

/// The outcome of a rendering run, given whether the process exited successfully and
/// what it wrote to its error stream: success exactly when the process succeeded, and
/// otherwise an error that quotes the diagnostic.
pub fn check_render_exit(success: bool, stderr: &[u8]) -> (r: Result<(), ScriptError>)
    ensures
        r is Ok <==> success,
        r matches Err(e) ==> e.text() == "Chromium failed: "@ + utf8_lossy(stderr@),
{
    if success {
        Ok(())
    } else {
        let diagnostic = decode_lossy(stderr);
        Err(ScriptError::render_failure(diagnostic.as_str()))
    }
}

} // verus!
