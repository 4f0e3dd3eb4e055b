use vstd::prelude::*;

verus! {

/// The failure of one conversion, carrying a one-line message for the user.
#[derive(Debug)]
pub struct ScriptError {
    message: String,
}

impl ScriptError {
    /// The text that the error reports.
    pub closed spec fn text(&self) -> Seq<char> {
        self.message@
    }

    /// An error that reports `message` as it is.
    pub fn new(message: &str) -> (r: ScriptError)
        ensures
            r.text() == message@,
    {
        ScriptError { message: String::from_str(message) }
    }

    /// An error whose message is `prefix` followed by `detail`.
    fn with_prefix(prefix: &str, detail: &str) -> (r: ScriptError)
        ensures
            r.text() == prefix@ + detail@,
    {
        let mut message = String::from_str(prefix);
        message.append(detail);
        ScriptError { message }
    }

    /// A failure to read or write a file; `detail` is the system's own account of it.
    pub fn io_failure(detail: &str) -> (r: ScriptError)
        ensures
            r.text() == "I/O error: "@ + detail@,
    {
        ScriptError::with_prefix("I/O error: ", detail)
    }

    /// Input text that is not a well-formed invoice; `detail` names the field or value at fault.
    pub fn parse_failure(detail: &str) -> (r: ScriptError)
        ensures
            r.text() == "TOML parse error: "@ + detail@,
    {
        ScriptError::with_prefix("TOML parse error: ", detail)
    }

    /// The rendering process ended in failure; `diagnostic` is what it wrote to its error stream.
    pub fn render_failure(diagnostic: &str) -> (r: ScriptError)
        ensures
            r.text() == "Chromium failed: "@ + diagnostic@,
    {
        ScriptError::with_prefix("Chromium failed: ", diagnostic)
    }

    /// The message shown to the user.
    pub fn message(&self) -> (r: &str)
        ensures
            r@ == self.text(),
    {
        self.message.as_str()
    }

    /// The message, as the description of the error.
    pub fn description(&self) -> (r: &str)
        ensures
            r@ == self.text(),
    {
        self.message.as_str()
    }
}

} // verus!
