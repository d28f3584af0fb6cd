//! The remote service's answer and this library's error taxonomy.
//!
//! The service answers every translation request with a status code and a
//! text field. The code decides everything: the success sentinel means the
//! text is the translation, any other code means the text is a
//! server-supplied error description. A call that never got a well-formed
//! answer at all fails with a transport error instead.

use vstd::prelude::*;

verus! {

/// The status code with which the remote service marks a successful
/// translation.
pub const SUCCESS_CODE: u32 = 200;

/// A well-formed answer from the remote service: a status code and a text
/// field whose meaning the code decides.
#[derive(Debug, Clone, PartialEq, Eq)]
pub struct ApiResponse {
    /// The status code; [`SUCCESS_CODE`] marks success.
    pub code: u32,
    /// The translated text on success, a server-supplied error description
    /// otherwise.
    pub text: String,
}

/// Why a translation call failed.
#[derive(Debug, Clone, PartialEq, Eq)]
pub enum TranslateError {
    /// The service answered, but with a status code other than
    /// [`SUCCESS_CODE`]; the payload is the server-supplied description.
    Remote(String),
    /// The call never produced a well-formed answer: connection failure,
    /// a transport-level rejection, or a malformed body. The payload
    /// describes the underlying failure.
    Transport(String),
}

impl TranslateError {
    /// The human-readable description carried by this error.
    pub open spec fn spec_message(self) -> Seq<char> {
        match self {
            TranslateError::Remote(text) => text@,
            TranslateError::Transport(text) => text@,
        }
    }

    /// Hand out the description carried by this error.
    pub fn message(&self) -> (m: &String)
        ensures
            m@ == self.spec_message(),
    {
        match self {
            TranslateError::Remote(text) => text,
            TranslateError::Transport(text) => text,
        }
    }
}

impl ApiResponse {
    /// A response as the remote service sent it.
    pub fn new(code: u32, text: String) -> (r: ApiResponse)
        ensures
            r.code == code,
            r.text == text,
    {
        ApiResponse { code, text }
    }

    /// What a response means for the caller: the text as translation when
    /// the code is the success sentinel, the text as a remote rejection
    /// otherwise.
    pub open spec fn spec_interpretation(self) -> Result<String, TranslateError> {
        if self.code == SUCCESS_CODE {
            Result::Ok(self.text)
        } else {
            Result::Err(TranslateError::Remote(self.text))
        }
    }

    /// Turn the response into the caller's result: the translated text
    /// exactly when the code is the success sentinel, and otherwise an
    /// error carrying the server-supplied description verbatim.
    pub fn into_result(self) -> (r: Result<String, TranslateError>)
        ensures
            r == self.spec_interpretation(),
            self.code == SUCCESS_CODE <==> r is Ok,
            self.code == SUCCESS_CODE ==> r == Result::<String, TranslateError>::Ok(self.text),
            self.code != SUCCESS_CODE ==> r == Result::<String, TranslateError>::Err(
                TranslateError::Remote(self.text),
            ),
    {
        if self.code == SUCCESS_CODE {
            Ok(self.text)
        } else {
            Err(TranslateError::Remote(self.text))
        }
    }
}

} // verus!
