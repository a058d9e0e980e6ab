use vstd::prelude::*;

verus! {

/// An error answered with a chosen HTTP status and message.
pub struct CustomError {
    pub error_status_code: u16,
    pub error_message: String,
}

/// Whether `code` is a status code that HTTP accepts (three digits).
pub open spec fn valid_status(code: u16) -> bool {
    100 <= code < 1000
}

/// The status with which a custom error is answered: its own when HTTP
/// accepts it, otherwise 500.
pub open spec fn custom_status(code: u16) -> u16 {
    if valid_status(code) { code } else { 500 }
}

/// The answer to a custom error: its HTTP status, then the `code` and the
/// `message` of its JSON body. The code is the error's own; the message is
/// its own only when the status is below 500.
pub open spec fn custom_answer(e: CustomError) -> (u16, u16, Seq<char>) {
    let status = custom_status(e.error_status_code);
    (status, e.error_status_code, if status < 500 { e.error_message@ } else { "Internal server error"@ })
}

/// Server errors keep their messages to themselves: two custom errors with
/// the same code that are answered with a status of 500 or above (an
/// invalid code among them) get the same answer, whatever their messages.
pub proof fn lemma_server_errors_hide_message(a: CustomError, b: CustomError)
    requires
        a.error_status_code == b.error_status_code,
        custom_status(a.error_status_code) >= 500,
    ensures
        custom_answer(a) == custom_answer(b),
{
}

impl CustomError {
    /// A custom error with this status code and message.
    pub fn new(error_status_code: u16, error_message: String) -> (r: CustomError)
        ensures
            r.error_status_code == error_status_code,
            r.error_message == error_message,
    {
        CustomError { error_status_code, error_message }
    }

    /// The HTTP status of the answer.
    pub fn response_status(&self) -> (r: u16)
        ensures
            r == custom_status(self.error_status_code),
    {
        if 100 <= self.error_status_code && self.error_status_code < 1000 {
            self.error_status_code
        } else {
            500
        }
    }

    /// The message of the answer: the error's own below status 500; servers'
    /// failures are not described to clients.
    pub fn response_message(&self) -> (r: String)
        ensures
            custom_status(self.error_status_code) < 500 ==> r@ == self.error_message@,
            custom_status(self.error_status_code) >= 500 ==> r@ == "Internal server error"@,
    {
        if self.response_status() < 500 {
            self.error_message.clone()
        } else {
            String::from_str("Internal server error")
        }
    }

    /// The whole answer: status, body code and body message.
    pub fn error_response(&self) -> (r: (u16, u16, String))
        ensures
            (r.0, r.1, r.2@) == custom_answer(*self),
    {
        (self.response_status(), self.error_status_code, self.response_message())
    }

    /// The text with which the error displays itself: its message.
    pub fn to_text(&self) -> (r: String)
        ensures
            r@ == self.error_message@,
    {
        self.error_message.clone()
    }
}

} // verus!
