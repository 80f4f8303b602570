use vstd::prelude::*;

verus! {

pub const SUCCESS_PREFIX: &'static str = "Success: \n ";

pub const ERROR_PREFIX: &'static str = "Error: \n ";

pub const DELIVERY_FAILURE_PREFIX: &'static str = "Error writing Notification ";

/// The body of the notification that reports `result`.
pub open spec fn notification_body(result: Result<Seq<char>, Seq<char>>) -> Seq<char> {
    match result {
        Ok(message) => SUCCESS_PREFIX@ + message,
        Err(error) => ERROR_PREFIX@ + error,
    }
}

/// A desktop notification, ready to be shown.
pub struct Notice {
    pub summary: String,
    pub body: String,
}

/// Reports the outcome of a run as a desktop notification titled with the
/// application's name.
pub struct NotificationWriter {
    application_name: String,
}

impl NotificationWriter {
    pub closed spec fn application_name(&self) -> Seq<char> {
        self.application_name@
    }

    pub fn new(application_name: String) -> (r: Self)
        ensures
            r.application_name() == application_name@,
    {
        Self { application_name }
    }

    /// The application's name, which titles every notification.
    pub fn name(&self) -> (r: &str)
        ensures
            r@ == self.application_name(),
    {
        self.application_name.as_str()
    }

    /// The notification that reports `result`: titled with the
    /// application's name, its body `Success: \n ` followed by the message
    /// or `Error: \n ` followed by the error.
    pub fn compose(&self, result: Result<String, String>) -> (n: Notice)
        ensures
            n.summary@ == self.application_name(),
            n.body@ == notification_body(
                match result {
                    Ok(m) => Ok(m@),
                    Err(e) => Err(e@),
                },
            ),
    {
        let body = match result {
            Ok(message) => {
                let mut body = SUCCESS_PREFIX.to_owned();
                body.append(message.as_str());
                body
            },
            Err(error) => {
                let mut body = ERROR_PREFIX.to_owned();
                body.append(error.as_str());
                body
            },
        };
        Notice { summary: self.application_name.clone(), body }
    }

    /// The error reported when the notification could not be shown, given
    /// the description of what went wrong.
    pub fn delivery_failure(detail: &str) -> (r: String)
        ensures
            r@ == DELIVERY_FAILURE_PREFIX@ + detail@,
    {
        let mut r = DELIVERY_FAILURE_PREFIX.to_owned();
        r.append(detail);
        r
    }
}

} // verus!
