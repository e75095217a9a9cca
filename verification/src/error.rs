//! The errors that end a command.

use vstd::prelude::*;
use vstd::string::StringExecFns;

verus! {

/// Everything that can end a command early.
#[derive(Debug)]
pub enum Error {
    /// The authorization endpoint refused the credentials; code and message
    /// are those of the service.
    Auth { code: String, message: String },
    /// The service rejected a call for a reason other than an expired token.
    Api { code: String, message: String, url: String },
    /// The token kept expiring until the reauthorization budget ran out.
    AuthExhausted,
    /// The file is too small to be uploaded in parts.
    InsufficientData,
    /// The path to upload does not name a regular file.
    NotAFile { path: String },
    /// The bucket is unknown to the account.
    BucketNotFound { bucket: String },
}

impl Error {
    /// The text shown to the user for the error.
    pub open spec fn description(&self) -> Seq<char> {
        match self {
            Error::Auth { code, message } => code@ + " - "@ + message@,
            Error::Api { code, message, url } => "`"@ + url@ + "`: "@ + code@ + " - "@ + message@,
            Error::AuthExhausted => "Unable to authorise with Backblaze."@,
            Error::InsufficientData => "Not enough data to upload by parts"@,
            Error::NotAFile { path } => path@ + " is not a file."@,
            Error::BucketNotFound { bucket } => "Bucket `"@ + bucket@ + "` does not exist"@,
        }
    }

    /// The text shown to the user for the error.
    pub fn message(&self) -> (text: String)
        ensures
            text@ == self.description(),
    {
        match self {
            Error::Auth { code, message } => {
                let mut text = code.clone();
                text.append(" - ");
                text.append(message.as_str());
                text
            },
            Error::Api { code, message, url } => {
                let mut text = "`".to_owned();
                text.append(url.as_str());
                text.append("`: ");
                text.append(code.as_str());
                text.append(" - ");
                text.append(message.as_str());
                text
            },
            Error::AuthExhausted => "Unable to authorise with Backblaze.".to_owned(),
            Error::InsufficientData => "Not enough data to upload by parts".to_owned(),
            Error::NotAFile { path } => {
                let mut text = path.clone();
                text.append(" is not a file.");
                text
            },
            Error::BucketNotFound { bucket } => {
                let mut text = "Bucket `".to_owned();
                text.append(bucket.as_str());
                text.append("` does not exist");
                text
            },
        }
    }
}

} // verus!
