use vstd::prelude::*;

verus! {

/// Why an operation of the gateway failed.
#[derive(Debug, PartialEq, Eq)]
pub enum GatewayError {
    /// The sheet name holds `!`, which would break the range `"{name}!A:Z"`.
    InvalidSheetName(String),
    /// The service-account key file is missing or malformed.
    CredentialRead(String),
    /// The token exchange with the key failed.
    Authentication(String),
    /// Reading the values of the range failed; the detail is kept for the log.
    Fetch(String),
    /// Clearing the range failed; nothing was written.
    Clear(String),
    /// Writing the values failed after the range was cleared.
    Update(String),
    /// The spreadsheet's metadata could not be retrieved.
    Metadata(String),
    /// The spreadsheet's metadata lists no tab.
    NoSheetsFound,
    /// The values could not be encoded as JSON.
    Serialization(String),
}

/// The text of each kind of error.
pub open spec fn message_of(e: GatewayError) -> Seq<char> {
    match e {
        GatewayError::InvalidSheetName(name) => "Sheet name may not contain '!': "@ + name@,
        GatewayError::CredentialRead(d) => "Failed to read service account key: "@ + d@,
        GatewayError::Authentication(d) => "Failed to create authenticator: "@ + d@,
        GatewayError::Fetch(_) => "Error fetching data from Google Sheets"@,
        GatewayError::Clear(d) => "Failed to clear sheet: "@ + d@,
        GatewayError::Update(d) => "Failed to update sheet: "@ + d@,
        GatewayError::Metadata(d) => "Failed to retrieve spreadsheet details: "@ + d@,
        GatewayError::NoSheetsFound => "No sheets found in the spreadsheet."@,
        GatewayError::Serialization(d) => d@,
    }
}

fn prefixed(prefix: &str, detail: &String) -> (r: String)
    ensures
        r@ == prefix@ + detail@,
{
    let mut s = String::from_str(prefix);
    s.append(detail.as_str());
    s
}

impl GatewayError {
    /// The error as text, for the boundary where errors leave as strings.
    pub fn message(&self) -> (r: String)
        ensures
            r@ == message_of(*self),
    {
        match self {
            GatewayError::InvalidSheetName(name) => prefixed("Sheet name may not contain '!': ", name),
            GatewayError::CredentialRead(d) => prefixed("Failed to read service account key: ", d),
            GatewayError::Authentication(d) => prefixed("Failed to create authenticator: ", d),
            GatewayError::Fetch(_) => String::from_str("Error fetching data from Google Sheets"),
            GatewayError::Clear(d) => prefixed("Failed to clear sheet: ", d),
            GatewayError::Update(d) => prefixed("Failed to update sheet: ", d),
            GatewayError::Metadata(d) => prefixed("Failed to retrieve spreadsheet details: ", d),
            GatewayError::NoSheetsFound => String::from_str("No sheets found in the spreadsheet."),
            GatewayError::Serialization(d) => d.clone(),
        }
    }
}

} // verus!
