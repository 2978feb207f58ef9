use vstd::prelude::*;
use crate::encode::{encode_rows, json_of_rows, reported_rows};
use crate::error::{message_of, GatewayError};
use crate::range::{range_of, sheet_range, valid_sheet_name};
use crate::titles::{lists_no_tab, present_titles, sheet_titles};

verus! {

/// The three operations of the gateway.
#[derive(PartialEq, Eq, Structural, Clone, Copy, Debug)]
pub enum Operation {
    ReadRange,
    WriteRange,
    ListSheetTitles,
}

/// What a session waits for.
#[derive(PartialEq, Eq, Structural, Clone, Copy, Debug)]
pub enum Stage {
    /// The key file to be read and parsed.
    LoadingKey,
    /// The token exchange with the key.
    Authorizing,
    /// The values of the range.
    Fetching,
    /// The clearing of the range.
    Clearing,
    /// The writing of the new values.
    Updating,
    /// The spreadsheet's metadata.
    FetchingMetadata,
    /// Nothing: the session has given its result.
    Finished,
}

/// An outside call for the caller to make.
#[derive(Debug)]
pub enum Request {
    /// Read and parse the service-account key file at `path`.
    ReadKey { path: String },
    /// Exchange the key for a bearer token.
    Authorize,
    /// Read the values of `range`.
    GetValues { spreadsheet_id: String, range: String },
    /// Clear the values of `range`.
    ClearValues { spreadsheet_id: String, range: String },
    /// Write `values` to `range`, row by row, interpreted as typed by a user.
    UpdateValues {
        spreadsheet_id: String,
        range: String,
        major_dimension: String,
        value_input_option: String,
        values: Vec<Vec<String>>,
    },
    /// Read the spreadsheet's metadata.
    GetMetadata { spreadsheet_id: String },
}

/// What a finished operation hands back.
#[derive(Debug)]
pub enum Reply {
    /// The JSON text of the rows read.
    Values(String),
    /// A confirmation that the range was overwritten.
    Updated(String),
    /// The titles of the tabs.
    Titles(Vec<String>),
}

/// What the caller does next.
#[derive(Debug)]
pub enum Action {
    Call(Request),
    Finish(Result<Reply, GatewayError>),
}

/// One operation in progress, from the key file to its result. Nothing of it
/// outlives the operation.
pub struct Session {
    operation: Operation,
    spreadsheet_id: String,
    range: String,
    values: Vec<Vec<String>>,
    stage: Stage,
}

/// A session as its contracts see it.
pub struct SessionView {
    pub operation: Operation,
    pub spreadsheet_id: Seq<char>,
    pub range: Seq<char>,
    pub values: Seq<Seq<Seq<char>>>,
    pub stage: Stage,
}

impl SessionView {
    /// Each remote stage belongs to the operation that makes that call.
    pub open spec fn wf(self) -> bool {
        &&& self.stage == Stage::Fetching ==> self.operation == Operation::ReadRange
        &&& (self.stage == Stage::Clearing || self.stage == Stage::Updating) ==> self.operation
            == Operation::WriteRange
        &&& self.stage == Stage::FetchingMetadata ==> self.operation == Operation::ListSheetTitles
    }

    /// The same session, waiting at `stage`.
    pub open spec fn at(self, stage: Stage) -> SessionView {
        SessionView { stage, ..self }
    }
}

impl View for Session {
    type V = SessionView;

    closed spec fn view(&self) -> SessionView {
        SessionView {
            operation: self.operation,
            spreadsheet_id: self.spreadsheet_id@,
            range: self.range@,
            values: self.values.deep_view(),
            stage: self.stage,
        }
    }
}

/// The confirmation of a write.
pub open spec fn update_confirmation() -> Seq<char> {
    "Worksheet updated successfully."@
}

/// The session has asked for the key file at `key_path`, to act on `range`.
pub open spec fn started(s: SessionView, a: Action, key_path: Seq<char>, range: Seq<char>) -> bool {
    &&& s.stage == Stage::LoadingKey
    &&& s.range == range
    &&& a matches Action::Call(Request::ReadKey { path }) && path@ == key_path
}

/// The session has ended at once, on a sheet name that the range template
/// cannot hold.
pub open spec fn rejected_name(s: SessionView, a: Action, sheet_name: Seq<char>) -> bool {
    &&& s.stage == Stage::Finished
    &&& a matches Action::Finish(Err(GatewayError::InvalidSheetName(n))) && n@ == sheet_name
}

/// The action reads the values of `range`.
pub open spec fn calls_get_values(a: Action, spreadsheet: Seq<char>, range: Seq<char>) -> bool {
    a matches Action::Call(Request::GetValues { spreadsheet_id, range: r })
        && spreadsheet_id@ == spreadsheet && r@ == range
}

/// The action clears the values of `range`.
pub open spec fn calls_clear(a: Action, spreadsheet: Seq<char>, range: Seq<char>) -> bool {
    a matches Action::Call(Request::ClearValues { spreadsheet_id, range: r })
        && spreadsheet_id@ == spreadsheet && r@ == range
}

/// The action writes `values` to `range`, by rows, as typed by a user.
pub open spec fn calls_update(
    a: Action,
    spreadsheet: Seq<char>,
    range: Seq<char>,
    values: Seq<Seq<Seq<char>>>,
) -> bool {
    a matches Action::Call(
        Request::UpdateValues { spreadsheet_id, range: r, major_dimension, value_input_option, values: v },
    ) && spreadsheet_id@ == spreadsheet && r@ == range && major_dimension@ == "ROWS"@
        && value_input_option@ == "USER_ENTERED"@ && v.deep_view() == values
}

/// The action reads the spreadsheet's metadata.
pub open spec fn calls_get_metadata(a: Action, spreadsheet: Seq<char>) -> bool {
    a matches Action::Call(Request::GetMetadata { spreadsheet_id }) && spreadsheet_id@ == spreadsheet
}

/// The action ends a read with the JSON text `json`.
pub open spec fn ends_read(a: Action, json: Seq<char>) -> bool {
    match a {
        Action::Finish(Ok(Reply::Values(j))) => j@ == json,
        _ => false,
    }
}

/// The text that an operation reports for an error. A failure of the key
/// file or of the token exchange is introduced as a failure to authenticate
/// on a read and as an authentication failure on a listing; the kind of
/// failure and its detail follow in every operation.
pub open spec fn error_text_of(operation: Operation, e: GatewayError) -> Seq<char> {
    if e is CredentialRead || e is Authentication {
        match operation {
            Operation::ReadRange => "Failed to authenticate: "@ + message_of(e),
            Operation::WriteRange => message_of(e),
            Operation::ListSheetTitles => "Authentication failed: "@ + message_of(e),
        }
    } else {
        message_of(e)
    }
}

/// The text that `operation` reports for `e`.
pub fn error_text(operation: Operation, e: &GatewayError) -> (r: String)
    ensures
        r@ == error_text_of(operation, *e),
{
    let m = e.message();
    match e {
        GatewayError::CredentialRead(_) | GatewayError::Authentication(_) => match operation {
            Operation::ReadRange => {
                let mut t = String::from_str("Failed to authenticate: ");
                t.append(m.as_str());
                t
            },
            Operation::WriteRange => m,
            Operation::ListSheetTitles => {
                let mut t = String::from_str("Authentication failed: ");
                t.append(m.as_str());
                t
            },
        },
        _ => m,
    }
}

/// The action ends a write with its confirmation.
pub open spec fn ends_write(a: Action) -> bool {
    match a {
        Action::Finish(Ok(Reply::Updated(m))) => m@ == update_confirmation(),
        _ => false,
    }
}

/// The action ends a listing with `titles`.
pub open spec fn ends_listing(a: Action, titles: Seq<Seq<char>>) -> bool {
    match a {
        Action::Finish(Ok(Reply::Titles(t))) => t.deep_view() == titles,
        _ => false,
    }
}

/// The session has ended with the error `e`; the caller makes no further call.
pub open spec fn ended_in(s: SessionView, a: Action, e: GatewayError) -> bool {
    s.stage == Stage::Finished && a == Action::Finish(Err(e))
}

impl Session {
    /// The session's stage fits its operation.
    pub open spec fn wf(&self) -> bool {
        self@.wf()
    }

    fn start(
        operation: Operation,
        key_path: String,
        spreadsheet_id: String,
        range: Result<String, GatewayError>,
        values: Vec<Vec<String>>,
    ) -> (r: (Session, Action))
        ensures
            r.0.wf(),
            r.0@.operation == operation,
            r.0@.spreadsheet_id == spreadsheet_id@,
            r.0@.values == values.deep_view(),
            range is Ok ==> started(r.0@, r.1, key_path@, range->Ok_0@),
            range is Err ==> r.0@.stage == Stage::Finished && r.1 == Action::Finish(Err(range->Err_0)),
    {
        match range {
            Ok(rg) => {
                let s = Session { operation, spreadsheet_id, range: rg, values, stage: Stage::LoadingKey };
                (s, Action::Call(Request::ReadKey { path: key_path }))
            },
            Err(e) => {
                let s = Session {
                    operation,
                    spreadsheet_id,
                    range: String::new(),
                    values,
                    stage: Stage::Finished,
                };
                (s, Action::Finish(Err(e)))
            },
        }
    }

    /// Starts a read of the range `"{sheet_name}!A:Z"`.
    pub fn read_range(key_path: String, spreadsheet_id: String, sheet_name: &str) -> (r: (
        Session,
        Action,
    ))
        ensures
            r.0.wf(),
            r.0@.operation == Operation::ReadRange,
            r.0@.spreadsheet_id == spreadsheet_id@,
            valid_sheet_name(sheet_name@) ==> started(r.0@, r.1, key_path@, range_of(sheet_name@)),
            !valid_sheet_name(sheet_name@) ==> rejected_name(r.0@, r.1, sheet_name@),
    {
        let range = sheet_range(sheet_name);
        Session::start(Operation::ReadRange, key_path, spreadsheet_id, range, Vec::new())
    }

    /// Starts an overwrite of the range `"{sheet_name}!A:Z"` with `values`:
    /// the range is cleared, then written.
    pub fn write_range(
        key_path: String,
        spreadsheet_id: String,
        sheet_name: &str,
        values: Vec<Vec<String>>,
    ) -> (r: (Session, Action))
        ensures
            r.0.wf(),
            r.0@.operation == Operation::WriteRange,
            r.0@.spreadsheet_id == spreadsheet_id@,
            r.0@.values == values.deep_view(),
            valid_sheet_name(sheet_name@) ==> started(r.0@, r.1, key_path@, range_of(sheet_name@)),
            !valid_sheet_name(sheet_name@) ==> rejected_name(r.0@, r.1, sheet_name@),
    {
        let range = sheet_range(sheet_name);
        Session::start(Operation::WriteRange, key_path, spreadsheet_id, range, values)
    }

    /// Starts a listing of the titles of the spreadsheet's tabs.
    pub fn list_sheet_titles(key_path: String, spreadsheet_id: String) -> (r: (Session, Action))
        ensures
            r.0.wf(),
            r.0@.operation == Operation::ListSheetTitles,
            r.0@.spreadsheet_id == spreadsheet_id@,
            started(r.0@, r.1, key_path@, Seq::empty()),
    {
        Session::start(Operation::ListSheetTitles, key_path, spreadsheet_id, Ok(String::new()), Vec::new())
    }

    /// The operation the session performs.
    pub fn operation(&self) -> (r: Operation)
        ensures
            r == self@.operation,
    {
        self.operation
    }

    /// What the session waits for.
    pub fn stage(&self) -> (r: Stage)
        ensures
            r == self@.stage,
    {
        self.stage
    }

    /// The key file was read (`Ok`) or could not be read or parsed (`Err`,
    /// with the reason). On failure the session ends with `CredentialRead`
    /// and no call reaches the spreadsheet service.
    pub fn key_read(&mut self, outcome: Result<(), String>) -> (a: Action)
        requires
            old(self).wf(),
            old(self)@.stage == Stage::LoadingKey,
        ensures
            final(self).wf(),
            match outcome {
                Ok(_) => final(self)@ == old(self)@.at(Stage::Authorizing) && a matches Action::Call(
                    Request::Authorize,
                ),
                Err(d) => final(self)@ == old(self)@.at(Stage::Finished) && ended_in(
                    final(self)@,
                    a,
                    GatewayError::CredentialRead(d),
                ),
            },
    {
        match outcome {
            Ok(_) => {
                self.stage = Stage::Authorizing;
                Action::Call(Request::Authorize)
            },
            Err(d) => {
                self.stage = Stage::Finished;
                Action::Finish(Err(GatewayError::CredentialRead(d)))
            },
        }
    }

    /// The token exchange succeeded (`Ok`) or failed (`Err`, with the reason).
    /// On failure the session ends with `Authentication` and no call reaches
    /// the spreadsheet service; on success it makes the operation's first call.
    pub fn authorized(&mut self, outcome: Result<(), String>) -> (a: Action)
        requires
            old(self).wf(),
            old(self)@.stage == Stage::Authorizing,
        ensures
            final(self).wf(),
            outcome is Err ==> final(self)@ == old(self)@.at(Stage::Finished) && ended_in(
                final(self)@,
                a,
                GatewayError::Authentication(outcome->Err_0),
            ),
            outcome is Ok ==> match old(self)@.operation {
                Operation::ReadRange => final(self)@ == old(self)@.at(Stage::Fetching)
                    && calls_get_values(a, old(self)@.spreadsheet_id, old(self)@.range),
                Operation::WriteRange => final(self)@ == old(self)@.at(Stage::Clearing)
                    && calls_clear(a, old(self)@.spreadsheet_id, old(self)@.range),
                Operation::ListSheetTitles => final(self)@ == old(self)@.at(Stage::FetchingMetadata)
                    && calls_get_metadata(a, old(self)@.spreadsheet_id),
            },
    {
        match outcome {
            Ok(_) => {
                let spreadsheet_id = self.spreadsheet_id.clone();
                match self.operation {
                    Operation::ReadRange => {
                        self.stage = Stage::Fetching;
                        Action::Call(Request::GetValues { spreadsheet_id, range: self.range.clone() })
                    },
                    Operation::WriteRange => {
                        self.stage = Stage::Clearing;
                        Action::Call(Request::ClearValues { spreadsheet_id, range: self.range.clone() })
                    },
                    Operation::ListSheetTitles => {
                        self.stage = Stage::FetchingMetadata;
                        Action::Call(Request::GetMetadata { spreadsheet_id })
                    },
                }
            },
            Err(d) => {
                self.stage = Stage::Finished;
                Action::Finish(Err(GatewayError::Authentication(d)))
            },
        }
    }

    /// The values of the range arrived (`Ok`, `None` where the service
    /// reported none) or the read failed (`Err`, with the reason). On success
    /// the session ends with the rows as JSON text, no rows where none were
    /// reported.
    pub fn values_fetched(&mut self, outcome: Result<Option<Vec<Vec<String>>>, String>) -> (a: Action)
        requires
            old(self).wf(),
            old(self)@.stage == Stage::Fetching,
        ensures
            final(self).wf(),
            final(self)@ == old(self)@.at(Stage::Finished),
            outcome is Err ==> a == Action::Finish(Err(GatewayError::Fetch(outcome->Err_0))),
            outcome is Ok ==> ends_read(a, json_of_rows(reported_rows(outcome->Ok_0))),
            outcome is Ok && reported_rows(outcome->Ok_0).len() == 0 ==> ends_read(a, "[]"@),
    {
        self.stage = Stage::Finished;
        match outcome {
            Ok(rows) => {
                let encoded = encode_rows(rows);
                match encoded {
                    Ok(j) => Action::Finish(Ok(Reply::Values(j))),
                    Err(e) => Action::Finish(Err(e)),
                }
            },
            Err(d) => Action::Finish(Err(GatewayError::Fetch(d))),
        }
    }

    /// The range was cleared (`Ok`) or clearing failed (`Err`, with the
    /// reason). On failure the session ends with `Clear` and nothing is
    /// written; on success it writes the session's values to the same range.
    pub fn cleared(&mut self, outcome: Result<(), String>) -> (a: Action)
        requires
            old(self).wf(),
            old(self)@.stage == Stage::Clearing,
        ensures
            final(self).wf(),
            outcome is Err ==> final(self)@ == old(self)@.at(Stage::Finished) && ended_in(
                final(self)@,
                a,
                GatewayError::Clear(outcome->Err_0),
            ),
            outcome is Ok ==> final(self)@ == (SessionView {
                stage: Stage::Updating,
                values: Seq::empty(),
                ..old(self)@
            }) && calls_update(a, old(self)@.spreadsheet_id, old(self)@.range, old(self)@.values),
    {
        match outcome {
            Ok(_) => {
                let mut values: Vec<Vec<String>> = Vec::new();
                std::mem::swap(&mut values, &mut self.values);
                self.stage = Stage::Updating;
                proof {
                    assert(self.values.deep_view() =~= Seq::<Seq<Seq<char>>>::empty());
                }
                Action::Call(
                    Request::UpdateValues {
                        spreadsheet_id: self.spreadsheet_id.clone(),
                        range: self.range.clone(),
                        major_dimension: String::from_str("ROWS"),
                        value_input_option: String::from_str("USER_ENTERED"),
                        values,
                    },
                )
            },
            Err(d) => {
                self.stage = Stage::Finished;
                Action::Finish(Err(GatewayError::Clear(d)))
            },
        }
    }

    /// The values were written (`Ok`) or writing failed (`Err`, with the
    /// reason). On failure the session ends with `Update`: the range stays
    /// cleared, and nothing is restored or tried again.
    pub fn updated(&mut self, outcome: Result<(), String>) -> (a: Action)
        requires
            old(self).wf(),
            old(self)@.stage == Stage::Updating,
        ensures
            final(self).wf(),
            final(self)@ == old(self)@.at(Stage::Finished),
            outcome is Err ==> a == Action::Finish(Err(GatewayError::Update(outcome->Err_0))),
            outcome is Ok ==> ends_write(a),
    {
        self.stage = Stage::Finished;
        match outcome {
            Ok(_) => Action::Finish(Ok(Reply::Updated(String::from_str("Worksheet updated successfully.")))),
            Err(d) => Action::Finish(Err(GatewayError::Update(d))),
        }
    }

    /// The metadata arrived (`Ok`, with the title of each tab, `None` for a
    /// tab without one, and `None` in place of the list where the metadata
    /// lists no tabs) or could not be retrieved (`Err`, with the reason).
    pub fn metadata_fetched(&mut self, outcome: Result<Option<Vec<Option<String>>>, String>) -> (a: Action)
        requires
            old(self).wf(),
            old(self)@.stage == Stage::FetchingMetadata,
        ensures
            final(self).wf(),
            final(self)@ == old(self)@.at(Stage::Finished),
            outcome is Err ==> a == Action::Finish(Err(GatewayError::Metadata(outcome->Err_0))),
            outcome is Ok && lists_no_tab(outcome->Ok_0) ==> a == Action::Finish(
                Err(GatewayError::NoSheetsFound),
            ),
            outcome is Ok && !lists_no_tab(outcome->Ok_0) ==> ends_listing(
                a,
                present_titles(outcome->Ok_0->Some_0@),
            ),
    {
        self.stage = Stage::Finished;
        match outcome {
            Ok(tabs) => match sheet_titles(tabs) {
                Ok(t) => Action::Finish(Ok(Reply::Titles(t))),
                Err(e) => Action::Finish(Err(e)),
            },
            Err(d) => Action::Finish(Err(GatewayError::Metadata(d))),
        }
    }
}

} // verus!
