//! The plain request values the HTTP layer hands the engine, and the
//! routing decision of the landing page: begin the credential exchange,
//! complete it with a returned code, or serve the page.

use vstd::prelude::*;

verus! {

/// The query parameters returned by the credential provider's redirect.
pub struct Auth {
    pub code: Option<String>,
    pub state: Option<String>,
}

impl Auth {
    /// Whether the redirect carried no complete code/state pair.
    pub fn is_none(&self) -> (r: bool)
        ensures
            r == (self.code is None || self.state is None),
    {
        self.code.is_none() || self.state.is_none()
    }
}

/// A request to fetch one remote spreadsheet.
pub struct FetchArg {
    /// The identifier of the spreadsheet document.
    pub id: String,
}

/// A request to sync one remote spreadsheet into a database table.
pub struct SyncArg {
    /// The identifier of the spreadsheet, also used as the target table name.
    pub id: String,
    /// The connection string of the target database.
    pub db: String,
}

/// What the landing page does for one request.
#[derive(Clone, Copy, Debug, PartialEq, Eq, Structural)]
pub enum IndexAction {
    /// No credential yet and no code returned: redirect to the consent page.
    BeginAuth,
    /// A complete code/state pair came back: exchange it for a credential,
    /// then redirect home.
    CompleteAuth,
    /// A credential is at hand: serve the page.
    Serve,
}

/// The landing-page routing decision, from whether a credential is already
/// held and what the redirect carried.
pub open spec fn index_route_spec(has_token: bool, auth_missing: bool) -> IndexAction {
    if !has_token && auth_missing {
        IndexAction::BeginAuth
    } else if !auth_missing {
        IndexAction::CompleteAuth
    } else {
        IndexAction::Serve
    }
}

/// Decides what the landing page does for one request.
pub fn index_route(has_token: bool, auth: &Auth) -> (a: IndexAction)
    ensures
        a == index_route_spec(has_token, auth.code is None || auth.state is None),
{
    let missing = auth.is_none();
    if !has_token && missing {
        IndexAction::BeginAuth
    } else if !missing {
        IndexAction::CompleteAuth
    } else {
        IndexAction::Serve
    }
}

} // verus!
