use vstd::prelude::*;

verus! {

/// Where a visitor without a session is sent.
pub const LOGIN_PATH: &'static str = "/login";

/// The dashboard page up to the greeting.
pub const PAGE_TOP: &'static str = r#"<!DOCTYPE html>
                <html lang="en">
                    <head>
                        <meta http-equiv="content-type" content="text/html; charset=utf-8">
                        <title>Admin dashboard</title>
                    </head>
                    <body>
                        <p>"#;

/// The words that greet the logged-in admin.
pub const GREETING: &'static str = "Welcome ";

/// The mark that ends the greeting.
pub const GREETING_END: &'static str = "!";

/// The dashboard page after the greeting: the list of available actions.
pub const PAGE_BOTTOM: &'static str = r#"</p>
                        <p>Available actions:</p>
                        <ol>
                            <li><a href="/admin/password">Change password</a></li>
                            <li><a href="/admin/newsletters">Send newsletter issue</a></li>
                            <li>
                                <form name="logoutForm" action="/admin/logout" method="post">
                                    <input type="submit" value="Logout">
                                </form> 
                            </li>
                        </ol>
                    </body>
                </html>"#;

/// The dashboard page that greets `username`.
pub open spec fn dashboard_page_text(username: Seq<char>) -> Seq<char> {
    PAGE_TOP@ + GREETING@ + username + GREETING_END@ + PAGE_BOTTOM@
}

/// The HTML of the admin dashboard for the admin named `username`.
pub fn dashboard_page(username: &str) -> (page: String)
    ensures
        page@ == dashboard_page_text(username@),
        page@ == PAGE_TOP@ + "Welcome "@ + username@ + "!"@ + PAGE_BOTTOM@,
{
    let mut page = String::from_str(PAGE_TOP);
    page.append(GREETING);
    page.append(username);
    page.append(GREETING_END);
    page.append(PAGE_BOTTOM);
    page
}

/// The page for `username` shows the greeting `Welcome <username>!` right after the
/// page's opening part.
pub proof fn lemma_page_greets_user(username: Seq<char>)
    ensures
        dashboard_page_text(username).subrange(
            PAGE_TOP@.len() as int,
            (PAGE_TOP@.len() + GREETING@.len() + username.len() + GREETING_END@.len()) as int,
        ) == GREETING@ + username + GREETING_END@,
{
    let page = dashboard_page_text(username);
    let start = PAGE_TOP@.len() as int;
    let greeting = GREETING@ + username + GREETING_END@;
    assert(page =~= PAGE_TOP@ + greeting + PAGE_BOTTOM@);
    assert(page.subrange(start, start + greeting.len()) =~= greeting);
}

/// The page for any username starts with the page's opening part, ends with the list of
/// actions and the closing tags, and is exactly those two around `Welcome <username>!`.
pub proof fn lemma_page_layout(username: Seq<char>)
    ensures
        dashboard_page_text(username) == PAGE_TOP@ + "Welcome "@ + username + "!"@ + PAGE_BOTTOM@,
        dashboard_page_text(username).len() == PAGE_TOP@.len() + 8 + username.len() + 1
            + PAGE_BOTTOM@.len(),
        dashboard_page_text(username).subrange(0, PAGE_TOP@.len() as int) == PAGE_TOP@,
        dashboard_page_text(username).subrange(
            dashboard_page_text(username).len() - PAGE_BOTTOM@.len(),
            dashboard_page_text(username).len() as int,
        ) == PAGE_BOTTOM@,
{
    reveal_strlit("Welcome ");
    reveal_strlit("!");
    let page = dashboard_page_text(username);
    assert(page.subrange(0, PAGE_TOP@.len() as int) =~= PAGE_TOP@);
    assert(page.subrange(page.len() - PAGE_BOTTOM@.len(), page.len() as int) =~= PAGE_BOTTOM@);
}

/// What the dashboard handler has just learned.
pub enum DashboardEvent {
    /// The session was read: the id of the logged-in user, if there is one.
    SessionRead(Option<u128>),
    /// The session could not be read.
    SessionUnreadable,
    /// The logged-in user's name was found.
    UsernameFound(String),
    /// The user's name could not be fetched.
    UsernameUnavailable,
}

/// What the dashboard handler does next.
#[derive(Debug)]
pub enum DashboardAction {
    /// Fetch the name of the user with this id.
    FetchUsername(u128),
    /// Answer `303 See Other` with this location.
    SeeOther(&'static str),
    /// Answer `200 OK` with this HTML page.
    ShowPage(String),
    /// Answer `500 Internal Server Error`.
    InternalError,
}

/// Where the dashboard handler stands.
#[derive(Debug, PartialEq, Eq, Structural)]
pub enum DashboardState {
    /// The session has not been read yet: the handler starts here.
    AwaitingSession,
    /// The session holds this user; their name is being fetched.
    AwaitingUsername(u128),
    /// The answer has been decided.
    Done,
}

/// The decisions of the admin dashboard: a visitor without a session goes to the login
/// page, a logged-in admin is greeted by name once their name has been fetched, and any
/// failure to read the session or the name, or any event that does not fit where the
/// handler stands, is an internal error. Returns where the handler then stands and what
/// it does next.
pub fn admin_dashboard_step(state: DashboardState, event: DashboardEvent) -> (next: (
    DashboardState,
    DashboardAction,
))
    ensures
        match (state, event) {
            (DashboardState::AwaitingSession, DashboardEvent::SessionRead(Some(user_id))) =>
                next.0 == DashboardState::AwaitingUsername(user_id)
                && next.1 == DashboardAction::FetchUsername(user_id),
            (DashboardState::AwaitingSession, DashboardEvent::SessionRead(None)) =>
                next.0 == DashboardState::Done
                && next.1 == DashboardAction::SeeOther(LOGIN_PATH),
            (DashboardState::AwaitingUsername(_), DashboardEvent::UsernameFound(username)) =>
                next.0 == DashboardState::Done
                && (next.1 matches DashboardAction::ShowPage(page)
                && page@ == dashboard_page_text(username@)),
            _ => next.0 == DashboardState::Done && next.1 == DashboardAction::InternalError,
        },
{
    match (state, event) {
        (DashboardState::AwaitingSession, DashboardEvent::SessionRead(Some(user_id))) => (
            DashboardState::AwaitingUsername(user_id),
            DashboardAction::FetchUsername(user_id),
        ),
        (DashboardState::AwaitingSession, DashboardEvent::SessionRead(None)) => (
            DashboardState::Done,
            DashboardAction::SeeOther(LOGIN_PATH),
        ),
        (DashboardState::AwaitingUsername(_), DashboardEvent::UsernameFound(username)) => (
            DashboardState::Done,
            DashboardAction::ShowPage(dashboard_page(username.as_str())),
        ),
        _ => (DashboardState::Done, DashboardAction::InternalError),
    }
}

} // verus!
