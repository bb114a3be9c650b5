use vstd::prelude::*;

verus! {

/// Where the catalog's JSON feed is served.
pub const KEV_JSON_URL: &'static str = "https://www.cisa.gov/sites/default/files/feeds/known_exploited_vulnerabilities.json";

/// The catalog's public page, named in notifications.
pub const KEV_CATALOG_URL: &'static str = "https://www.cisa.gov/known-exploited-vulnerabilities-catalog";

/// Credentials for the push-notification service, supplied by the caller.
pub struct NotifierConfig {
    pub app_token: Option<String>,
    pub user_key: Option<String>,
}

/// A credential that the push-notification service needs.
#[derive(Debug, Clone, Copy, PartialEq, Eq, Structural)]
pub enum Credential {
    AppToken,
    UserKey,
}

/// What the notifier is to do.
#[derive(Debug)]
pub enum NotifyPlan {
    /// Send nothing: this credential is missing. Not a failure of the run.
    Skip(Credential),
    /// Send one push message with these credentials.
    Send { token: String, user_key: String, message: String },
}

/// The text of the push message.
pub open spec fn push_text() -> Seq<char> {
    "New KEV Release! "@ + KEV_CATALOG_URL@
}

/// The text of the desktop notification's body.
pub open spec fn desktop_text() -> Seq<char> {
    "Visit "@ + KEV_CATALOG_URL@ + " for more info."@
}

/// The push message announcing a new release.
pub fn push_message() -> (r: String)
    ensures
        r@ == push_text(),
{
    String::from_str("New KEV Release! ").concat(KEV_CATALOG_URL)
}

/// The body of the desktop notification announcing a new release.
pub fn desktop_message() -> (r: String)
    ensures
        r@ == desktop_text(),
{
    String::from_str("Visit ").concat(KEV_CATALOG_URL).concat(" for more info.")
}

/// Decides what the notifier does: the app token is looked at first, then
/// the user key; with both present one message is sent.
pub fn plan_notification(config: NotifierConfig) -> (r: NotifyPlan)
    ensures
        config.app_token is None ==> r == NotifyPlan::Skip(Credential::AppToken),
        config.app_token is Some && config.user_key is None ==> r == NotifyPlan::Skip(
            Credential::UserKey,
        ),
        config.app_token is Some && config.user_key is Some ==> (r matches NotifyPlan::Send {
            token,
            user_key,
            message,
        } && token == config.app_token->0 && user_key == config.user_key->0 && message@
            == push_text()),
{
    match config.app_token {
        None => NotifyPlan::Skip(Credential::AppToken),
        Some(token) => match config.user_key {
            None => NotifyPlan::Skip(Credential::UserKey),
            Some(user_key) => NotifyPlan::Send { token, user_key, message: push_message() },
        },
    }
}

} // verus!
