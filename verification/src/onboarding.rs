//! The checks made before the bot starts: is the configuration complete, and
//! can the database be written?

use vstd::prelude::*;

verus! {

/// Why the bot cannot start.
#[derive(Debug)]
pub enum OnboardingError {
    MissingPrivateKey,
    /// The names of the credentials that are missing.
    MissingApiCredentials(Vec<&'static str>),
    /// The path of the database file that may not be written.
    DatabasePermissionDenied(String),
    /// The message of any other failure to open the database file.
    DatabaseError(String),
}

/// What an `OnboardingError` holds, as plain values.
pub enum OnboardingErrorView {
    MissingPrivateKey,
    MissingApiCredentials(Seq<Seq<char>>),
    DatabasePermissionDenied(Seq<char>),
    DatabaseError(Seq<char>),
}

/// The character sequences of a list of names.
pub open spec fn names(list: Seq<&'static str>) -> Seq<Seq<char>> {
    list.map_values(|name: &'static str| name@)
}

impl View for OnboardingError {
    type V = OnboardingErrorView;

    open spec fn view(&self) -> OnboardingErrorView {
        match self {
            OnboardingError::MissingPrivateKey => OnboardingErrorView::MissingPrivateKey,
            OnboardingError::MissingApiCredentials(list) => {
                OnboardingErrorView::MissingApiCredentials(names(list@))
            },
            OnboardingError::DatabasePermissionDenied(path) => {
                OnboardingErrorView::DatabasePermissionDenied(path@)
            },
            OnboardingError::DatabaseError(message) => OnboardingErrorView::DatabaseError(message@),
        }
    }
}

/// What came of opening the database file for writing.
#[derive(Debug)]
pub enum OpenOutcome {
    Opened,
    PermissionDenied,
    /// Any other failure, with its message.
    Failed(String),
}

/// Whether a setting is missing: it is when it is not set or set to nothing.
pub open spec fn is_missing(value: Option<&str>) -> bool {
    match value {
        Some(text) => text@.len() == 0,
        None => true,
    }
}

/// `list`, with `name` appended if `value` is missing.
pub open spec fn with_missing(list: Seq<Seq<char>>, name: Seq<char>, value: Option<&str>) -> Seq<
    Seq<char>,
> {
    if is_missing(value) {
        list.push(name)
    } else {
        list
    }
}

/// The names of the missing credentials, in the order key, secret, passphrase.
pub open spec fn missing_credentials(
    key: Option<&str>,
    secret: Option<&str>,
    passphrase: Option<&str>,
) -> Seq<Seq<char>> {
    with_missing(
        with_missing(with_missing(Seq::empty(), "CLOB_API_KEY"@, key), "CLOB_API_SECRET"@, secret),
        "CLOB_PASSPHRASE"@,
        passphrase,
    )
}

fn missing(value: Option<&str>) -> (r: bool)
    ensures
        r == is_missing(value),
{
    match value {
        Some(text) => text.is_empty(),
        None => true,
    }
}

/// The private key must be set, and not to nothing.
pub fn check_private_key(value: Option<&str>) -> (r: Result<(), OnboardingError>)
    ensures
        r.is_ok() == !is_missing(value),
        r matches Err(e) ==> e@ == OnboardingErrorView::MissingPrivateKey,
{
    if missing(value) {
        Err(OnboardingError::MissingPrivateKey)
    } else {
        Ok(())
    }
}

/// The three credentials must all be set, and none to nothing; the error names
/// those that are missing.
pub fn check_api_credentials(
    key: Option<&str>,
    secret: Option<&str>,
    passphrase: Option<&str>,
) -> (r: Result<(), OnboardingError>)
    ensures
        r.is_ok() == (missing_credentials(key, secret, passphrase).len() == 0),
        r matches Err(e) ==> e@ == OnboardingErrorView::MissingApiCredentials(
            missing_credentials(key, secret, passphrase),
        ),
{
    let mut list: Vec<&'static str> = Vec::new();
    assert(names(list@) =~= Seq::<Seq<char>>::empty());
    if missing(key) {
        let ghost before = list@;
        list.push("CLOB_API_KEY");
        assert(names(list@) =~= names(before).push("CLOB_API_KEY"@));
    }
    if missing(secret) {
        let ghost before = list@;
        list.push("CLOB_API_SECRET");
        assert(names(list@) =~= names(before).push("CLOB_API_SECRET"@));
    }
    if missing(passphrase) {
        let ghost before = list@;
        list.push("CLOB_PASSPHRASE");
        assert(names(list@) =~= names(before).push("CLOB_PASSPHRASE"@));
    }
    if list.len() > 0 {
        Err(OnboardingError::MissingApiCredentials(list))
    } else {
        Ok(())
    }
}

/// The database file at `path` must open for writing. `outcome` is what came
/// of opening it.
pub fn check_database_permissions(path: String, outcome: OpenOutcome) -> (r: Result<
    (),
    OnboardingError,
>)
    ensures
        r.is_ok() == (outcome is Opened),
        outcome is PermissionDenied ==> (r matches Err(e) && e@
            == OnboardingErrorView::DatabasePermissionDenied(path@)),
        outcome matches OpenOutcome::Failed(message) ==> (r matches Err(e) && e@
            == OnboardingErrorView::DatabaseError(message@)),
{
    match outcome {
        OpenOutcome::Opened => Ok(()),
        OpenOutcome::PermissionDenied => Err(OnboardingError::DatabasePermissionDenied(path)),
        OpenOutcome::Failed(message) => Err(OnboardingError::DatabaseError(message)),
    }
}

/// Whether a private key is written as the configuration asks: with `0x` in
/// front.
pub open spec fn has_hex_prefix(key: Seq<char>) -> bool {
    key.len() >= 2 && key[0] == '0' && key[1] == 'x'
}

/// Whether a private key starts with `0x`.
pub fn starts_with_hex_prefix(key: &str) -> (r: bool)
    ensures
        r == has_hex_prefix(key@),
{
    key.unicode_len() >= 2 && key.get_char(0) == '0' && key.get_char(1) == 'x'
}

} // verus!
