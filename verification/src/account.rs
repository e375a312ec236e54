//! The credential store: an account is a base URL, an account name and a
//! secret API key, loaded once from a JSON file and immutable afterwards.
//!
//! Reading the file happens outside this library; the outcome of that
//! read is handed in as a plain value, and everything from there on is
//! verified: shape validation, error classification, header composition
//! and signing with the account's key.

use vstd::prelude::*;
use vstd::string::*;

use crate::error::AssCliError;
use crate::error::AssCliErrorKind;
use crate::sign::parse_url;
use crate::sign::sign_url_string;
use crate::sign::signed_url_of;
use crate::sign::token_is_hex64;
use crate::sign::token_of;
use crate::sign::url_normal_of;

verus! {

/// What deserializing the account shape from JSON text yields: the `url`,
/// `name` and `apikey` string fields of a JSON object, or `None` when the
/// text is not a JSON object carrying all three as strings.
pub uninterp spec fn account_of(text: Seq<char>) -> Option<(Seq<char>, Seq<char>, Seq<char>)>;

/// Relies on `serde_json`: `from_str` to a `Value`, then the `url`,
/// `name` and `apikey` fields read as strings. The result is a function
/// of the text alone.
#[verifier::external_body]
fn parse_account_json(text: &str) -> (r: Option<(String, String, String)>)
    ensures
        r is Some <==> account_of(text@) is Some,
        r matches Some(t) ==> account_of(text@) == Some((t.0@, t.1@, t.2@)),
{
    let v: serde_json::Value = serde_json::from_str(text).ok()?;
    let url = v.get("url")?.as_str()?.to_string();
    let name = v.get("name")?.as_str()?.to_string();
    let apikey = v.get("apikey")?.as_str()?.to_string();
    Some((url, name, apikey))
}

/// The outcome of reading a credential file, as handed in from the edge
/// of the program: the file's text, or the failure that prevented it.
#[derive(Debug)]
pub enum ReadOutcome {
    /// The file was read fully; here is its text.
    Content(String),
    /// The file could not be opened; the message says why.
    OpenFailed(String),
    /// The file was opened but could not be read; the message says why.
    ReadFailed(String),
}

/// A credential set: base URL, account name and secret API key.
#[derive(Debug)]
pub struct Account {
    pub url: String,
    pub name: String,
    pub apikey: String,
}

/// A character that an HTTP header value can carry: horizontal tab or
/// anything from the space character on, except delete.
pub open spec fn is_header_value_char(c: char) -> bool {
    c == '\t' || (c >= ' ' && c != '\u{7f}')
}

/// Text that an HTTP header value can carry.
pub open spec fn is_header_value_text(s: Seq<char>) -> bool {
    forall|i: int| 0 <= i < s.len() ==> is_header_value_char(#[trigger] s[i])
}

/// Whether every character of `s` can stand in an HTTP header value.
fn str_is_header_value(s: &str) -> (r: bool)
    ensures
        r == is_header_value_text(s@),
{
    let len = s.unicode_len();
    let mut i: usize = 0;
    while i < len
        invariant
            i <= len,
            len == s@.len(),
            forall|j: int| 0 <= j < i ==> is_header_value_char(#[trigger] s@[j]),
        decreases len - i,
    {
        let c = s.get_char(i);
        if !(c == '\t' || (c >= ' ' && c != '\u{7f}')) {
            assert(!is_header_value_char(s@[i as int]));
            return false;
        }
        i = i + 1;
    }
    true
}

/// How loading from credential text must turn out: an account carrying
/// exactly the text's field values and meeting the account invariant —
/// its URL parses as an absolute URL and its API key is non-empty — or
/// an `InvalidAccountFile` error, exactly when the text misses the shape
/// or breaks the invariant. There is no partial success.
pub open spec fn loaded_account_ok(text: Seq<char>, r: Result<Account, AssCliError>) -> bool {
    match r {
        Ok(a) => account_of(text) == Some((a.url@, a.name@, a.apikey@)) && url_normal_of(a.url@)
            is Some && a.apikey@.len() > 0,
        Err(e) => e.kind is InvalidAccountFile && match account_of(text) {
            None => true,
            Some(t) => url_normal_of(t.0) is None || t.2.len() == 0,
        },
    }
}

impl Account {
    /// Builds an account from the text of a credential file; see
    /// [`loaded_account_ok`] for the exact guarantee, including the
    /// account invariant.
    pub fn from_json(text: &str) -> (r: Result<Account, AssCliError>)
        ensures
            loaded_account_ok(text@, r),
    {
        let (url, name, apikey) = match parse_account_json(text) {
            Some(t) => t,
            None => {
                return Err(
                    AssCliError::invalid_account_file(
                        String::from_str("account data does not have the expected shape"),
                    ),
                );
            },
        };
        if parse_url(url.as_str()).is_none() {
            return Err(
                AssCliError::invalid_account_file(
                    String::from_str("account URL is not an absolute URL"),
                ),
            );
        }
        if apikey.as_str().unicode_len() == 0 {
            return Err(
                AssCliError::invalid_account_file(String::from_str("account API key is empty")),
            );
        }
        Ok(Account { url, name, apikey })
    }

    /// Builds an account from the outcome of reading a credential file:
    /// a file that could not be opened is `NotFound`, one that could not
    /// be read is `PermissionDenied`, and text of the wrong shape — or
    /// one breaking the account invariant — is `InvalidAccountFile`.
    pub fn from_read(outcome: ReadOutcome) -> (r: Result<Account, AssCliError>)
        ensures
            match outcome {
                ReadOutcome::Content(text) => loaded_account_ok(text@, r),
                ReadOutcome::OpenFailed(m) => r matches Err(e) && e.kind
                    == AssCliErrorKind::NotFound(m),
                ReadOutcome::ReadFailed(m) => r matches Err(e) && e.kind
                    == AssCliErrorKind::PermissionDenied(m),
            },
    {
        match outcome {
            ReadOutcome::Content(text) => Account::from_json(text.as_str()),
            ReadOutcome::OpenFailed(m) => Err(AssCliError::not_found(m)),
            ReadOutcome::ReadFailed(m) => Err(AssCliError::permission_denied(m)),
        }
    }

    /// The default headers sent with every request: bearer authorization
    /// with the API key, JSON accept, and the public ACL marker. Fails
    /// with `InvalidHeaderValue` exactly when the key has characters that
    /// a header value cannot carry.
    pub fn get_headers(&self) -> (r: Result<Vec<(String, String)>, AssCliError>)
        ensures
            match r {
                Ok(hs) => is_header_value_text(self.apikey@) && hs@.len() == 3 && hs@[0].0@
                    == "Authorization"@ && hs@[0].1@ == "bearer "@ + self.apikey@ && hs@[1].0@
                    == "Accept"@ && hs@[1].1@ == "application/json"@ && hs@[2].0@ == "x-ass-acl"@
                    && hs@[2].1@ == "public"@,
                Err(e) => !is_header_value_text(self.apikey@) && e.kind
                    == AssCliErrorKind::InvalidHeaderValue,
            },
    {
        if !str_is_header_value(self.apikey.as_str()) {
            return Err(AssCliError::invalid_header_value());
        }
        let mut auth = String::from_str("bearer ");
        auth.append(self.apikey.as_str());
        let mut hs: Vec<(String, String)> = Vec::new();
        hs.push((String::from_str("Authorization"), auth));
        hs.push((String::from_str("Accept"), String::from_str("application/json")));
        hs.push((String::from_str("x-ass-acl"), String::from_str("public")));
        Ok(hs)
    }

    /// Signs an arbitrary URL with this account's key; see
    /// [`sign_url_string`] for the exact guarantee.
    pub fn sign_url(&self, url: &str) -> (r: Result<String, AssCliError>)
        ensures
            match r {
                Ok(s) => Some(s@) == signed_url_of(url@, self.apikey@) && token_is_hex64(
                    token_of(url_normal_of(url@).unwrap(), self.apikey@),
                ),
                Err(e) => signed_url_of(url@, self.apikey@) is None && e.kind
                    == AssCliErrorKind::UrlParseError,
            },
    {
        sign_url_string(url, self.apikey.as_str())
    }
}

/// The path of the per-account credential file under the configuration
/// directory: `<dir>/ass-cli/<name>.json`, with no separator doubled.
pub open spec fn config_path_of(dir: Seq<char>, name: Seq<char>) -> Seq<char> {
    (if dir.len() == 0 || dir.last() == '/' {
        dir
    } else {
        dir + "/"@
    }) + "ass-cli/"@ + name + ".json"@
}

/// The credential-file path for an account name under a configuration
/// directory.
pub fn account_config_path(config_dir: &str, account: &str) -> (r: String)
    ensures
        r@ == config_path_of(config_dir@, account@),
{
    let len = config_dir.unicode_len();
    let mut out = String::from_str(config_dir);
    if !(len == 0 || config_dir.get_char(len - 1) == '/') {
        out.append("/");
    }
    out.append("ass-cli/");
    out.append(account);
    out.append(".json");
    out
}

} // verus!
