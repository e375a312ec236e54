//! The API client: owns a credential set and builds every request the
//! client sends, as a plain value; interprets every response the service
//! returns.
//!
//! The transport itself lives outside the library. A [`RequestPlan`]
//! says exactly which method, URL and headers to use; an [`HttpOutcome`]
//! hands back what happened. Interpretation classifies failures into the
//! closed error taxonomy: transport failures and non-success statuses
//! are `RequestError`, malformed bodies are `JsonError`.

use vstd::prelude::*;
use vstd::string::*;

use crate::account::Account;
use crate::account::is_header_value_text;
use crate::data::AssData;
use crate::data::json_array_of;
use crate::data::json_envelope_of;
use crate::encode::dec_chars_of;
use crate::encode::form_encoded_of;
use crate::encode::form_encode;
use crate::encode::u64_to_dec;
use crate::error::AssCliError;
use crate::error::AssCliErrorKind;
use crate::sign::parse_url;
use crate::sign::signed_url_of;
use crate::sign::sign_url_string;
use crate::sign::token_is_hex64;
use crate::sign::token_of;
use crate::sign::url_normal_of;

verus! {

/// The views of a sequence of string pairs.
pub open spec fn pairs_view(qs: Seq<(String, String)>) -> Seq<(Seq<char>, Seq<char>)> {
    qs.map(|i: int, q: (String, String)| (q.0@, q.1@))
}

/// The default headers sent with every request, as views.
pub open spec fn default_headers_view(apikey: Seq<char>) -> Seq<(Seq<char>, Seq<char>)> {
    seq![
        ("Authorization"@, "bearer "@ + apikey),
        ("Accept"@, "application/json"@),
        ("x-ass-acl"@, "public"@),
    ]
}

/// How a request is to be carried out.
#[derive(Debug)]
pub enum HttpMethod {
    /// A plain GET.
    Get,
    /// A multipart POST whose single part, named `file`, carries the
    /// contents of this local file.
    PostFile { local_path: String },
}

/// One request, fully determined: method, URL and headers.
#[derive(Debug)]
pub struct RequestPlan {
    pub method: HttpMethod,
    pub url: String,
    pub headers: Vec<(String, String)>,
}

/// What came back from carrying a request out: a transport failure, or
/// a status code with a body.
#[derive(Debug)]
pub enum HttpOutcome {
    TransportError(String),
    Response { status: u16, body: String },
}

/// The API client: one account, plus its base URL in normalized form.
#[derive(Debug)]
pub struct AssClient {
    pub account: Account,
    pub base: String,
}

impl AssClient {
    /// The cached base URL is the normalized rendering of the account's
    /// URL text.
    pub open spec fn wf(self) -> bool {
        url_normal_of(self.account.url@) == Some(self.base@)
    }

    /// The base URL with a trailing slash, under which every endpoint
    /// and public URL lives.
    pub open spec fn base_slash(self) -> Seq<char> {
        if self.base@.len() > 0 && self.base@.last() == '/' {
            self.base@
        } else {
            self.base@ + "/"@
        }
    }

    /// The `files` endpoint.
    pub open spec fn spec_files_url(self) -> Seq<char> {
        self.base_slash() + "files"@
    }

    /// The `files` endpoint with a query string.
    pub open spec fn spec_search_url(self, qs: Seq<(Seq<char>, Seq<char>)>) -> Seq<char> {
        if qs.len() == 0 {
            self.spec_files_url()
        } else {
            self.spec_files_url() + "?"@ + query_string_of(qs)
        }
    }

    /// The metadata endpoint of the file with this id.
    pub open spec fn spec_file_info_url(self, id: u64) -> Seq<char> {
        self.base_slash() + "files/"@ + dec_chars_of(id as nat)
    }

    /// The rendition endpoint of the file with this id.
    pub open spec fn spec_file_rendition_url(self, id: u64) -> Seq<char> {
        self.base_slash() + "files/"@ + dec_chars_of(id as nat) + "/image"@
    }

    /// The metadata endpoint of the image with this id.
    pub open spec fn spec_image_info_url(self, id: u64) -> Seq<char> {
        self.base_slash() + "images/"@ + dec_chars_of(id as nat)
    }

    /// The image upload endpoint.
    pub open spec fn spec_images_url(self) -> Seq<char> {
        self.base_slash() + "images"@
    }

    /// The upload endpoint for a destination folder and a filename:
    /// `files/` followed by the destination text as given, then the
    /// filename. A destination starting with `/` therefore yields a
    /// doubled separator, as the documented endpoint composition does.
    pub open spec fn spec_upload_file_url(self, dest: Seq<char>, filename: Seq<char>) -> Seq<
        char,
    > {
        self.base_slash() + "files/"@ + dest + filename
    }

    /// The public URL of the file at `path` under this account, before
    /// signing.
    pub open spec fn spec_public_file_url(self, path: Seq<char>) -> Seq<char> {
        self.base_slash() + "users/"@ + self.account.name@ + "/files/"@ + path
    }

    /// The public URL of the image with this id under this account,
    /// before signing.
    pub open spec fn spec_public_image_url(self, id: u64) -> Seq<char> {
        self.base_slash() + "users/"@ + self.account.name@ + "/images/"@ + dec_chars_of(id as nat)
            + ".jpg"@
    }

    /// Builds a client around an account. Fails with `UrlParseError`
    /// exactly when the account's URL text is not an absolute URL.
    pub fn new(account: Account) -> (r: Result<AssClient, AssCliError>)
        ensures
            match r {
                Ok(c) => c.wf() && c.account == account,
                Err(e) => url_normal_of(account.url@) is None && e.kind
                    == AssCliErrorKind::UrlParseError,
            },
    {
        match parse_url(account.url.as_str()) {
            Some(base) => Ok(AssClient { account, base }),
            None => Err(AssCliError::url_parse_error()),
        }
    }

    /// The base URL with a trailing slash, as text.
    fn base_with_slash(&self) -> (r: String)
        ensures
            r@ == self.base_slash(),
    {
        let len = self.base.as_str().unicode_len();
        let mut out = self.base.clone();
        if len == 0 || self.base.as_str().get_char(len - 1) != '/' {
            out.append("/");
        }
        out
    }

    /// Signs an arbitrary URL with this account's key.
    pub fn sign_url(&self, url: &str) -> (r: Result<String, AssCliError>)
        ensures
            match r {
                Ok(s) => Some(s@) == signed_url_of(url@, self.account.apikey@) && token_is_hex64(
                    token_of(url_normal_of(url@).unwrap(), self.account.apikey@),
                ),
                Err(e) => signed_url_of(url@, self.account.apikey@) is None && e.kind
                    == AssCliErrorKind::UrlParseError,
            },
    {
        sign_url_string(url, self.account.apikey.as_str())
    }

    /// The signed public URL of the file at `path`.
    pub fn get_file_url(&self, path: &str) -> (r: Result<String, AssCliError>)
        ensures
            match r {
                Ok(s) => Some(s@) == signed_url_of(
                    self.spec_public_file_url(path@),
                    self.account.apikey@,
                ),
                Err(e) => signed_url_of(self.spec_public_file_url(path@), self.account.apikey@)
                    is None && e.kind == AssCliErrorKind::UrlParseError,
            },
    {
        let mut url = self.base_with_slash();
        url.append("users/");
        url.append(self.account.name.as_str());
        url.append("/files/");
        url.append(path);
        self.sign_url(url.as_str())
    }

    /// The signed public URL of the image with this id.
    pub fn get_image_url(&self, id: u64) -> (r: Result<String, AssCliError>)
        ensures
            match r {
                Ok(s) => Some(s@) == signed_url_of(
                    self.spec_public_image_url(id),
                    self.account.apikey@,
                ),
                Err(e) => signed_url_of(self.spec_public_image_url(id), self.account.apikey@)
                    is None && e.kind == AssCliErrorKind::UrlParseError,
            },
    {
        let mut url = self.base_with_slash();
        url.append("users/");
        url.append(self.account.name.as_str());
        url.append("/images/");
        url.append(u64_to_dec(id).as_str());
        url.append(".jpg");
        self.sign_url(url.as_str())
    }

    /// A GET plan for `url` with the default headers.
    fn get_plan(&self, url: String) -> (r: Result<RequestPlan, AssCliError>)
        ensures
            match r {
                Ok(p) => p.method is Get && p.url == url && pairs_view(p.headers@)
                    =~= default_headers_view(self.account.apikey@),
                Err(e) => !is_header_value_text(self.account.apikey@) && e.kind
                    == AssCliErrorKind::InvalidHeaderValue,
            },
    {
        let headers = match self.account.get_headers() {
            Ok(hs) => hs,
            Err(e) => {
                return Err(e);
            },
        };
        proof {
            assert(pairs_view(headers@) =~= default_headers_view(self.account.apikey@));
        }
        Ok(RequestPlan { method: HttpMethod::Get, url, headers })
    }

    /// The plan of a search: GET on the `files` endpoint with the given
    /// query filters, form-urlencoded.
    pub fn search_request(&self, queries: &Vec<(String, String)>) -> (r: Result<
        RequestPlan,
        AssCliError,
    >)
        ensures
            match r {
                Ok(p) => p.method is Get && p.url@ == self.spec_search_url(pairs_view(queries@))
                    && pairs_view(p.headers@) =~= default_headers_view(self.account.apikey@),
                Err(e) => !is_header_value_text(self.account.apikey@) && e.kind
                    == AssCliErrorKind::InvalidHeaderValue,
            },
    {
        let mut url = self.base_with_slash();
        url.append("files");
        if queries.len() > 0 {
            url.append("?");
            url.append(build_query_string(queries).as_str());
        }
        self.get_plan(url)
    }

    /// The plan of a metadata fetch for the file with this id.
    pub fn file_info_request_by_id(&self, id: u64) -> (r: Result<RequestPlan, AssCliError>)
        ensures
            match r {
                Ok(p) => p.method is Get && p.url@ == self.spec_file_info_url(id) && pairs_view(
                    p.headers@,
                ) =~= default_headers_view(self.account.apikey@),
                Err(e) => !is_header_value_text(self.account.apikey@) && e.kind
                    == AssCliErrorKind::InvalidHeaderValue,
            },
    {
        let mut url = self.base_with_slash();
        url.append("files/");
        url.append(u64_to_dec(id).as_str());
        self.get_plan(url)
    }

    /// The plan of a metadata fetch for the file at a path key: a search
    /// on the `path` filter.
    pub fn file_info_request_by_path(&self, key: &str) -> (r: Result<RequestPlan, AssCliError>)
        ensures
            match r {
                Ok(p) => p.method is Get && p.url@ == self.spec_files_url() + "?path="@
                    + form_encoded_of(key@) && pairs_view(p.headers@) =~= default_headers_view(
                    self.account.apikey@,
                ),
                Err(e) => !is_header_value_text(self.account.apikey@) && e.kind
                    == AssCliErrorKind::InvalidHeaderValue,
            },
    {
        let mut url = self.base_with_slash();
        url.append("files");
        url.append("?path=");
        url.append(form_encode(key).as_str());
        self.get_plan(url)
    }

    /// The plan of a rendition fetch for the file with this id.
    pub fn file_rendition_request(&self, id: u64) -> (r: Result<RequestPlan, AssCliError>)
        ensures
            match r {
                Ok(p) => p.method is Get && p.url@ == self.spec_file_rendition_url(id)
                    && pairs_view(p.headers@) =~= default_headers_view(self.account.apikey@),
                Err(e) => !is_header_value_text(self.account.apikey@) && e.kind
                    == AssCliErrorKind::InvalidHeaderValue,
            },
    {
        let mut url = self.base_with_slash();
        url.append("files/");
        url.append(u64_to_dec(id).as_str());
        url.append("/image");
        self.get_plan(url)
    }

    /// The plan of a metadata fetch for the image with this id.
    pub fn image_info_request(&self, id: u64) -> (r: Result<RequestPlan, AssCliError>)
        ensures
            match r {
                Ok(p) => p.method is Get && p.url@ == self.spec_image_info_url(id) && pairs_view(
                    p.headers@,
                ) =~= default_headers_view(self.account.apikey@),
                Err(e) => !is_header_value_text(self.account.apikey@) && e.kind
                    == AssCliErrorKind::InvalidHeaderValue,
            },
    {
        let mut url = self.base_with_slash();
        url.append("images/");
        url.append(u64_to_dec(id).as_str());
        self.get_plan(url)
    }

    /// The plan of an image upload: multipart POST of the local file to
    /// the `images` endpoint.
    pub fn upload_image_request(&self, local_path: &str) -> (r: Result<RequestPlan, AssCliError>)
        ensures
            match r {
                Ok(p) => p.method matches HttpMethod::PostFile { local_path: lp } && lp@
                    == local_path@ && p.url@ == self.spec_images_url() && pairs_view(p.headers@)
                    =~= default_headers_view(self.account.apikey@),
                Err(e) => !is_header_value_text(self.account.apikey@) && e.kind
                    == AssCliErrorKind::InvalidHeaderValue,
            },
    {
        let headers = match self.account.get_headers() {
            Ok(hs) => hs,
            Err(e) => {
                return Err(e);
            },
        };
        proof {
            assert(pairs_view(headers@) =~= default_headers_view(self.account.apikey@));
        }
        let mut url = self.base_with_slash();
        url.append("images");
        Ok(
            RequestPlan {
                method: HttpMethod::PostFile { local_path: String::from_str(local_path) },
                url,
                headers,
            },
        )
    }

    /// The plan of a file upload: multipart POST of the local file to
    /// the upload endpoint for the destination and the file's name, with
    /// the default headers followed by the given extra headers.
    pub fn upload_file_request(
        &self,
        local_path: &str,
        destination: &str,
        filename: &str,
        extra_headers: &Vec<(String, String)>,
    ) -> (r: Result<RequestPlan, AssCliError>)
        ensures
            match r {
                Ok(p) => p.method matches HttpMethod::PostFile { local_path: lp } && lp@
                    == local_path@ && p.url@ == self.spec_upload_file_url(destination@, filename@)
                    && pairs_view(p.headers@) =~= default_headers_view(self.account.apikey@)
                    + pairs_view(extra_headers@),
                Err(e) => !is_header_value_text(self.account.apikey@) && e.kind
                    == AssCliErrorKind::InvalidHeaderValue,
            },
    {
        let mut headers = match self.account.get_headers() {
            Ok(hs) => hs,
            Err(e) => {
                return Err(e);
            },
        };
        let ghost whole = default_headers_view(self.account.apikey@) + pairs_view(extra_headers@);
        proof {
            assert forall|j: int| 0 <= j < 3 implies #[trigger] pairs_view(headers@)[j]
                == whole[j] by {}
        }
        let mut i: usize = 0;
        while i < extra_headers.len()
            invariant
                i <= extra_headers@.len(),
                headers@.len() == 3 + i,
                whole == default_headers_view(self.account.apikey@) + pairs_view(extra_headers@),
                whole.len() == 3 + extra_headers@.len(),
                forall|j: int| 0 <= j < 3 + i ==> #[trigger] pairs_view(headers@)[j] == whole[j],
            decreases extra_headers@.len() - i,
        {
            let pair = (extra_headers[i].0.clone(), extra_headers[i].1.clone());
            proof {
                assert(whole[3 + i] == (extra_headers@[i as int].0@, extra_headers@[i as int].1@));
            }
            let ghost hs0 = headers@;
            headers.push(pair);
            i = i + 1;
            proof {
                assert forall|j: int| 0 <= j < 3 + i implies #[trigger] pairs_view(headers@)[j]
                    == whole[j] by {
                    if j < 3 + i - 1 {
                        assert(headers@[j] == hs0[j]);
                        assert(pairs_view(hs0)[j] == whole[j]);
                    } else {
                        assert(headers@[j] == (extra_headers@[j - 3].0, extra_headers@[j - 3].1));
                    }
                }
            }
        }
        proof {
            assert(pairs_view(headers@) =~= whole);
        }
        let mut url = self.base_with_slash();
        url.append("files/");
        url.append(destination);
        url.append(filename);
        Ok(
            RequestPlan {
                method: HttpMethod::PostFile { local_path: String::from_str(local_path) },
                url,
                headers,
            },
        )
    }
}

/// The query-string text of a sequence of key/value filters: each pair
/// form-urlencoded as `key=value`, pairs joined with `&`.
pub open spec fn query_string_of(qs: Seq<(Seq<char>, Seq<char>)>) -> Seq<char>
    decreases qs.len(),
{
    if qs.len() == 0 {
        Seq::empty()
    } else if qs.len() == 1 {
        query_pair_of(qs[0])
    } else {
        query_string_of(qs.drop_last()) + "&"@ + query_pair_of(qs.last())
    }
}

/// One form-urlencoded `key=value` pair.
pub open spec fn query_pair_of(q: (Seq<char>, Seq<char>)) -> Seq<char> {
    form_encoded_of(q.0) + "="@ + form_encoded_of(q.1)
}

/// Builds the query-string text for the given filters.
pub fn build_query_string(queries: &Vec<(String, String)>) -> (r: String)
    ensures
        r@ == query_string_of(pairs_view(queries@)),
{
    let mut out = String::new();
    let mut i: usize = 0;
    while i < queries.len()
        invariant
            i <= queries@.len(),
            out@ == query_string_of(pairs_view(queries@).subrange(0, i as int)),
        decreases queries@.len() - i,
    {
        if i > 0 {
            out.append("&");
        }
        out.append(form_encode(queries[i].0.as_str()).as_str());
        out.append("=");
        out.append(form_encode(queries[i].1.as_str()).as_str());
        i = i + 1;
        proof {
            let pre = pairs_view(queries@).subrange(0, i as int);
            assert(pre.drop_last() =~= pairs_view(queries@).subrange(0, i - 1 as int));
            assert(pre.last() == (queries@[i - 1].0@, queries@[i - 1].1@));
            assert(out@ =~= query_string_of(pre));
        }
    }
    proof {
        assert(pairs_view(queries@).subrange(0, queries@.len() as int) =~= pairs_view(queries@));
    }
    out
}

/// How a single-envelope response is read: transport failures and
/// non-success statuses are `RequestError`; a success body is parsed as
/// an envelope, and a body that is not valid JSON is `JsonError`.
pub open spec fn envelope_interpretation(outcome: HttpOutcome, r: Result<
    AssData,
    AssCliError,
>) -> bool {
    match outcome {
        HttpOutcome::TransportError(m) => r matches Err(e) && e.kind
            == AssCliErrorKind::RequestError(m),
        HttpOutcome::Response { status, body } => if !(200 <= status < 300) {
            r matches Err(e) && e.kind matches AssCliErrorKind::RequestError(m) && m@
                == "unexpected status "@ + dec_chars_of(status as nat)
        } else {
            match r {
                Ok(d) => d.matches_json(body@),
                Err(e) => json_envelope_of(body@) is None && e.kind == AssCliErrorKind::JsonError,
            }
        },
    }
}

/// Reads a single-envelope response; see [`envelope_interpretation`].
pub fn interpret_response(outcome: HttpOutcome) -> (r: Result<AssData, AssCliError>)
    ensures
        envelope_interpretation(outcome, r),
{
    match outcome {
        HttpOutcome::TransportError(m) => Err(AssCliError::request_error(m)),
        HttpOutcome::Response { status, body } => {
            if !(200 <= status && status < 300) {
                let mut msg = String::from_str("unexpected status ");
                msg.append(u64_to_dec(status as u64).as_str());
                Err(AssCliError::request_error(msg))
            } else {
                AssData::from_json(body.as_str())
            }
        },
    }
}

/// How a list response is read: transport failures and non-success
/// statuses are `RequestError`; a success body must be a JSON array and
/// each element an envelope, else `JsonError`. An empty array is a
/// success carrying no envelopes, not an error.
pub open spec fn search_interpretation(outcome: HttpOutcome, r: Result<
    Vec<AssData>,
    AssCliError,
>) -> bool {
    match outcome {
        HttpOutcome::TransportError(m) => r matches Err(e) && e.kind
            == AssCliErrorKind::RequestError(m),
        HttpOutcome::Response { status, body } => if !(200 <= status < 300) {
            r matches Err(e) && e.kind matches AssCliErrorKind::RequestError(m) && m@
                == "unexpected status "@ + dec_chars_of(status as nat)
        } else {
            match json_array_of(body@) {
                None => r matches Err(e) && e.kind == AssCliErrorKind::JsonError,
                Some(items) => match r {
                    Ok(ds) => ds@.len() == items.len() && forall|i: int|
                        0 <= i < items.len() ==> #[trigger] ds@[i].matches_json(items[i]),
                    Err(e) => e.kind == AssCliErrorKind::JsonError && exists|i: int|
                        0 <= i < items.len() && json_envelope_of(#[trigger] items[i]) is None,
                },
            }
        },
    }
}

/// Reads a list response; see [`search_interpretation`].
pub fn interpret_search_response(outcome: HttpOutcome) -> (r: Result<Vec<AssData>, AssCliError>)
    ensures
        search_interpretation(outcome, r),
{
    match outcome {
        HttpOutcome::TransportError(m) => Err(AssCliError::request_error(m)),
        HttpOutcome::Response { status, body } => {
            if !(200 <= status && status < 300) {
                let mut msg = String::from_str("unexpected status ");
                msg.append(u64_to_dec(status as u64).as_str());
                return Err(AssCliError::request_error(msg));
            }
            let items = match crate::data::json_array_items(body.as_str()) {
                Ok(v) => v,
                Err(e) => {
                    return Err(e);
                },
            };
            let ghost items_view = json_array_of(body@).unwrap();
            let mut ds: Vec<AssData> = Vec::new();
            let mut i: usize = 0;
            while i < items.len()
                invariant
                    i <= items@.len(),
                    outcome == (HttpOutcome::Response { status, body }),
                    200 <= status < 300,
                    json_array_of(body@) == Some(items_view),
                    items_view == items.deep_view(),
                    ds@.len() == i,
                    forall|j: int| 0 <= j < i ==> #[trigger] ds@[j].matches_json(items_view[j]),
                decreases items@.len() - i,
            {
                match AssData::from_json(items[i].as_str()) {
                    Ok(d) => ds.push(d),
                    Err(e) => {
                        assert(json_envelope_of(items_view[i as int]) is None);
                        return Err(e);
                    },
                }
                i = i + 1;
            }
            Ok(ds)
        },
    }
}

/// A query matching zero remote items is a success carrying an empty
/// list, not an error: under the list-response reading, a success body
/// whose array is empty yields `Ok` with no envelopes.
pub proof fn lemma_empty_search_is_ok(
    status: u16,
    body: String,
    r: Result<Vec<AssData>, AssCliError>,
)
    requires
        search_interpretation(HttpOutcome::Response { status, body }, r),
        200 <= status < 300,
        json_array_of(body@) == Some(Seq::<Seq<char>>::empty()),
    ensures
        r matches Ok(ds) && ds@.len() == 0,
{
}

} // verus!
