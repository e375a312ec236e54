//! The resource operations: the decisions behind each subcommand, as
//! pure functions and one small state machine.
//!
//! The loop that talks to the network lives outside the library; it asks
//! the [`UploadBatch`] which file comes next, carries one request out,
//! and hands the outcome back. Every decision — destination
//! normalization, id-or-path disambiguation, filename extraction,
//! fail-fast ordering, which missing field is fatal — is made here,
//! verified.

use vstd::prelude::*;
use vstd::string::*;

use crate::client::AssClient;
use crate::client::HttpOutcome;
use crate::client::interpret_response;
use crate::data::AssData;
use crate::data::json_envelope_of;
use crate::encode::parse_u64;
use crate::encode::parse_u64_of;
use crate::error::AssCliError;
use crate::error::AssCliErrorKind;
use crate::sign::signed_url_of;

verus! {

/// A destination folder with a trailing separator: unchanged if it ends
/// with `/`, else with `/` appended.
pub open spec fn normalized_destination_of(d: Seq<char>) -> Seq<char> {
    if d.len() > 0 && d.last() == '/' {
        d
    } else {
        d + "/"@
    }
}

/// Normalizes a destination folder to end with `/`.
pub fn normalize_destination(d: &str) -> (r: String)
    ensures
        r@ == normalized_destination_of(d@),
{
    let len = d.unicode_len();
    let mut out = String::from_str(d);
    if len == 0 || d.get_char(len - 1) != '/' {
        out.append("/");
    }
    out
}

/// A resource reference: a numeric id, or a path key. The two are
/// mutually exclusive; [`classify_key`] disambiguates.
#[derive(Debug)]
pub enum ResourceKey {
    Id(u64),
    Path(String),
}

/// Disambiguates a resource reference: a numeric parse is attempted
/// first, and only a text that does not parse as an unsigned 64-bit
/// integer is treated as a path key. A path consisting only of digits is
/// therefore taken as an id; this order is deliberate.
pub fn classify_key(key: &str) -> (r: ResourceKey)
    ensures
        match parse_u64_of(key@) {
            Some(id) => r == ResourceKey::Id(id),
            None => r matches ResourceKey::Path(p) && p@ == key@,
        },
{
    match parse_u64(key) {
        Some(id) => ResourceKey::Id(id),
        None => ResourceKey::Path(String::from_str(key)),
    }
}

/// The filename of a local path: the longest suffix without a `/`.
/// Empty when the path ends with a separator.
pub open spec fn filename_of(p: Seq<char>) -> Seq<char>
    decreases p.len(),
{
    if p.len() == 0 {
        Seq::empty()
    } else if p.last() == '/' {
        Seq::empty()
    } else {
        filename_of(p.drop_last()) + seq![p.last()]
    }
}

/// The filename is the suffix that starts right after the last `/`.
proof fn lemma_filename_suffix(p: Seq<char>, k: int)
    requires
        0 <= k <= p.len(),
        forall|j: int| k <= j < p.len() ==> p[j] != '/',
        k > 0 ==> p[k - 1] == '/',
    ensures
        filename_of(p) =~= p.subrange(k, p.len() as int),
    decreases p.len(),
{
    if k == p.len() {
        if p.len() > 0 {
            assert(p.last() == p[k - 1]);
        }
    } else {
        assert(p.last() != '/');
        assert forall|j: int| k <= j < p.drop_last().len() implies p.drop_last()[j] != '/' by {
            assert(p.drop_last()[j] == p[j]);
        }
        lemma_filename_suffix(p.drop_last(), k);
        assert(p.subrange(k, p.len() as int) =~= p.drop_last().subrange(k, p.len() - 1) + seq![
            p.last(),
        ]);
    }
}

/// The filename part of a local path, for the upload endpoint. Fails
/// with `PathError` exactly when the path has no filename (it is empty
/// or ends with a separator). The rule is purely textual — the suffix
/// after the last `/` — with no special treatment of `.` or `..`
/// components, unlike the platform path library's filename accessor.
pub fn filename_from_path(path: &str) -> (r: Result<String, AssCliError>)
    ensures
        match r {
            Ok(f) => f@ == filename_of(path@) && filename_of(path@).len() > 0,
            Err(e) => filename_of(path@).len() == 0 && e.kind == AssCliErrorKind::PathError,
        },
{
    let len = path.unicode_len();
    let mut k: usize = len;
    while k > 0 && path.get_char(k - 1) != '/'
        invariant
            k <= len,
            len == path@.len(),
            forall|j: int| k <= j < len ==> path@[j] != '/',
        decreases k,
    {
        k = k - 1;
    }
    proof {
        lemma_filename_suffix(path@, k as int);
    }
    if k == len {
        Err(AssCliError::path_error())
    } else {
        Ok(String::from_str(path.substring_char(k, len)))
    }
}

/// The metadata request for a resource reference: by id when the key is
/// numeric, by the `path` filter otherwise.
pub fn info_request_for_key(client: &AssClient, key: &ResourceKey) -> (r: Result<
    crate::client::RequestPlan,
    AssCliError,
>)
    ensures
        match r {
            Ok(p) => p.method is Get && (match key {
                ResourceKey::Id(id) => p.url@ == client.spec_file_info_url(*id),
                ResourceKey::Path(text) => p.url@ == client.spec_files_url() + "?path="@
                    + crate::encode::form_encoded_of(text@),
            }) && crate::client::pairs_view(p.headers@) =~= crate::client::default_headers_view(
                client.account.apikey@,
            ),
            Err(e) => !crate::account::is_header_value_text(client.account.apikey@) && e.kind
                == AssCliErrorKind::InvalidHeaderValue,
        },
{
    match key {
        ResourceKey::Id(id) => client.file_info_request_by_id(*id),
        ResourceKey::Path(text) => client.file_info_request_by_path(text.as_str()),
    }
}

/// The `id` field of an envelope, required: its absence is a `JsonError`
/// for the operation that needs it.
pub fn require_id(d: &AssData) -> (r: Result<u64, AssCliError>)
    ensures
        match r {
            Ok(id) => d.id == Some(id),
            Err(e) => d.id is None && e.kind == AssCliErrorKind::JsonError,
        },
{
    match d.get_id() {
        Some(id) => Ok(id),
        None => Err(AssCliError::json_error()),
    }
}

/// The `image_id` field of an envelope, required: its absence is a
/// `JsonError` for the operation that needs it.
pub fn require_image_id(d: &AssData) -> (r: Result<u64, AssCliError>)
    ensures
        match r {
            Ok(id) => d.image_id == Some(id),
            Err(e) => d.image_id is None && e.kind == AssCliErrorKind::JsonError,
        },
{
    match d.get_image_id() {
        Some(id) => Ok(id),
        None => Err(AssCliError::json_error()),
    }
}

/// The signed public URL of the file an envelope describes. Requires the
/// envelope's `path`: a missing path is a `JsonError`; a path whose
/// public URL cannot be reconstructed is a `UrlParseError`.
pub fn signed_url_for_envelope(client: &AssClient, d: &AssData) -> (r: Result<
    String,
    AssCliError,
>)
    ensures
        match r {
            Ok(u) => d.path matches Some(p) && Some(u@) == signed_url_of(
                client.spec_public_file_url(p@),
                client.account.apikey@,
            ),
            Err(e) => match d.path {
                None => e.kind == AssCliErrorKind::JsonError,
                Some(p) => signed_url_of(client.spec_public_file_url(p@), client.account.apikey@)
                    is None && e.kind == AssCliErrorKind::UrlParseError,
            },
        },
{
    match d.get_path() {
        Some(p) => client.get_file_url(p.as_str()),
        None => Err(AssCliError::json_error()),
    }
}

/// A sequential upload batch: the files to upload, in the order given;
/// the signed URLs of the uploads that succeeded; and the first failure,
/// after which nothing further is attempted.
pub struct UploadBatch {
    /// The destination folder, normalized to end with `/`.
    pub destination: String,
    /// The local files to upload, in order.
    pub files: Vec<String>,
    /// How many files have been attempted so far.
    pub attempted: usize,
    /// The signed public URL of each successful upload, in order.
    pub urls: Vec<String>,
    /// The first failure, if any; it aborts the rest of the batch.
    pub failure: Option<AssCliError>,
}

impl UploadBatch {
    /// Counts stay consistent: every attempt but a failed last one has
    /// produced a URL.
    pub open spec fn wf(self) -> bool {
        &&& self.attempted <= self.files@.len()
        &&& (self.failure is None ==> self.urls@.len() == self.attempted)
        &&& (self.failure is Some ==> self.urls@.len() + 1 == self.attempted)
    }

    /// The index of the file to attempt next, if any: uploads go
    /// strictly in the order given, and stop at the first failure.
    pub open spec fn spec_next_file(self) -> Option<int> {
        if self.failure is None && self.attempted < self.files@.len() {
            Some(self.attempted as int)
        } else {
            None
        }
    }

    /// A fresh batch for the given files and destination.
    pub fn new(files: Vec<String>, destination: &str) -> (r: UploadBatch)
        ensures
            r.wf(),
            r.files == files,
            r.destination@ == normalized_destination_of(destination@),
            r.attempted == 0,
            r.urls@.len() == 0,
            r.failure is None,
    {
        UploadBatch {
            destination: normalize_destination(destination),
            files,
            attempted: 0,
            urls: Vec::new(),
            failure: None,
        }
    }

    /// The file to attempt next: `None` once every file has been
    /// attempted, and `None` after a failure — no later file is tried.
    pub fn next_file(&self) -> (r: Option<&String>)
        ensures
            match r {
                Some(f) => self.spec_next_file() == Some(self.attempted as int) && f
                    == &self.files@[self.attempted as int],
                None => self.spec_next_file() is None,
            },
    {
        if self.failure.is_none() && self.attempted < self.files.len() {
            Some(&self.files[self.attempted])
        } else {
            None
        }
    }

    /// Records that the current file could not be handed to the
    /// transport at all (it could not be opened or has no filename):
    /// the given error ends the batch.
    pub fn record_failure(&mut self, e: AssCliError)
        requires
            old(self).wf(),
            old(self).spec_next_file() is Some,
        ensures
            final(self).wf(),
            final(self).spec_next_file() is None,
            final(self).attempted == old(self).attempted + 1,
            final(self).failure == Some(e),
            final(self).urls == old(self).urls,
            final(self).files == old(self).files,
            final(self).destination == old(self).destination,
    {
        let n = self.files.len();
        assert(self.attempted < n);
        self.attempted = self.attempted + 1;
        self.failure = Some(e);
    }

    /// Records the outcome of the current file's upload request. A
    /// transport failure, a non-success status or an unusable body ends
    /// the batch; a usable body must carry a `path`, whose signed public
    /// URL is appended to the successes.
    pub fn record_outcome(&mut self, client: &AssClient, outcome: HttpOutcome)
        requires
            old(self).wf(),
            old(self).spec_next_file() is Some,
        ensures
            final(self).wf(),
            final(self).attempted == old(self).attempted + 1,
            final(self).files == old(self).files,
            final(self).destination == old(self).destination,
            match outcome {
                HttpOutcome::TransportError(m) => final(self).urls == old(self).urls && (final(self).failure matches Some(e) && e.kind == AssCliErrorKind::RequestError(m)),
                HttpOutcome::Response { status, body } => if !(200 <= status < 300) {
                    final(self).urls == old(self).urls && (final(self).failure matches Some(e)
                        && e.kind matches AssCliErrorKind::RequestError(m) && m@
                        == "unexpected status "@ + crate::encode::dec_chars_of(status as nat))
                } else {
                    match json_envelope_of(body@) {
                        None => final(self).urls == old(self).urls && (final(self).failure matches Some(e) && e.kind == AssCliErrorKind::JsonError),
                        Some(fields) => match fields.2 {
                            None => final(self).urls == old(self).urls && (final(self).failure matches Some(e) && e.kind == AssCliErrorKind::JsonError),
                            Some(p) => match signed_url_of(
                                client.spec_public_file_url(p),
                                client.account.apikey@,
                            ) {
                                None => final(self).urls == old(self).urls && (final(self).failure matches Some(e) && e.kind
                                    == AssCliErrorKind::UrlParseError),
                                Some(u) => final(self).failure is None && final(self).urls@.len()
                                    == old(self).urls@.len() + 1 && final(self).urls@.drop_last()
                                    =~= old(self).urls@ && final(self).urls@.last()@ == u,
                            },
                        },
                    }
                },
            },
    {
        let n = self.files.len();
        assert(self.attempted < n);
        self.attempted = self.attempted + 1;
        match interpret_response(outcome) {
            Err(e) => {
                self.failure = Some(e);
            },
            Ok(d) => match signed_url_for_envelope(client, &d) {
                Err(e) => {
                    self.failure = Some(e);
                },
                Ok(u) => {
                    self.urls.push(u);
                },
            },
        }
    }
}

/// Once a file has failed, no later file is attempted: the batch asks
/// for no further file after a failure, whatever else its state is.
pub proof fn lemma_upload_fail_fast(b: UploadBatch)
    requires
        b.failure is Some,
    ensures
        b.spec_next_file() is None,
{
}

/// A sequential image-upload batch: like [`UploadBatch`], but an upload
/// succeeds through the response's `id`, whose signed public image URL
/// is collected.
pub struct ImageUploadBatch {
    /// The local image files to upload, in order.
    pub files: Vec<String>,
    /// How many files have been attempted so far.
    pub attempted: usize,
    /// The signed public URL of each successful upload, in order.
    pub urls: Vec<String>,
    /// The first failure, if any; it aborts the rest of the batch.
    pub failure: Option<AssCliError>,
}

impl ImageUploadBatch {
    /// Counts stay consistent: every attempt but a failed last one has
    /// produced a URL.
    pub open spec fn wf(self) -> bool {
        &&& self.attempted <= self.files@.len()
        &&& (self.failure is None ==> self.urls@.len() == self.attempted)
        &&& (self.failure is Some ==> self.urls@.len() + 1 == self.attempted)
    }

    /// The index of the file to attempt next, if any: uploads go
    /// strictly in the order given, and stop at the first failure.
    pub open spec fn spec_next_file(self) -> Option<int> {
        if self.failure is None && self.attempted < self.files@.len() {
            Some(self.attempted as int)
        } else {
            None
        }
    }

    /// A fresh batch for the given image files.
    pub fn new(files: Vec<String>) -> (r: ImageUploadBatch)
        ensures
            r.wf(),
            r.files == files,
            r.attempted == 0,
            r.urls@.len() == 0,
            r.failure is None,
    {
        ImageUploadBatch { files, attempted: 0, urls: Vec::new(), failure: None }
    }

    /// The file to attempt next: `None` once every file has been
    /// attempted, and `None` after a failure — no later file is tried.
    pub fn next_file(&self) -> (r: Option<&String>)
        ensures
            match r {
                Some(f) => self.spec_next_file() == Some(self.attempted as int) && f
                    == &self.files@[self.attempted as int],
                None => self.spec_next_file() is None,
            },
    {
        if self.failure.is_none() && self.attempted < self.files.len() {
            Some(&self.files[self.attempted])
        } else {
            None
        }
    }

    /// Records that the current file could not be handed to the
    /// transport at all: the given error ends the batch.
    pub fn record_failure(&mut self, e: AssCliError)
        requires
            old(self).wf(),
            old(self).spec_next_file() is Some,
        ensures
            final(self).wf(),
            final(self).spec_next_file() is None,
            final(self).attempted == old(self).attempted + 1,
            final(self).failure == Some(e),
            final(self).urls == old(self).urls,
            final(self).files == old(self).files,
    {
        let n = self.files.len();
        assert(self.attempted < n);
        self.attempted = self.attempted + 1;
        self.failure = Some(e);
    }

    /// Records the outcome of the current image's upload request. A
    /// transport failure, a non-success status or an unusable body ends
    /// the batch; a usable body must carry an `id`, whose signed public
    /// image URL is appended to the successes.
    pub fn record_outcome(&mut self, client: &AssClient, outcome: HttpOutcome)
        requires
            old(self).wf(),
            old(self).spec_next_file() is Some,
        ensures
            final(self).wf(),
            final(self).attempted == old(self).attempted + 1,
            final(self).files == old(self).files,
            match outcome {
                HttpOutcome::TransportError(m) => final(self).urls == old(self).urls && (final(self).failure matches Some(e) && e.kind == AssCliErrorKind::RequestError(m)),
                HttpOutcome::Response { status, body } => if !(200 <= status < 300) {
                    final(self).urls == old(self).urls && (final(self).failure matches Some(e)
                        && e.kind matches AssCliErrorKind::RequestError(m) && m@
                        == "unexpected status "@ + crate::encode::dec_chars_of(status as nat))
                } else {
                    match json_envelope_of(body@) {
                        None => final(self).urls == old(self).urls && (final(self).failure matches Some(e) && e.kind == AssCliErrorKind::JsonError),
                        Some(fields) => match fields.0 {
                            None => final(self).urls == old(self).urls && (final(self).failure matches Some(e) && e.kind == AssCliErrorKind::JsonError),
                            Some(id) => match signed_url_of(
                                client.spec_public_image_url(id),
                                client.account.apikey@,
                            ) {
                                None => final(self).urls == old(self).urls && (final(self).failure matches Some(e) && e.kind
                                    == AssCliErrorKind::UrlParseError),
                                Some(u) => final(self).failure is None && final(self).urls@.len()
                                    == old(self).urls@.len() + 1 && final(self).urls@.drop_last()
                                    =~= old(self).urls@ && final(self).urls@.last()@ == u,
                            },
                        },
                    }
                },
            },
    {
        let n = self.files.len();
        assert(self.attempted < n);
        self.attempted = self.attempted + 1;
        match interpret_response(outcome) {
            Err(e) => {
                self.failure = Some(e);
            },
            Ok(d) => match require_id(&d) {
                Err(e) => {
                    self.failure = Some(e);
                },
                Ok(id) => match client.get_image_url(id) {
                    Err(e) => {
                        self.failure = Some(e);
                    },
                    Ok(u) => {
                        self.urls.push(u);
                    },
                },
            },
        }
    }
}

/// Once an image has failed, no later image is attempted: the batch
/// asks for no further file after a failure, whatever else its state is.
pub proof fn lemma_image_upload_fail_fast(b: ImageUploadBatch)
    requires
        b.failure is Some,
    ensures
        b.spec_next_file() is None,
{
}

} // verus!
