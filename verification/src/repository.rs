//! A validated reference to a source repository: either a local filesystem
//! path that exists, or a well-formed URL.

use vstd::prelude::*;

verus! {

/// Whether `url`'s parser accepts a string as a well-formed URL. A function
/// of the string alone.
pub uninterp spec fn url_ok(s: Seq<char>) -> bool;

/// Relies on url's `Url::parse`: whether a string parses as a well-formed
/// URL depends on the string alone.
#[verifier::external_body]
fn parses_as_url(input: &str) -> (r: bool)
    ensures
        r == url_ok(input@),
{
    url::Url::parse(input).is_ok()
}

/// Relies on std's `Path::exists`. The answer depends on the state of the
/// filesystem, so nothing is promised of it.
#[verifier::external_body]
fn path_exists(input: &str) -> bool {
    std::path::Path::new(input).exists()
}

/// A validated, immutable reference to a source repository. Its string is
/// fixed at construction and only read afterwards.
#[derive(Clone, Debug)]
pub struct Repository {
    inner: String,
}

impl View for Repository {
    type V = Seq<char>;

    closed spec fn view(&self) -> Seq<char> {
        self.inner@
    }
}

impl Repository {
    /// The repository reference as it was given to the constructor.
    pub fn as_str(&self) -> (r: &str)
        ensures
            r@ == self@,
    {
        self.inner.as_str()
    }
}

/// The input that failed repository validation.
#[derive(Clone, Debug)]
pub struct RepositoryError {
    input: String,
}

impl View for RepositoryError {
    type V = Seq<char>;

    closed spec fn view(&self) -> Seq<char> {
        self.input@
    }
}

impl RepositoryError {
    /// The offending input, for the caller's error report.
    pub fn input(&self) -> (r: &str)
        ensures
            r@ == self@,
    {
        self.input.as_str()
    }
}

impl Repository {
    /// The validation decision, taken from the filesystem probe's answer:
    /// an input is accepted exactly when the probe reported it as an
    /// existing local path or it parses as a well-formed URL. On success
    /// the returned `Repository` wraps `input` unchanged; on failure the
    /// error carries `input` back.
    pub fn accept(input: String, local_path_exists: bool) -> (r: Result<
        Repository,
        RepositoryError,
    >)
        ensures
            r is Ok <==> (local_path_exists || url_ok(input@)),
            match r {
                Ok(repo) => repo@ == input@,
                Err(e) => e@ == input@,
            },
    {
        if local_path_exists || parses_as_url(input.as_str()) {
            Ok(Repository { inner: input })
        } else {
            Err(RepositoryError { input })
        }
    }
}

/// Checks that `input` looks like a valid repository, which can be either
/// local or remote: it must name an existing local filesystem path or parse
/// as a well-formed URL. The decision over the probe's answer stands in
/// [`Repository::accept`]; only the filesystem knows which paths exist, so
/// only the URL half of the condition can be promised here. On success the
/// returned `Repository` wraps `input` unchanged; on failure the error
/// carries `input` back.
#[allow(non_snake_case)]
pub fn Repository(input: String) -> (r: Result<Repository, RepositoryError>)
    ensures
        url_ok(input@) ==> r is Ok,
        match r {
            Ok(repo) => repo@ == input@,
            Err(e) => e@ == input@ && !url_ok(input@),
        },
{
    let local_path_exists = path_exists(input.as_str());
    Repository::accept(input, local_path_exists)
}

} // verus!
