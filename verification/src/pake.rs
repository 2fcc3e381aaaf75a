//! Turning the form's two fields into a `pake` run, and the run's result into a message.
use crate::text::{
    is_blank, law_trim_idempotent, law_trimmed_empty_iff_blank, trim_whitespace, trimmed,
};
use vstd::prelude::*;
use vstd::utf8::{decode_utf8, valid_utf8};

verus! {

/// The program that forges the apps; it is looked up on `PATH`.
pub const PAKE_PROGRAM: &'static str = "pake";

/// Why an app was not forged.
#[derive(Clone, Debug)]
pub enum PakeError {
    /// The title was empty or only whitespace.
    TitleRequired,
    /// The website is not an absolute URL.
    InvalidUrl,
    /// No `pake` program was found on `PATH`.
    PakeNotFound,
    /// The `pake` program could not be started.
    LaunchFailed,
    /// `pake` ran and reported failure; the field is what it wrote to its error stream.
    PakeFailed(String),
}

/// A validated request: the trimmed website and the trimmed, non-empty app name.
#[derive(Clone, Debug)]
pub struct PakeJob {
    pub url: String,
    pub name: String,
}

/// What became of an attempt to run `pake` for a job.
#[derive(Clone, Debug)]
pub enum PakeRun {
    /// No `pake` program was found on `PATH`.
    NotFound,
    /// The program was found but could not be started.
    LaunchFailed,
    /// The program ran to its end.
    Finished { success: bool, stderr: Vec<u8> },
}

/// The text shown for an error.
pub open spec fn error_message(e: PakeError) -> Seq<char> {
    match e {
        PakeError::TitleRequired => "Title is required."@,
        PakeError::InvalidUrl => "Please enter a valid URL including protocol."@,
        PakeError::PakeNotFound => "Could not find `pake` binary in PATH."@,
        PakeError::LaunchFailed => "Failed to execute pake."@,
        PakeError::PakeFailed(detail) => "pake failed: "@ + detail@,
    }
}

/// The text shown when an app was forged.
pub open spec fn success_message(name: Seq<char>, url: Seq<char>) -> Seq<char> {
    "✓ Created app `"@ + name + "` for "@ + url
}

/// Whether `url::Url::parse` accepts the text as an absolute URL.
pub uninterp spec fn url_parses(input: Seq<char>) -> bool;

/// What `String::from_utf8_lossy` makes of the bytes.
pub uninterp spec fn utf8_lossy(bytes: Seq<u8>) -> Seq<char>;

/// A request reduced to plain values: the website and title of a job, or the error.
pub type RequestOutcome = Result<(Seq<char>, Seq<char>), PakeError>;

/// What a request with the given website and title comes to: the title is checked
/// first, then the website; both are trimmed.
pub open spec fn request_outcome(url: Seq<char>, name: Seq<char>) -> RequestOutcome {
    if trimmed(name).len() == 0 {
        Err(PakeError::TitleRequired)
    } else if !url_parses(trimmed(url)) {
        Err(PakeError::InvalidUrl)
    } else {
        Ok((trimmed(url), trimmed(name)))
    }
}

/// A job, or an error, reduced to plain values.
pub open spec fn job_view(r: Result<PakeJob, PakeError>) -> RequestOutcome {
    match r {
        Ok(job) => Ok((job.url@, job.name@)),
        Err(e) => Err(e),
    }
}

#[verifier::external_type_specification]
#[verifier::external_body]
pub struct ExUrlParseError(url::ParseError);

/// Calls `url::Url::parse`. The contract claims only that the call succeeds exactly when
/// `url_parses` holds of the input; the parsed URL is dropped, and which `ParseError`
/// variant a failure carries is left unsaid.
#[verifier::external_body]
fn parse_absolute_url(input: &str) -> (r: Result<(), url::ParseError>)
    ensures
        r is Ok <==> url_parses(input@),
{
    match url::Url::parse(input) {
        Ok(_) => Ok(()),
        Err(e) => Err(e),
    }
}

/// Calls `String::from_utf8_lossy` and takes the text it gives. The contract claims that
/// the text is `utf8_lossy` of the bytes, and, as the function's documentation says, that
/// bytes which are valid UTF-8 come back decoded unchanged.
#[verifier::external_body]
fn decode_utf8_lossy(bytes: &[u8]) -> (r: String)
    ensures
        r@ == utf8_lossy(bytes@),
        valid_utf8(bytes@) ==> r@ == decode_utf8(bytes@),
{
    String::from_utf8_lossy(bytes).into_owned()
}

impl PakeError {
    /// The text shown for this error.
    pub fn message(&self) -> (r: String)
        ensures
            r@ == error_message(*self),
    {
        match self {
            PakeError::TitleRequired => String::from_str("Title is required."),
            PakeError::InvalidUrl => String::from_str("Please enter a valid URL including protocol."),
            PakeError::PakeNotFound => String::from_str("Could not find `pake` binary in PATH."),
            PakeError::LaunchFailed => String::from_str("Failed to execute pake."),
            PakeError::PakeFailed(detail) => String::from_str("pake failed: ").concat(detail.as_str()),
        }
    }
}

/// Decides a request from its trimmed website and title and from whether the website
/// parses as an absolute URL: a blank title gives `TitleRequired`, then a website that
/// does not parse gives `InvalidUrl`, else a job holding the two fields as given.
pub fn decide_request(site: &str, name: &str, url_ok: bool) -> (r: Result<PakeJob, PakeError>)
    ensures
        name@.len() == 0 ==> job_view(r) == Err::<(Seq<char>, Seq<char>), PakeError>(
            PakeError::TitleRequired,
        ),
        name@.len() > 0 && !url_ok ==> job_view(r) == Err::<(Seq<char>, Seq<char>), PakeError>(
            PakeError::InvalidUrl,
        ),
        name@.len() > 0 && url_ok ==> job_view(r) == Ok::<(Seq<char>, Seq<char>), PakeError>(
            (site@, name@),
        ),
{
    if name.unicode_len() == 0 {
        Err(PakeError::TitleRequired)
    } else if !url_ok {
        Err(PakeError::InvalidUrl)
    } else {
        Ok(PakeJob { url: String::from_str(site), name: String::from_str(name) })
    }
}

/// Checks the form's website and title. The title is checked first: when it is blank
/// the request fails with `TitleRequired` and the website is not parsed; otherwise the
/// trimmed website must parse as an absolute URL, else `InvalidUrl`. A job holds both
/// fields trimmed.
pub fn prepare_pake(url: &str, app_name: &str) -> (r: Result<PakeJob, PakeError>)
    ensures
        job_view(r) == request_outcome(url@, app_name@),
{
    let name = trim_whitespace(app_name);
    let site = trim_whitespace(url);
    let url_ok = name.unicode_len() > 0 && parse_absolute_url(site).is_ok();
    decide_request(site, name, url_ok)
}

/// The arguments `pake` is started with: the website, then `--name` and the app name.
pub fn pake_arguments(job: &PakeJob) -> (args: Vec<String>)
    ensures
        args.len() == 3,
        args[0]@ == job.url@,
        args[1]@ == "--name"@,
        args[2]@ == job.name@,
{
    let mut args: Vec<String> = Vec::new();
    args.push(job.url.clone());
    args.push(String::from_str("--name"));
    args.push(job.name.clone());
    args
}

/// The message for a finished job, or the error that stopped it. A failed run reports
/// what `pake` wrote to its error stream, decoded leniently.
pub fn pake_outcome(job: &PakeJob, run: PakeRun) -> (r: Result<String, PakeError>)
    ensures
        match run {
            PakeRun::NotFound => r matches Err(PakeError::PakeNotFound),
            PakeRun::LaunchFailed => r matches Err(PakeError::LaunchFailed),
            PakeRun::Finished { success: true, .. } => r matches Ok(msg) && msg@
                == success_message(job.name@, job.url@),
            PakeRun::Finished { success: false, stderr } => r matches Err(
                PakeError::PakeFailed(detail),
            ) && detail@ == utf8_lossy(stderr@) && (valid_utf8(stderr@) ==> detail@
                == decode_utf8(stderr@)),
        },
{
    match run {
        PakeRun::NotFound => Err(PakeError::PakeNotFound),
        PakeRun::LaunchFailed => Err(PakeError::LaunchFailed),
        PakeRun::Finished { success, stderr } => {
            if success {
                let msg = String::from_str("✓ Created app `").concat(job.name.as_str()).concat(
                    "` for ",
                ).concat(job.url.as_str());
                Ok(msg)
            } else {
                Err(PakeError::PakeFailed(decode_utf8_lossy(stderr.as_slice())))
            }
        },
    }
}

/// Whitespace around the website or the title changes nothing: a request comes to what
/// the same request with both fields trimmed comes to.
pub proof fn law_request_ignores_surrounding_whitespace(url: Seq<char>, name: Seq<char>)
    ensures
        request_outcome(trimmed(url), trimmed(name)) == request_outcome(url, name),
{
    law_trim_idempotent(url);
    law_trim_idempotent(name);
}

/// A title made only of whitespace is refused, whatever the website.
pub proof fn law_blank_title_refused(url: Seq<char>, name: Seq<char>)
    requires
        is_blank(name),
    ensures
        request_outcome(url, name) == Err::<(Seq<char>, Seq<char>), PakeError>(
            PakeError::TitleRequired,
        ),
{
    law_trimmed_empty_iff_blank(name);
}

/// An accepted request carries a non-blank title and a website that parses, with no
/// whitespace left around either.
pub proof fn law_accepted_request_is_clean(url: Seq<char>, name: Seq<char>)
    requires
        request_outcome(url, name) is Ok,
    ensures
        ({
            let (u, n) = request_outcome(url, name)->Ok_0;
            &&& !is_blank(n)
            &&& url_parses(u)
            &&& trimmed(u) == u
            &&& trimmed(n) == n
        }),
{
    law_trim_idempotent(url);
    law_trim_idempotent(name);
    law_trimmed_empty_iff_blank(trimmed(name));
}

/// A request with a non-blank title and a website that parses is accepted, whatever the
/// website's scheme or shape: the job holds the two fields trimmed.
pub proof fn law_parsing_site_with_title_is_accepted(url: Seq<char>, name: Seq<char>)
    requires
        trimmed(name).len() > 0,
        url_parses(trimmed(url)),
    ensures
        request_outcome(url, name) == Ok::<(Seq<char>, Seq<char>), PakeError>(
            (trimmed(url), trimmed(name)),
        ),
{
}

/// Once a title is given, the title is never what a request is refused for; a website
/// that does not parse is refused as an invalid URL.
pub proof fn law_given_title_never_refused_as_missing(url: Seq<char>, name: Seq<char>)
    requires
        trimmed(name).len() > 0,
    ensures
        request_outcome(url, name) != Err::<(Seq<char>, Seq<char>), PakeError>(
            PakeError::TitleRequired,
        ),
        !url_parses(trimmed(url)) ==> request_outcome(url, name) == Err::<
            (Seq<char>, Seq<char>),
            PakeError,
        >(PakeError::InvalidUrl),
{
}

/// The success message keeps the whole name and the whole website: it is fifteen
/// characters of preamble, the name, six characters, then the website to its end.
pub proof fn law_success_message_keeps_name_and_site(name: Seq<char>, url: Seq<char>)
    ensures
        success_message(name, url).len() == 21 + name.len() + url.len(),
        success_message(name, url).subrange(0, 15) == "✓ Created app `"@,
        success_message(name, url).subrange(15, 15 + name.len() as int) == name,
        success_message(name, url).subrange(15 + name.len() as int, 21 + name.len() as int)
            == "` for "@,
        success_message(name, url).subrange(
            21 + name.len() as int,
            21 + name.len() + url.len() as int,
        ) == url,
{
    reveal_strlit("✓ Created app `");
    reveal_strlit("` for ");
    let m = success_message(name, url);
    assert(m.subrange(0, 15) =~= "✓ Created app `"@);
    assert(m.subrange(15, 15 + name.len() as int) =~= name);
    assert(m.subrange(15 + name.len() as int, 21 + name.len() as int) =~= "` for "@);
    assert(m.subrange(21 + name.len() as int, 21 + name.len() + url.len() as int) =~= url);
}

/// The text of a failed run keeps all of what `pake` reported: "pake failed: " and then
/// the whole detail.
pub proof fn law_failure_message_keeps_detail(detail: String)
    ensures
        error_message(PakeError::PakeFailed(detail)).len() == 13 + detail@.len(),
        error_message(PakeError::PakeFailed(detail)).subrange(0, 13) == "pake failed: "@,
        error_message(PakeError::PakeFailed(detail)).subrange(13, 13 + detail@.len() as int)
            == detail@,
{
    reveal_strlit("pake failed: ");
    let m = error_message(PakeError::PakeFailed(detail));
    assert(m.subrange(0, 13) =~= "pake failed: "@);
    assert(m.subrange(13, 13 + detail@.len() as int) =~= detail@);
}

} // verus!
