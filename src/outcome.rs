use vstd::prelude::*;
use crate::paths::string_option_view;
use crate::text::{output_matches, outputs_match};
use crate::types::{error_status, status_phrase, CodingError, ErrorResponse, StatusCodes};

verus! {

/// How a submission is handled.
#[derive(Clone, Copy, Debug, PartialEq, Eq, Structural)]
pub enum Mode {
    /// Build only, and report whether the build succeeded.
    CompileOnly,
    /// Run without input and hand back what the program printed.
    RunSample,
    /// Run with the submitted input and hand back what the program printed.
    RunCustomInput,
    /// Run with the submitted input and compare the output with the expected output.
    Submit,
}

/// The final answer for a submission: a status, an error text for failures, and for the two
/// plain run modes what the program printed.
pub struct Response {
    pub status: StatusCodes,
    pub error: Option<String>,
    pub debug_output: Option<String>,
}

pub type ResponseView = (StatusCodes, Option<Seq<char>>, Option<Seq<char>>);

impl View for Response {
    type V = ResponseView;

    open spec fn view(&self) -> ResponseView {
        (self.status, string_option_view(self.error), string_option_view(self.debug_output))
    }
}

/// A failure reported with its status phrase.
pub open spec fn with_phrase(s: StatusCodes) -> ResponseView {
    (s, Some(status_phrase(s)), None)
}

/// A success with nothing more to report.
pub open spec fn bare(s: StatusCodes) -> ResponseView {
    (s, None, None)
}

fn copy_text(o: &Option<String>) -> (r: Option<String>)
    ensures
        string_option_view(r) == string_option_view(*o),
{
    match o {
        Some(s) => Some(s.clone()),
        None => None,
    }
}

impl Response {
    /// A failure response that carries the status phrase.
    pub fn failure(status: StatusCodes) -> (r: Response)
        ensures
            r@ == with_phrase(status),
    {
        Response { status, error: Some(status.message().to_owned()), debug_output: None }
    }

    /// A response with a status alone.
    pub fn plain(status: StatusCodes) -> (r: Response)
        ensures
            r@ == bare(status),
    {
        Response { status, error: None, debug_output: None }
    }

    pub fn copy(&self) -> (r: Response)
        ensures
            r@ == self@,
    {
        Response {
            status: self.status,
            error: copy_text(&self.error),
            debug_output: copy_text(&self.debug_output),
        }
    }

    /// The error body for request `id`, when this response reports an error.
    pub fn error_response(&self, id: &str) -> (r: Option<ErrorResponse>)
        ensures
            r is Some <==> self.error is Some,
            r matches Some(b) ==> b.id@ == id@ && Some(b.error@) == string_option_view(self.error),
    {
        match &self.error {
            Some(e) => Some(ErrorResponse { id: id.to_owned(), error: e.clone() }),
            None => None,
        }
    }
}

/// What came of a build.
pub enum CompileOutcome {
    /// The source file was not where it should be.
    SourceMissing,
    /// The compiler could not be started.
    SpawnFailed,
    /// The compiler ran; `stderr` is none when what it wrote was not valid UTF-8.
    Finished { success: bool, stderr: Option<String> },
}

/// What came of a run.
pub enum RunOutcome {
    /// The program or its input file was not where it should be.
    MissingFile,
    /// The program could not be started.
    SpawnFailed,
    /// The program could not be waited for.
    WaitFailed,
    /// The program outlived its time limit and was killed together with its descendants.
    TimedOut,
    /// The program ended; the captured streams are none when they were not captured or not
    /// valid UTF-8.
    Exited { success: bool, stdout: Option<String>, stderr: Option<String> },
}

/// What reading one of the files to compare gave.
pub enum FileRead {
    Missing,
    Unreadable,
    Text(String),
}

/// The response owed for a build outcome; none when the build succeeded.
pub open spec fn compile_verdict(o: CompileOutcome) -> Option<ResponseView> {
    match o {
        CompileOutcome::SourceMissing => Some(with_phrase(error_status(CodingError::FileError))),
        CompileOutcome::SpawnFailed => Some(with_phrase(error_status(CodingError::ProcessError))),
        CompileOutcome::Finished { success, stderr } => match stderr {
            None => Some(with_phrase(error_status(CodingError::InvalidStringFromConsole))),
            Some(e) => if success {
                None
            } else {
                Some((error_status(CodingError::CompileError), Some(e@), None))
            },
        },
    }
}

/// The response owed for a run outcome in `mode`; none when a submission ran cleanly and its
/// output goes on to be compared.
pub open spec fn run_verdict(mode: Mode, o: RunOutcome) -> Option<ResponseView> {
    match o {
        RunOutcome::MissingFile => Some(with_phrase(error_status(CodingError::FileError))),
        RunOutcome::SpawnFailed => Some(with_phrase(error_status(CodingError::ProcessError))),
        RunOutcome::WaitFailed => Some(with_phrase(error_status(CodingError::ProcessError))),
        RunOutcome::TimedOut => Some(with_phrase(error_status(CodingError::TimeLimitExceeded))),
        RunOutcome::Exited { success, stdout, stderr } => if success {
            if mode == Mode::Submit {
                None
            } else {
                match stdout {
                    Some(out) => Some((StatusCodes::Accepted, None, Some(out@))),
                    None => Some(with_phrase(error_status(CodingError::InvalidStringFromConsole))),
                }
            }
        } else {
            match stderr {
                Some(e) => Some((StatusCodes::RuntimeError, Some(e@), None)),
                None => Some(with_phrase(error_status(CodingError::InvalidStringFromConsole))),
            }
        },
    }
}

/// The verdict on a submission's output, from the two files read back.
pub open spec fn compare_verdict(actual: FileRead, expected: FileRead) -> ResponseView {
    if actual is Missing || expected is Missing {
        with_phrase(StatusCodes::FileNotFound)
    } else if actual is Unreadable || expected is Unreadable {
        with_phrase(StatusCodes::InternalServerError)
    } else if output_matches(actual->Text_0@, expected->Text_0@) {
        bare(StatusCodes::Accepted)
    } else {
        with_phrase(StatusCodes::WrongAnswer)
    }
}

/// The response sent once cleanup has reported: a failed cleanup turns a success into an
/// internal error, and leaves any failure as it was.
pub open spec fn after_cleanup(pending: ResponseView, cleaned: bool) -> ResponseView {
    if !cleaned && (pending.0 == StatusCodes::Success || pending.0 == StatusCodes::Accepted) {
        with_phrase(error_status(CodingError::CleanupError))
    } else {
        pending
    }
}

pub open spec fn response_option_view(o: Option<Response>) -> Option<ResponseView> {
    match o {
        Some(r) => Some(r@),
        None => None,
    }
}

/// Classifies a build outcome.
pub fn judge_compile(o: &CompileOutcome) -> (r: Option<Response>)
    ensures
        response_option_view(r) == compile_verdict(*o),
{
    match o {
        CompileOutcome::SourceMissing => Some(Response::failure(CodingError::FileError.status())),
        CompileOutcome::SpawnFailed => Some(Response::failure(CodingError::ProcessError.status())),
        CompileOutcome::Finished { success, stderr } => match stderr {
            None => Some(Response::failure(CodingError::InvalidStringFromConsole.status())),
            Some(e) => if *success {
                None
            } else {
                Some(
                    Response {
                        status: CodingError::CompileError.status(),
                        error: Some(e.clone()),
                        debug_output: None,
                    },
                )
            },
        },
    }
}

/// Classifies a run outcome in `mode`.
pub fn judge_run(mode: Mode, o: &RunOutcome) -> (r: Option<Response>)
    ensures
        response_option_view(r) == run_verdict(mode, *o),
{
    match o {
        RunOutcome::MissingFile => Some(Response::failure(CodingError::FileError.status())),
        RunOutcome::SpawnFailed => Some(Response::failure(CodingError::ProcessError.status())),
        RunOutcome::WaitFailed => Some(Response::failure(CodingError::ProcessError.status())),
        RunOutcome::TimedOut => Some(Response::failure(CodingError::TimeLimitExceeded.status())),
        RunOutcome::Exited { success, stdout, stderr } => if *success {
            if mode == Mode::Submit {
                None
            } else {
                match stdout {
                    Some(out) => Some(
                        Response {
                            status: StatusCodes::Accepted,
                            error: None,
                            debug_output: Some(out.clone()),
                        },
                    ),
                    None => Some(Response::failure(CodingError::InvalidStringFromConsole.status())),
                }
            }
        } else {
            match stderr {
                Some(e) => Some(
                    Response {
                        status: StatusCodes::RuntimeError,
                        error: Some(e.clone()),
                        debug_output: None,
                    },
                ),
                None => Some(Response::failure(CodingError::InvalidStringFromConsole.status())),
            }
        },
    }
}

/// Judges a submission's output against the expected output.
pub fn judge_output(actual: &FileRead, expected: &FileRead) -> (r: Response)
    ensures
        r@ == compare_verdict(*actual, *expected),
{
    match (actual, expected) {
        (FileRead::Missing, _) | (_, FileRead::Missing) => Response::failure(
            StatusCodes::FileNotFound,
        ),
        (FileRead::Unreadable, _) | (_, FileRead::Unreadable) => Response::failure(
            StatusCodes::InternalServerError,
        ),
        (FileRead::Text(a), FileRead::Text(e)) => if outputs_match(a.as_str(), e.as_str()) {
            Response::plain(StatusCodes::Accepted)
        } else {
            Response::failure(StatusCodes::WrongAnswer)
        },
    }
}

/// The response to send once cleanup has reported.
pub fn finish(pending: &Response, cleaned: bool) -> (r: Response)
    ensures
        r@ == after_cleanup(pending@, cleaned),
{
    if !cleaned && (pending.status == StatusCodes::Success || pending.status
        == StatusCodes::Accepted) {
        Response::failure(CodingError::CleanupError.status())
    } else {
        pending.copy()
    }
}

/// A run that outlives its limit is answered with `TimeLimitExceeded` in every mode, and a
/// failed cleanup afterwards does not change that answer.
pub proof fn lemma_timeout_reported(mode: Mode, cleaned: bool)
    ensures
        run_verdict(mode, RunOutcome::TimedOut) == Some(
            with_phrase(StatusCodes::TimeLimitExceeded),
        ),
        after_cleanup(with_phrase(StatusCodes::TimeLimitExceeded), cleaned).0
            == StatusCodes::TimeLimitExceeded,
{
}

/// In submit mode a run that exits successfully always goes on to comparison, and one that
/// exits with a failure is a runtime error carrying its standard error, with no comparison.
pub proof fn lemma_exit_status_decides(stdout: Option<String>, stderr: String)
    ensures
        run_verdict(
            Mode::Submit,
            RunOutcome::Exited { success: true, stdout, stderr: Some(stderr) },
        ) is None,
        run_verdict(
            Mode::Submit,
            RunOutcome::Exited { success: false, stdout, stderr: Some(stderr) },
        ) == Some((StatusCodes::RuntimeError, Some(stderr@), None::<Seq<char>>)),
{
}

} // verus!
