use vstd::prelude::*;

verus! {

/// A coding question as it arrives over HTTP.
pub struct Question {
    pub id: String,
    pub language: String,
    pub source_code: String,
    pub timeout: i32,
    pub sample_testcases: Vec<(String, String)>,
}

/// Everything that can go wrong while a submission is prepared, built and run.
#[derive(Clone, Copy, Debug, PartialEq, Eq, Structural)]
pub enum CodingError {
    InvalidPublicClass,
    UnsupportedLanguage,
    FileCreationError,
    FileNameError,
    FileError,
    ProcessError,
    InvalidStringFromConsole,
    CompileError,
    CleanupError,
    TimeLimitExceeded,
}

/// The body sent back when a request fails.
pub struct ErrorResponse {
    pub id: String,
    pub error: String,
}

/// The stable status codes of a finished submission.
#[derive(Clone, Copy, Debug, PartialEq, Eq, Structural)]
pub enum StatusCodes {
    Success,
    Accepted,
    WrongAnswer,
    CompilationError,
    RuntimeError,
    InvalidFile,
    FileNotFound,
    TimeLimitExceeded,
    InternalServerError,
}

pub open spec fn status_number(s: StatusCodes) -> u16 {
    match s {
        StatusCodes::Success => 200,
        StatusCodes::Accepted => 201,
        StatusCodes::WrongAnswer => 400,
        StatusCodes::CompilationError => 401,
        StatusCodes::RuntimeError => 402,
        StatusCodes::InvalidFile => 403,
        StatusCodes::FileNotFound => 404,
        StatusCodes::TimeLimitExceeded => 408,
        StatusCodes::InternalServerError => 500,
    }
}

pub open spec fn status_phrase(s: StatusCodes) -> Seq<char> {
    match s {
        StatusCodes::Success => "Success"@,
        StatusCodes::Accepted => "Accepted"@,
        StatusCodes::WrongAnswer => "Wrong Answer"@,
        StatusCodes::CompilationError => "Compilation Error"@,
        StatusCodes::RuntimeError => "Runtime Error"@,
        StatusCodes::InvalidFile => "Invalid File"@,
        StatusCodes::FileNotFound => "File Not Found"@,
        StatusCodes::TimeLimitExceeded => "Time Limit Exceeded"@,
        StatusCodes::InternalServerError => "Internal Server Error"@,
    }
}

impl StatusCodes {
    /// The numeric code reported to callers.
    pub fn code(&self) -> (r: u16)
        ensures
            r == status_number(*self),
    {
        match self {
            StatusCodes::Success => 200,
            StatusCodes::Accepted => 201,
            StatusCodes::WrongAnswer => 400,
            StatusCodes::CompilationError => 401,
            StatusCodes::RuntimeError => 402,
            StatusCodes::InvalidFile => 403,
            StatusCodes::FileNotFound => 404,
            StatusCodes::TimeLimitExceeded => 408,
            StatusCodes::InternalServerError => 500,
        }
    }

    /// The fixed phrase that goes with the status.
    pub fn message(&self) -> (r: &'static str)
        ensures
            r@ == status_phrase(*self),
    {
        match self {
            StatusCodes::Success => "Success",
            StatusCodes::Accepted => "Accepted",
            StatusCodes::WrongAnswer => "Wrong Answer",
            StatusCodes::CompilationError => "Compilation Error",
            StatusCodes::RuntimeError => "Runtime Error",
            StatusCodes::InvalidFile => "Invalid File",
            StatusCodes::FileNotFound => "File Not Found",
            StatusCodes::TimeLimitExceeded => "Time Limit Exceeded",
            StatusCodes::InternalServerError => "Internal Server Error",
        }
    }
}

pub open spec fn error_status(e: CodingError) -> StatusCodes {
    match e {
        CodingError::InvalidPublicClass => StatusCodes::InvalidFile,
        CodingError::UnsupportedLanguage => StatusCodes::InvalidFile,
        CodingError::FileCreationError => StatusCodes::InternalServerError,
        CodingError::FileNameError => StatusCodes::InternalServerError,
        CodingError::FileError => StatusCodes::FileNotFound,
        CodingError::ProcessError => StatusCodes::InternalServerError,
        CodingError::InvalidStringFromConsole => StatusCodes::InternalServerError,
        CodingError::CompileError => StatusCodes::CompilationError,
        CodingError::CleanupError => StatusCodes::InternalServerError,
        CodingError::TimeLimitExceeded => StatusCodes::TimeLimitExceeded,
    }
}

pub open spec fn error_text(e: CodingError) -> Seq<char> {
    match e {
        CodingError::InvalidPublicClass => "InvalidPublicClass :: The given Java source code does not have a valid public class.\nExpected something like: `public class Main`."@,
        CodingError::UnsupportedLanguage => "UnsupportedLanguage :: The given language is not supported."@,
        CodingError::FileCreationError => "FileCreationError :: Unable to create file."@,
        CodingError::FileNameError => "FileError :: Unable to extract file stem."@,
        CodingError::FileError => "FileError :: Something went wrong during File I/O op."@,
        CodingError::ProcessError => "ProcessError :: Something went wrong during execution of child process."@,
        CodingError::InvalidStringFromConsole => "InvalidStringFromConsole :: Invalid utf8 character found in std console of child process."@,
        CodingError::CompileError => "CompileError :: An error occurred during compilation of source code."@,
        CodingError::CleanupError => "CleanupError :: An error occurred during cleanup of source code."@,
        CodingError::TimeLimitExceeded => "TimeLimitExceeded :: The user's program exceeded the time limit."@,
    }
}

impl CodingError {
    /// The status under which this error is reported.
    pub fn status(&self) -> (r: StatusCodes)
        ensures
            r == error_status(*self),
    {
        match self {
            CodingError::InvalidPublicClass => StatusCodes::InvalidFile,
            CodingError::UnsupportedLanguage => StatusCodes::InvalidFile,
            CodingError::FileCreationError => StatusCodes::InternalServerError,
            CodingError::FileNameError => StatusCodes::InternalServerError,
            CodingError::FileError => StatusCodes::FileNotFound,
            CodingError::ProcessError => StatusCodes::InternalServerError,
            CodingError::InvalidStringFromConsole => StatusCodes::InternalServerError,
            CodingError::CompileError => StatusCodes::CompilationError,
            CodingError::CleanupError => StatusCodes::InternalServerError,
            CodingError::TimeLimitExceeded => StatusCodes::TimeLimitExceeded,
        }
    }

    /// A readable description of the error.
    pub fn message(&self) -> (r: &'static str)
        ensures
            r@ == error_text(*self),
    {
        match self {
            CodingError::InvalidPublicClass => "InvalidPublicClass :: The given Java source code does not have a valid public class.\nExpected something like: `public class Main`.",
            CodingError::UnsupportedLanguage => "UnsupportedLanguage :: The given language is not supported.",
            CodingError::FileCreationError => "FileCreationError :: Unable to create file.",
            CodingError::FileNameError => "FileError :: Unable to extract file stem.",
            CodingError::FileError => "FileError :: Something went wrong during File I/O op.",
            CodingError::ProcessError => "ProcessError :: Something went wrong during execution of child process.",
            CodingError::InvalidStringFromConsole => "InvalidStringFromConsole :: Invalid utf8 character found in std console of child process.",
            CodingError::CompileError => "CompileError :: An error occurred during compilation of source code.",
            CodingError::CleanupError => "CleanupError :: An error occurred during cleanup of source code.",
            CodingError::TimeLimitExceeded => "TimeLimitExceeded :: The user's program exceeded the time limit.",
        }
    }
}

} // verus!
