use vstd::prelude::*;
use crate::paths::{file_stem, get_java_file_stem, get_parent_folder_name, join, joined, parent_folder_name};
use crate::text::same_text;
use crate::types::CodingError;

verus! {

/// Where one run of a submission finds and leaves its files. Paths are relative to the
/// directory that holds the workspaces.
pub struct Program {
    pub file_name: String,
    pub folder_name: String,
    pub name: String,
    pub language: String,
    pub index: i32,
    pub input_file: String,
    pub expected_output_file: String,
    pub actual_output_file: String,
    pub time_limit: i32,
}

/// Whether `filename` lets a run of `language` be laid out: it sits in a named folder, and for
/// Java its stem gives the class name.
pub open spec fn layout_possible(filename: Seq<char>, language: Seq<char>) -> bool {
    parent_folder_name(filename) is Some && (language == "java"@ ==> file_stem(filename) is Some)
}

/// The base path of what the build of a submission produces.
pub open spec fn artifact_name(filename: Seq<char>, language: Seq<char>) -> Seq<char> {
    if language == "java"@ {
        file_stem(filename)->0
    } else {
        joined(parent_folder_name(filename)->0, "Program"@)
    }
}

/// The file that receives a submitted program's standard output.
pub open spec fn actual_output_path(folder: Seq<char>) -> Seq<char> {
    joined(folder, "actualoutput.txt"@)
}

/// The file that receives a submitted program's standard error.
pub open spec fn stderr_path(folder: Seq<char>) -> Seq<char> {
    joined(folder, "stderr.txt"@)
}

impl Program {
    /// Lays out a run of the source file `filename`. In submit mode (`is_sample_exec` is
    /// `"submit"`) the output goes to a file that is compared with `expectedoutputfile`; a run
    /// with custom input writes its output to a file and compares nothing; a sample run keeps
    /// its output in memory.
    #[allow(clippy::too_many_arguments)]
    pub fn new(
        filename: &str,
        index: i32,
        language: &str,
        inputfile: &str,
        timelimit: i32,
        expectedoutputfile: &str,
        is_sample_exec: &str,
        is_custom_input: bool,
    ) -> (r: Result<Program, CodingError>)
        ensures
            r is Err <==> !layout_possible(filename@, language@),
            r matches Err(e) ==> e == CodingError::FileNameError,
            r matches Ok(p) ==> {
                let folder = parent_folder_name(filename@)->0;
                let submit = is_sample_exec@ == "submit"@;
                &&& p.file_name@ == filename@
                &&& p.folder_name@ == folder
                &&& p.name@ == artifact_name(filename@, language@)
                &&& p.language@ == language@
                &&& p.index == index
                &&& p.input_file@ == inputfile@
                &&& p.time_limit == timelimit
                &&& p.expected_output_file@ == (if !submit && is_custom_input {
                    Seq::empty()
                } else {
                    expectedoutputfile@
                })
                &&& p.actual_output_file@ == (if submit || is_custom_input {
                    actual_output_path(folder)
                } else {
                    Seq::empty()
                })
            },
    {
        let folder = match get_parent_folder_name(filename) {
            Some(f) => f,
            None => return Err(CodingError::FileNameError),
        };
        let name = if same_text(language, "java") {
            match get_java_file_stem(filename) {
                Some(stem) => stem,
                None => return Err(CodingError::FileNameError),
            }
        } else {
            join(folder.as_str(), "Program")
        };
        let submit = same_text(is_sample_exec, "submit");
        let expected_output_file = if !submit && is_custom_input {
            String::new()
        } else {
            expectedoutputfile.to_owned()
        };
        let actual_output_file = if submit || is_custom_input {
            join(folder.as_str(), "actualoutput.txt")
        } else {
            String::new()
        };
        Ok(Program {
            file_name: filename.to_owned(),
            folder_name: folder,
            name,
            language: language.to_owned(),
            index,
            input_file: inputfile.to_owned(),
            expected_output_file,
            actual_output_file,
            time_limit: timelimit,
        })
    }

    /// The file that receives this run's standard error in submit mode.
    pub fn stderr_file(&self) -> (r: String)
        ensures
            r@ == stderr_path(self.folder_name@),
    {
        join(self.folder_name.as_str(), "stderr.txt")
    }
}

} // verus!
