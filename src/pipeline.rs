use vstd::prelude::*;
use crate::language::{
    compile_command, compile_spec, compiled, file_name_for, language_named, make_filename,
    regex_group_one, run_command, run_spec, Command, Language, JAVA_CLASS_PATTERN,
};
use crate::outcome::{
    after_cleanup, bare, compare_verdict, compile_verdict, finish, judge_compile, judge_output,
    judge_run, run_verdict, with_phrase, CompileOutcome, FileRead, Mode, Response, ResponseView,
    RunOutcome,
};
use crate::paths::{
    is_uuid_text, join, joined, parent_folder_name, random_suffix, string_option_view,
    workspace_folder, workspace_name,
};
use crate::program::{actual_output_path, artifact_name, layout_possible, stderr_path, Program};
use crate::types::{error_status, CodingError, Question, StatusCodes};

verus! {

/// One submission: its source, how to handle it, and the data its run needs.
pub struct Submission {
    pub id: String,
    pub language: String,
    pub source_code: String,
    /// Wall-clock limit of the run, in seconds.
    pub timeout: i32,
    pub input: Option<String>,
    pub expected_output: Option<String>,
    pub mode: Mode,
}

impl Submission {
    /// A question as the HTTP service receives it: run as a sample, with no input.
    pub fn from_question(q: &Question) -> (r: Submission)
        ensures
            r.id@ == q.id@,
            r.language@ == q.language@,
            r.source_code@ == q.source_code@,
            r.timeout == q.timeout,
            r.input is None,
            r.expected_output is None,
            r.mode == Mode::RunSample,
    {
        Submission {
            id: q.id.clone(),
            language: q.language.clone(),
            source_code: q.source_code.clone(),
            timeout: q.timeout,
            input: None,
            expected_output: None,
            mode: Mode::RunSample,
        }
    }
}

/// Whether `l` has a build step.
pub open spec fn has_build_step(l: Language) -> bool {
    !(l == Language::Go || l == Language::JavaScript || l == Language::Julia || l
        == Language::Python || l == Language::Ruby)
}

/// Whether the engine knows how to run `l`.
pub open spec fn can_run(l: Language) -> bool {
    compiled(l) || l == Language::Go || l == Language::JavaScript || l == Language::Julia || l
        == Language::Python || l == Language::Ruby
}

/// Whether a submission in `mode` builds before anything else.
pub open spec fn builds(mode: Mode, l: Language) -> bool {
    mode == Mode::CompileOnly || compiled(l)
}

/// Whether every step that `mode` asks of `l` is known.
pub open spec fn steps_known(mode: Mode, l: Language) -> bool {
    if mode == Mode::CompileOnly {
        has_build_step(l)
    } else {
        can_run(l) && (compiled(l) ==> has_build_step(l))
    }
}

fn steps_known_for(mode: Mode, l: Language) -> (r: bool)
    ensures
        r == steps_known(mode, l),
{
    let build = match l {
        Language::Go | Language::JavaScript | Language::Julia | Language::Python
        | Language::Ruby => false,
        _ => true,
    };
    if mode == Mode::CompileOnly {
        build
    } else {
        let run = match l {
            Language::Kotlin | Language::Scala | Language::Swift | Language::TypeScript
            | Language::Zig => false,
            _ => true,
        };
        run && (!l.is_compiled() || build)
    }
}

/// Why a submission is turned away before anything touches the disk; none when it is not.
pub open spec fn rejection(sub: Submission) -> Option<StatusCodes> {
    match file_name_for(sub.language@, sub.source_code@) {
        Err(e) => Some(error_status(e)),
        Ok(_) => {
            let l = language_named(sub.language@)->0;
            if !steps_known(sub.mode, l) {
                Some(StatusCodes::InvalidFile)
            } else if (sub.mode == Mode::Submit && (sub.input is None || sub.expected_output is None))
                || (sub.mode == Mode::RunCustomInput && sub.input is None) {
                Some(StatusCodes::FileNotFound)
            } else if sub.timeout <= 0 {
                Some(StatusCodes::InvalidFile)
            } else {
                None
            }
        },
    }
}

/// The path of the source file of `sub` inside the workspace named with `suffix`.
pub open spec fn source_path_for(sub: Submission, suffix: Seq<char>) -> Seq<char> {
    joined(
        workspace_name(sub.language@, suffix),
        file_name_for(sub.language@, sub.source_code@)->Ok_0,
    )
}

pub open spec fn input_path(folder: Seq<char>) -> Seq<char> {
    joined(folder, "input.txt"@)
}

pub open spec fn expected_path(folder: Seq<char>) -> Seq<char> {
    joined(folder, "expected.txt"@)
}

/// The files that provisioning writes for `sub` into `folder`: the source, then the input
/// when the run reads one, then the expected output when the run is judged.
pub open spec fn files_for(sub: Submission, folder: Seq<char>, source: Seq<char>) -> Seq<
    (Seq<char>, Seq<char>),
> {
    seq![(source, sub.source_code@)] + (if sub.mode == Mode::Submit || sub.mode
        == Mode::RunCustomInput {
        seq![(input_path(folder), sub.input->0@)]
    } else {
        Seq::empty()
    }) + (if sub.mode == Mode::Submit {
        seq![(expected_path(folder), sub.expected_output->0@)]
    } else {
        Seq::empty()
    })
}

/// What starting `sub` in the workspace named with `suffix` yields: an immediate answer for a
/// submission that cannot be handled, and otherwise a pipeline that asks for its workspace,
/// with every path of the run laid out in it.
pub open spec fn started(sub: Submission, suffix: Seq<char>, r: (Pipeline, Action)) -> bool {
    let source = source_path_for(sub, suffix);
    let folder = workspace_name(sub.language@, suffix);
    let workdir = parent_folder_name(source)->0;
    match rejection(sub) {
        Some(st) => {
            &&& r.1 matches Action::Respond(x) && x@ == with_phrase(st)
            &&& r.0.stage() == Stage::Done
            &&& !r.0.provisioned()
        },
        None => if !layout_possible(source, sub.language@) {
            &&& r.1 matches Action::Respond(x) && x@ == with_phrase(
                StatusCodes::InternalServerError,
            )
            &&& r.0.stage() == Stage::Done
            &&& !r.0.provisioned()
        } else {
            &&& r.0.stage() == Stage::Provisioning
            &&& r.0.provisioned()
            &&& !r.0.cleanup_requested()
            &&& r.0.mode() == sub.mode
            &&& r.0.language() == language_named(sub.language@)->0
            &&& r.0.folder() == folder
            &&& r.0.source_path() == source
            &&& r.0.workdir() == workdir
            &&& r.0.artifact() == artifact_name(source, sub.language@)
            &&& r.0.input_path() == input_path(folder)
            &&& r.0.expected_path() == (if sub.mode == Mode::RunCustomInput {
                Seq::empty()
            } else {
                expected_path(folder)
            })
            &&& r.0.output_path() == (if sub.mode == Mode::Submit || sub.mode
                == Mode::RunCustomInput {
                actual_output_path(workdir)
            } else {
                Seq::empty()
            })
            &&& r.0.time_limit() == sub.timeout
            &&& r.1 matches Action::Provision { folder: f, files } && f@ == folder && files_view(
                files@,
            ) == files_for(sub, folder, source)
        },
    }
}

pub open spec fn files_view(v: Seq<(String, String)>) -> Seq<(Seq<char>, Seq<char>)> {
    v.map_values(|p: (String, String)| (p.0@, p.1@))
}

/// The stages of a submission's life.
#[derive(Clone, Copy, Debug, PartialEq, Eq, Structural)]
pub enum Stage {
    Provisioning,
    Compiling,
    Running,
    Comparing,
    CleaningUp,
    Done,
}

/// What the surroundings report back after carrying out an action.
pub enum Event {
    /// The workspace and its files were (or were not) all created.
    Provisioned(bool),
    Compiled(CompileOutcome),
    Ran(RunOutcome),
    /// The actual and the expected output, read back from their files.
    Read { actual: FileRead, expected: FileRead },
    /// The workspace was (or was not) removed.
    CleanedUp(bool),
}

/// What the surroundings are asked to do next.
pub enum Action {
    /// Create `folder` and write each `(path, contents)` pair into it.
    Provision { folder: String, files: Vec<(String, String)> },
    /// Run the compiler and capture its standard error.
    Compile(Command),
    /// Run the program with a wall-clock limit of `time_limit` seconds. `stdin` names the file
    /// that feeds standard input; `stdout` and `stderr` name files that receive the output
    /// streams, which are captured in memory where they are none. A program that outlives
    /// the limit is killed with all its descendants before the run is reported.
    Run {
        command: Command,
        stdin: Option<String>,
        stdout: Option<String>,
        stderr: Option<String>,
        time_limit: u32,
    },
    /// Read back the actual and the expected output files.
    Compare { actual: String, expected: String },
    /// Remove `folder` and everything under it.
    Cleanup { folder: String },
    /// Send this response; the submission is over.
    Respond(Response),
}

/// What a provisioned submission needs for the rest of its life.
struct Plan {
    mode: Mode,
    language: Language,
    folder: String,
    program: Program,
    time_limit: u32,
}

/// The life of one submission, driven by `step`. A submission that got a workspace is
/// answered only after its workspace was cleaned up, and cleanup is asked for exactly once.
pub struct Pipeline {
    stage: Stage,
    plan: Option<Plan>,
    cleanup_requested: bool,
    cleanup_result: Option<bool>,
    pending: Option<Response>,
    response: Option<Response>,
}

pub open spec fn is_active(s: Stage) -> bool {
    s == Stage::Provisioning || s == Stage::Compiling || s == Stage::Running || s
        == Stage::Comparing
}

/// Whether `e` is the report that stage `s` waits for, and a good one where it can be bad.
pub open spec fn expected_event(s: Stage, e: Event) -> bool {
    ||| s == Stage::Provisioning && e == Event::Provisioned(true)
    ||| s == Stage::Compiling && e is Compiled
    ||| s == Stage::Running && e is Ran
    ||| s == Stage::Comparing && e is Read
}

impl Pipeline {
    #[verifier::type_invariant]
    spec fn inv(self) -> bool {
        &&& self.stage != Stage::Done ==> self.plan is Some
        &&& self.plan matches Some(p) ==> p.time_limit > 0 && steps_known(p.mode, p.language)
        &&& is_active(self.stage) ==> !self.cleanup_requested && self.cleanup_result is None
        &&& self.stage == Stage::Compiling ==> builds(self.plan->0.mode, self.plan->0.language)
        &&& self.stage == Stage::Running ==> self.plan->0.mode != Mode::CompileOnly
        &&& self.stage == Stage::Comparing ==> self.plan->0.mode == Mode::Submit
        &&& self.stage == Stage::CleaningUp ==> self.cleanup_requested && self.pending is Some
            && self.cleanup_result is None
        &&& self.stage == Stage::Done ==> self.response is Some && (self.plan is Some
            ==> self.cleanup_requested && self.cleanup_result is Some)
        &&& self.cleanup_requested ==> self.plan is Some
    }

    pub closed spec fn stage(&self) -> Stage {
        self.stage
    }

    /// Whether a workspace was asked for.
    pub closed spec fn provisioned(&self) -> bool {
        self.plan is Some
    }

    pub closed spec fn cleanup_requested(&self) -> bool {
        self.cleanup_requested
    }

    /// What cleanup reported, once it has.
    pub closed spec fn cleanup_result(&self) -> Option<bool> {
        self.cleanup_result
    }

    /// The response decided before cleanup.
    pub closed spec fn pending(&self) -> Option<ResponseView> {
        match self.pending {
            Some(r) => Some(r@),
            None => None,
        }
    }

    /// The response sent.
    pub closed spec fn response(&self) -> Option<ResponseView> {
        match self.response {
            Some(r) => Some(r@),
            None => None,
        }
    }

    pub closed spec fn mode(&self) -> Mode {
        self.plan->0.mode
    }

    pub closed spec fn language(&self) -> Language {
        self.plan->0.language
    }

    /// The workspace directory.
    pub closed spec fn folder(&self) -> Seq<char> {
        self.plan->0.folder@
    }

    /// The directory of the run's files, as the run's layout names it.
    pub closed spec fn workdir(&self) -> Seq<char> {
        self.plan->0.program.folder_name@
    }

    pub closed spec fn source_path(&self) -> Seq<char> {
        self.plan->0.program.file_name@
    }

    /// The base path of the build's artifact (for Java, the class name).
    pub closed spec fn artifact(&self) -> Seq<char> {
        self.plan->0.program.name@
    }

    pub closed spec fn input_path(&self) -> Seq<char> {
        self.plan->0.program.input_file@
    }

    pub closed spec fn output_path(&self) -> Seq<char> {
        self.plan->0.program.actual_output_file@
    }

    pub closed spec fn expected_path(&self) -> Seq<char> {
        self.plan->0.program.expected_output_file@
    }

    pub closed spec fn time_limit(&self) -> u32 {
        self.plan->0.time_limit
    }

    /// Whether `a` runs the program of this submission as its mode asks.
    pub open spec fn runs_program(&self, a: Action) -> bool {
        a matches Action::Run { command, stdin, stdout, stderr, time_limit } && {
            &&& Some(command@) == run_spec(
                self.language(),
                self.workdir(),
                self.source_path(),
                self.artifact(),
            )
            &&& string_option_view(stdin) == (if self.mode() == Mode::RunSample {
                None
            } else {
                Some(self.input_path())
            })
            &&& string_option_view(stdout) == (if self.mode() == Mode::Submit {
                Some(self.output_path())
            } else {
                None
            })
            &&& string_option_view(stderr) == (if self.mode() == Mode::Submit {
                Some(stderr_path(self.workdir()))
            } else {
                None
            })
            &&& time_limit == self.time_limit()
        }
    }

    /// Whether `next` and `a` wind the submission down with `v` as the answer owed.
    pub open spec fn winds_down(&self, next: Pipeline, a: Action, v: ResponseView) -> bool {
        &&& next.stage() == Stage::CleaningUp
        &&& next.pending() == Some(v)
        &&& a matches Action::Cleanup { folder } && folder@ == self.folder()
    }

    fn rejected(resp: Response) -> (r: (Pipeline, Action))
        ensures
            r.0.stage() == Stage::Done,
            !r.0.provisioned(),
            r.0.response() == Some(resp@),
            r.1 matches Action::Respond(x) && x@ == resp@,
    {
        let out = resp.copy();
        (
            Pipeline {
                stage: Stage::Done,
                plan: None,
                cleanup_requested: false,
                cleanup_result: None,
                pending: None,
                response: Some(resp),
            },
            Action::Respond(out),
        )
    }

    /// Starts a submission whose workspace takes its name from `suffix`. A submission that
    /// cannot be handled is answered at once, before any file or process is touched.
    pub fn start(sub: &Submission, suffix: &str) -> (r: (Pipeline, Action))
        ensures
            language_named(sub.language@) is None ==> (r.1 matches Action::Respond(x) && x.status
                == StatusCodes::InvalidFile && !r.0.provisioned()),
            language_named(sub.language@) == Some(Language::Java) && regex_group_one(
                JAVA_CLASS_PATTERN@,
                sub.source_code@,
            ) is None ==> (r.1 matches Action::Respond(x) && x.status == StatusCodes::InvalidFile
                && !r.0.provisioned()),
            started(*sub, suffix@, r),
    {
        let file_name = match make_filename(sub.language.as_str(), sub.source_code.as_str()) {
            Ok(f) => f,
            Err(e) => return Pipeline::rejected(Response::failure(e.status())),
        };
        let l = match Language::from_name(sub.language.as_str()) {
            Some(l) => l,
            None => return Pipeline::rejected(Response::failure(StatusCodes::InvalidFile)),
        };
        if !steps_known_for(sub.mode, l) {
            return Pipeline::rejected(Response::failure(StatusCodes::InvalidFile));
        }
        let missing = match sub.mode {
            Mode::Submit => sub.input.is_none() || sub.expected_output.is_none(),
            Mode::RunCustomInput => sub.input.is_none(),
            _ => false,
        };
        if missing {
            return Pipeline::rejected(Response::failure(StatusCodes::FileNotFound));
        }
        if sub.timeout <= 0 {
            return Pipeline::rejected(Response::failure(StatusCodes::InvalidFile));
        }
        let folder = workspace_folder(sub.language.as_str(), suffix);
        let source_path = join(folder.as_str(), file_name.as_str());
        assert(source_path@ == source_path_for(*sub, suffix@));
        let input_file = join(folder.as_str(), "input.txt");
        let expected_file = join(folder.as_str(), "expected.txt");
        let submit = sub.mode == Mode::Submit;
        let run_kind = if submit {
            "submit"
        } else {
            "run"
        };
        proof {
            reveal_strlit("submit");
            reveal_strlit("run");
            assert("run"@ != "submit"@) by {
                assert("run"@.len() != "submit"@.len());
            }
            assert((run_kind@ == "submit"@) == (sub.mode == Mode::Submit));
        }
        let program = match Program::new(
            source_path.as_str(),
            0,
            sub.language.as_str(),
            input_file.as_str(),
            sub.timeout,
            expected_file.as_str(),
            run_kind,
            sub.mode == Mode::RunCustomInput,
        ) {
            Ok(p) => p,
            Err(e) => return Pipeline::rejected(Response::failure(e.status())),
        };
        let mut files: Vec<(String, String)> = Vec::new();
        files.push((source_path, sub.source_code.clone()));
        if submit || sub.mode == Mode::RunCustomInput {
            match &sub.input {
                Some(text) => files.push((input_file, text.clone())),
                None => {},
            }
        }
        if submit {
            match &sub.expected_output {
                Some(text) => files.push((expected_file, text.clone())),
                None => {},
            }
        }
        let ghost want = files_for(*sub, folder@, source_path_for(*sub, suffix@));
        assert(files_view(files@) =~= want);
        let plan = Plan {
            mode: sub.mode,
            language: l,
            folder: folder.clone(),
            program,
            time_limit: sub.timeout as u32,
        };
        (
            Pipeline {
                stage: Stage::Provisioning,
                plan: Some(plan),
                cleanup_requested: false,
                cleanup_result: None,
                pending: None,
                response: None,
            },
            Action::Provision { folder, files },
        )
    }

    fn compile_action(plan: &Plan) -> (a: Action)
        requires
            has_build_step(plan.language),
        ensures
            a matches Action::Compile(c) && Some(c@) == compile_spec(
                plan.language,
                plan.program.file_name@,
                plan.program.name@,
            ),
    {
        Action::Compile(
            compile_command(
                plan.language,
                plan.program.file_name.as_str(),
                plan.program.name.as_str(),
            ).unwrap(),
        )
    }

    fn run_action(plan: &Plan) -> (a: Action)
        requires
            can_run(plan.language),
            plan.mode != Mode::CompileOnly,
        ensures
            a matches Action::Run { command, stdin, stdout, stderr, time_limit } && {
                &&& Some(command@) == run_spec(
                    plan.language,
                    plan.program.folder_name@,
                    plan.program.file_name@,
                    plan.program.name@,
                )
                &&& string_option_view(stdin) == (if plan.mode == Mode::RunSample {
                    None
                } else {
                    Some(plan.program.input_file@)
                })
                &&& string_option_view(stdout) == (if plan.mode == Mode::Submit {
                    Some(plan.program.actual_output_file@)
                } else {
                    None
                })
                &&& string_option_view(stderr) == (if plan.mode == Mode::Submit {
                    Some(stderr_path(plan.program.folder_name@))
                } else {
                    None
                })
                &&& time_limit == plan.time_limit
            },
    {
        let p = &plan.program;
        let command = run_command(
            plan.language,
            p.folder_name.as_str(),
            p.file_name.as_str(),
            p.name.as_str(),
        ).unwrap();
        let stdin = if plan.mode == Mode::RunSample {
            None
        } else {
            Some(p.input_file.clone())
        };
        let (stdout, stderr) = if plan.mode == Mode::Submit {
            (Some(p.actual_output_file.clone()), Some(p.stderr_file()))
        } else {
            (None, None)
        };
        Action::Run { command, stdin, stdout, stderr, time_limit: plan.time_limit }
    }

    fn wind_down(plan: Plan, pending: Response) -> (r: (Pipeline, Action))
        requires
            plan.time_limit > 0,
            steps_known(plan.mode, plan.language),
        ensures
            r.0.stage() == Stage::CleaningUp,
            r.0.provisioned(),
            r.0.cleanup_requested(),
            r.0.cleanup_result() is None,
            r.0.pending() == Some(pending@),
            r.0.mode() == plan.mode,
            r.0.language() == plan.language,
            r.0.folder() == plan.folder@,
            r.1 matches Action::Cleanup { folder } && folder@ == plan.folder@,
    {
        let folder = plan.folder.clone();
        (
            Pipeline {
                stage: Stage::CleaningUp,
                plan: Some(plan),
                cleanup_requested: true,
                cleanup_result: None,
                pending: Some(pending),
                response: None,
            },
            Action::Cleanup { folder },
        )
    }

    /// Takes the report on the last action and decides the next one.
    pub fn step(self, event: Event) -> (r: (Pipeline, Action))
        ensures
            r.0.provisioned() == self.provisioned(),
            r.0.provisioned() ==> r.0.mode() == self.mode() && r.0.language() == self.language()
                && r.0.folder() == self.folder(),
            // Cleanup is asked for at most once, and only for the submission's own workspace.
            r.1 is Cleanup ==> !self.cleanup_requested() && r.0.cleanup_requested(),
            self.cleanup_requested() ==> r.0.cleanup_requested(),
            r.1 matches Action::Cleanup { folder } ==> folder@ == self.folder(),
            // A submission that got a workspace is answered only after cleanup reported.
            r.1 is Respond ==> r.0.stage() == Stage::Done && (r.0.provisioned()
                ==> r.0.cleanup_requested() && r.0.cleanup_result() is Some),
            // Output is compared only after a clean run in submit mode.
            r.1 is Compare ==> self.stage() == Stage::Running && self.mode() == Mode::Submit,
            self.stage() == Stage::Done ==> (r.1 matches Action::Respond(x) && self.response()
                == Some(x@) && r.0.stage() == Stage::Done && r.0.response() == self.response()),
            self.stage() == Stage::CleaningUp ==> {
                let cleaned = event == Event::CleanedUp(true);
                &&& r.0.stage() == Stage::Done
                &&& r.0.cleanup_result() == Some(cleaned)
                &&& r.1 matches Action::Respond(x) && x@ == after_cleanup(
                    self.pending()->0,
                    cleaned,
                )
                &&& r.0.response() == Some(after_cleanup(self.pending()->0, cleaned))
            },
            is_active(self.stage()) && !expected_event(self.stage(), event) ==> self.winds_down(
                r.0,
                r.1,
                with_phrase(StatusCodes::InternalServerError),
            ),
            self.stage() == Stage::Provisioning && event == Event::Provisioned(true) ==> if builds(
                self.mode(),
                self.language(),
            ) {
                r.0.stage() == Stage::Compiling && (r.1 matches Action::Compile(c) && Some(c@)
                    == compile_spec(self.language(), self.source_path(), self.artifact()))
            } else {
                r.0.stage() == Stage::Running && self.runs_program(r.1)
            },
            self.stage() == Stage::Compiling && event is Compiled ==> match compile_verdict(
                event->Compiled_0,
            ) {
                Some(v) => self.winds_down(r.0, r.1, v),
                None => if self.mode() == Mode::CompileOnly {
                    self.winds_down(r.0, r.1, bare(StatusCodes::Success))
                } else {
                    r.0.stage() == Stage::Running && self.runs_program(r.1)
                },
            },
            self.stage() == Stage::Running && event is Ran ==> match run_verdict(
                self.mode(),
                event->Ran_0,
            ) {
                Some(v) => self.winds_down(r.0, r.1, v),
                None => r.0.stage() == Stage::Comparing && (r.1 matches Action::Compare {
                    actual,
                    expected,
                } && actual@ == self.output_path() && expected@ == self.expected_path()),
            },
            self.stage() == Stage::Comparing && event is Read ==> self.winds_down(
                r.0,
                r.1,
                compare_verdict(event->actual, event->expected),
            ),
    {
        proof {
            use_type_invariant(&self);
        }
        let Pipeline { stage, plan, cleanup_requested, cleanup_result, pending, response } = self;
        match stage {
            Stage::Done => {
                let resp = response.unwrap();
                let out = resp.copy();
                (
                    Pipeline {
                        stage,
                        plan,
                        cleanup_requested,
                        cleanup_result,
                        pending,
                        response: Some(resp),
                    },
                    Action::Respond(out),
                )
            },
            Stage::CleaningUp => {
                let cleaned = match event {
                    Event::CleanedUp(ok) => ok,
                    _ => false,
                };
                let owed = pending.unwrap();
                let fin = finish(&owed, cleaned);
                let out = fin.copy();
                (
                    Pipeline {
                        stage: Stage::Done,
                        plan,
                        cleanup_requested,
                        cleanup_result: Some(cleaned),
                        pending: Some(owed),
                        response: Some(fin),
                    },
                    Action::Respond(out),
                )
            },
            _ => {
                let plan = plan.unwrap();
                match (stage, event) {
                    (Stage::Provisioning, Event::Provisioned(true)) => {
                        if plan.mode == Mode::CompileOnly || plan.language.is_compiled() {
                            let a = Pipeline::compile_action(&plan);
                            (
                                Pipeline {
                                    stage: Stage::Compiling,
                                    plan: Some(plan),
                                    cleanup_requested,
                                    cleanup_result,
                                    pending,
                                    response,
                                },
                                a,
                            )
                        } else {
                            let a = Pipeline::run_action(&plan);
                            (
                                Pipeline {
                                    stage: Stage::Running,
                                    plan: Some(plan),
                                    cleanup_requested,
                                    cleanup_result,
                                    pending,
                                    response,
                                },
                                a,
                            )
                        }
                    },
                    (Stage::Compiling, Event::Compiled(o)) => match judge_compile(&o) {
                        Some(v) => Pipeline::wind_down(plan, v),
                        None => if plan.mode == Mode::CompileOnly {
                            Pipeline::wind_down(plan, Response::plain(StatusCodes::Success))
                        } else {
                            let a = Pipeline::run_action(&plan);
                            (
                                Pipeline {
                                    stage: Stage::Running,
                                    plan: Some(plan),
                                    cleanup_requested,
                                    cleanup_result,
                                    pending,
                                    response,
                                },
                                a,
                            )
                        },
                    },
                    (Stage::Running, Event::Ran(o)) => match judge_run(plan.mode, &o) {
                        Some(v) => Pipeline::wind_down(plan, v),
                        None => {
                            let a = Action::Compare {
                                actual: plan.program.actual_output_file.clone(),
                                expected: plan.program.expected_output_file.clone(),
                            };
                            (
                                Pipeline {
                                    stage: Stage::Comparing,
                                    plan: Some(plan),
                                    cleanup_requested,
                                    cleanup_result,
                                    pending,
                                    response,
                                },
                                a,
                            )
                        },
                    },
                    (Stage::Comparing, Event::Read { actual, expected }) => {
                        let v = judge_output(&actual, &expected);
                        Pipeline::wind_down(plan, v)
                    },
                    _ => Pipeline::wind_down(
                        plan,
                        Response::failure(StatusCodes::InternalServerError),
                    ),
                }
            },
        }
    }

    /// Starts a submission in a freshly named workspace.
    pub fn new(sub: &Submission) -> (r: (Pipeline, Action))
        ensures
            rejection(*sub) matches Some(st) ==> (r.1 matches Action::Respond(x) && x@
                == with_phrase(st) && !r.0.provisioned()),
            exists|u: Seq<char>| is_uuid_text(u) && #[trigger] started(*sub, u, r),
    {
        let suffix = random_suffix();
        let r = Pipeline::start(sub, suffix.as_str());
        assert(is_uuid_text(suffix@) && started(*sub, suffix@, r));
        r
    }
}

} // verus!
