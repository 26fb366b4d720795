use vstd::prelude::*;
use crate::text::same_text;
use crate::types::CodingError;

verus! {

/// The languages that the engine knows how to name, build and run.
#[derive(Clone, Copy, Debug, PartialEq, Eq, Structural)]
pub enum Language {
    C,
    Cpp,
    CSharp,
    Go,
    Java,
    JavaScript,
    Julia,
    Kotlin,
    Python,
    Ruby,
    Rust,
    Scala,
    Swift,
    TypeScript,
    Zig,
}

/// The language that a request names, if it is one the engine supports.
pub open spec fn language_named(s: Seq<char>) -> Option<Language> {
    if s == "c"@ {
        Some(Language::C)
    } else if s == "cpp"@ {
        Some(Language::Cpp)
    } else if s == "csharp"@ {
        Some(Language::CSharp)
    } else if s == "go"@ {
        Some(Language::Go)
    } else if s == "java"@ {
        Some(Language::Java)
    } else if s == "javascript"@ {
        Some(Language::JavaScript)
    } else if s == "julia"@ {
        Some(Language::Julia)
    } else if s == "kotlin"@ {
        Some(Language::Kotlin)
    } else if s == "python"@ {
        Some(Language::Python)
    } else if s == "ruby"@ {
        Some(Language::Ruby)
    } else if s == "rust"@ {
        Some(Language::Rust)
    } else if s == "scala"@ {
        Some(Language::Scala)
    } else if s == "swift"@ {
        Some(Language::Swift)
    } else if s == "typescript"@ {
        Some(Language::TypeScript)
    } else if s == "zig"@ {
        Some(Language::Zig)
    } else {
        None
    }
}

/// The languages whose source is built into an artifact before it runs.
pub open spec fn compiled(l: Language) -> bool {
    l == Language::Java || l == Language::Cpp || l == Language::C || l == Language::Rust || l
        == Language::CSharp
}

/// Whether the language that `s` names is built before it runs.
pub open spec fn names_compiled_language(s: Seq<char>) -> bool {
    match language_named(s) {
        Some(l) => compiled(l),
        None => false,
    }
}

/// The source file name of a language whose file name does not depend on the source; none for
/// Java and Scala, whose files are named after a declaration in the source.
pub open spec fn fixed_file_name(l: Language) -> Option<Seq<char>> {
    match l {
        Language::C => Some("main.c"@),
        Language::Cpp => Some("main.cpp"@),
        Language::CSharp => Some("main.cs"@),
        Language::Go => Some("main.go"@),
        Language::JavaScript => Some("index.js"@),
        Language::Julia => Some("main.jl"@),
        Language::Kotlin => Some("main.kt"@),
        Language::Python => Some("main.py"@),
        Language::Ruby => Some("main.rb"@),
        Language::Rust => Some("main.rs"@),
        Language::Swift => Some("main.swift"@),
        Language::TypeScript => Some("index.ts"@),
        Language::Zig => Some("main.zig"@),
        Language::Java | Language::Scala => None,
    }
}

/// The declaration that names a Java source file: `public class <Name> {`.
pub const JAVA_CLASS_PATTERN: &'static str = r"public\s+class\s+(\w+)\s*\{";

/// The declaration that names a Scala source file: `object <Name> {`.
pub const SCALA_OBJECT_PATTERN: &'static str = r"object\s+(\w+)\s*\{";

/// What capture group 1 of `pattern` matches in the leftmost match of `pattern` in `text`;
/// none when the pattern does not compile, has no match there, or its group 1 takes no part
/// in the match.
pub uninterp spec fn regex_group_one(pattern: Seq<char>, text: Seq<char>) -> Option<Seq<char>>;

/// Relies on `regex::Regex::new` and `regex::Regex::captures`: compiles `pattern`, takes its
/// leftmost match in `text` and hands back the text of capture group 1. The result depends on
/// the two texts alone.
#[verifier::external_body]
fn first_group(pattern: &str, text: &str) -> (r: Option<String>)
    ensures
        match r {
            Some(g) => regex_group_one(pattern@, text@) == Some(g@),
            None => regex_group_one(pattern@, text@) is None,
        },
{
    match regex::Regex::new(pattern) {
        Ok(re) => match re.captures(text) {
            Some(caps) => match caps.get(1) {
                Some(m) => Some(m.as_str().to_string()),
                None => None,
            },
            None => None,
        },
        Err(_) => None,
    }
}

/// The source file name for a submission in `language` with source text `src`.
pub open spec fn file_name_for(language: Seq<char>, src: Seq<char>) -> Result<
    Seq<char>,
    CodingError,
> {
    match language_named(language) {
        None => Err(CodingError::UnsupportedLanguage),
        Some(Language::Java) => match regex_group_one(JAVA_CLASS_PATTERN@, src) {
            Some(name) => Ok(name + ".java"@),
            None => Err(CodingError::InvalidPublicClass),
        },
        Some(Language::Scala) => match regex_group_one(SCALA_OBJECT_PATTERN@, src) {
            Some(name) => Ok(name + ".scala"@),
            None => Err(CodingError::InvalidPublicClass),
        },
        Some(l) => Ok(fixed_file_name(l)->0),
    }
}

pub open spec fn string_result_view(r: Result<String, CodingError>) -> Result<
    Seq<char>,
    CodingError,
> {
    match r {
        Ok(s) => Ok(s@),
        Err(e) => Err(e),
    }
}

impl Language {
    /// The language that `name` names; none for an unsupported name.
    pub fn from_name(name: &str) -> (r: Option<Language>)
        ensures
            r == language_named(name@),
    {
        if same_text(name, "c") {
            Some(Language::C)
        } else if same_text(name, "cpp") {
            Some(Language::Cpp)
        } else if same_text(name, "csharp") {
            Some(Language::CSharp)
        } else if same_text(name, "go") {
            Some(Language::Go)
        } else if same_text(name, "java") {
            Some(Language::Java)
        } else if same_text(name, "javascript") {
            Some(Language::JavaScript)
        } else if same_text(name, "julia") {
            Some(Language::Julia)
        } else if same_text(name, "kotlin") {
            Some(Language::Kotlin)
        } else if same_text(name, "python") {
            Some(Language::Python)
        } else if same_text(name, "ruby") {
            Some(Language::Ruby)
        } else if same_text(name, "rust") {
            Some(Language::Rust)
        } else if same_text(name, "scala") {
            Some(Language::Scala)
        } else if same_text(name, "swift") {
            Some(Language::Swift)
        } else if same_text(name, "typescript") {
            Some(Language::TypeScript)
        } else if same_text(name, "zig") {
            Some(Language::Zig)
        } else {
            None
        }
    }

    /// Whether this language is built before it runs.
    pub fn is_compiled(&self) -> (r: bool)
        ensures
            r == compiled(*self),
    {
        match self {
            Language::Java | Language::Cpp | Language::C | Language::Rust | Language::CSharp => true,
            _ => false,
        }
    }
}

/// Whether `language` names a language that is built before it runs.
pub fn is_compiled_language(language: &str) -> (r: bool)
    ensures
        r == names_compiled_language(language@),
{
    match Language::from_name(language) {
        Some(l) => l.is_compiled(),
        None => false,
    }
}

/// The name of the source file for `src` in `language`: a fixed name for most languages, and
/// for Java and Scala the declared class or object name. Checks the source before any file is
/// touched.
pub fn make_filename(language: &str, src: &str) -> (r: Result<String, CodingError>)
    ensures
        string_result_view(r) == file_name_for(language@, src@),
{
    match Language::from_name(language) {
        None => Err(CodingError::UnsupportedLanguage),
        Some(Language::Java) => match first_group(JAVA_CLASS_PATTERN, src) {
            Some(name) => Ok(name.concat(".java")),
            None => Err(CodingError::InvalidPublicClass),
        },
        Some(Language::Scala) => match first_group(SCALA_OBJECT_PATTERN, src) {
            Some(name) => Ok(name.concat(".scala")),
            None => Err(CodingError::InvalidPublicClass),
        },
        Some(Language::C) => Ok("main.c".to_owned()),
        Some(Language::Cpp) => Ok("main.cpp".to_owned()),
        Some(Language::CSharp) => Ok("main.cs".to_owned()),
        Some(Language::Go) => Ok("main.go".to_owned()),
        Some(Language::JavaScript) => Ok("index.js".to_owned()),
        Some(Language::Julia) => Ok("main.jl".to_owned()),
        Some(Language::Kotlin) => Ok("main.kt".to_owned()),
        Some(Language::Python) => Ok("main.py".to_owned()),
        Some(Language::Ruby) => Ok("main.rb".to_owned()),
        Some(Language::Rust) => Ok("main.rs".to_owned()),
        Some(Language::Swift) => Ok("main.swift".to_owned()),
        Some(Language::TypeScript) => Ok("index.ts".to_owned()),
        Some(Language::Zig) => Ok("main.zig".to_owned()),
    }
}

/// A program and its argument list, each argument one token: nothing is ever split on spaces.
pub struct Command {
    pub program: String,
    pub args: Vec<String>,
}

pub open spec fn texts(v: Seq<String>) -> Seq<Seq<char>> {
    v.map_values(|s: String| s@)
}

impl View for Command {
    type V = (Seq<char>, Seq<Seq<char>>);

    open spec fn view(&self) -> (Seq<char>, Seq<Seq<char>>) {
        (self.program@, texts(self.args@))
    }
}

pub open spec fn command_view(c: Option<Command>) -> Option<(Seq<char>, Seq<Seq<char>>)> {
    match c {
        Some(c) => Some(c@),
        None => None,
    }
}

/// How `l` builds the source file `source` into the artifact whose base path is `binary`; none
/// for a language that has no build step.
pub open spec fn compile_spec(l: Language, source: Seq<char>, binary: Seq<char>) -> Option<
    (Seq<char>, Seq<Seq<char>>),
> {
    match l {
        Language::Java => Some(("javac"@, seq![source])),
        Language::C => Some(("gcc"@, seq![source, "-o"@, binary])),
        Language::Cpp => Some(("g++"@, seq![source, "-o"@, binary])),
        Language::CSharp => Some(("mcs"@, seq!["-out:"@ + binary + ".exe"@, source])),
        Language::Kotlin => Some(
            ("kotlinc"@, seq![source, "-include-runtime"@, "-d"@, binary + ".jar"@]),
        ),
        Language::Rust => Some(("rustc"@, seq![source, "-o"@, binary])),
        Language::Scala => Some(("scalac"@, seq![source])),
        Language::Swift => Some(("swiftc"@, seq![source])),
        Language::TypeScript => Some(("npx"@, seq!["tsc"@, source])),
        Language::Zig => Some(("zig"@, seq!["build-exe"@, source])),
        _ => None,
    }
}

/// How a submission in `l` runs, from its workspace `folder`, its source file `source` and the
/// base path `name` of what the build produced (for Java, the class name); none for a
/// language that cannot run.
pub open spec fn run_spec(l: Language, folder: Seq<char>, source: Seq<char>, name: Seq<char>) -> Option<
    (Seq<char>, Seq<Seq<char>>),
> {
    match l {
        Language::Java => Some(("java"@, seq!["-cp"@, folder, name])),
        Language::C => Some((name, Seq::empty())),
        Language::Cpp => Some((name, Seq::empty())),
        Language::Rust => Some((name, Seq::empty())),
        Language::CSharp => Some(("mono"@, seq![name + ".exe"@])),
        Language::Python => Some(("python3"@, seq![source])),
        Language::Ruby => Some(("ruby"@, seq![source])),
        Language::JavaScript => Some(("node"@, seq![source])),
        Language::Go => Some(("go"@, seq!["run"@, source])),
        Language::Julia => Some(("julia"@, seq![source])),
        _ => None,
    }
}

fn command1(program: &str, a: String) -> (r: Command)
    ensures
        r@ == (program@, seq![a@]),
{
    let args = vec![a];
    let r = Command { program: program.to_owned(), args };
    assert(texts(r.args@) =~= seq![a@]);
    r
}

fn command2(program: &str, a: String, b: String) -> (r: Command)
    ensures
        r@ == (program@, seq![a@, b@]),
{
    let args = vec![a, b];
    let r = Command { program: program.to_owned(), args };
    assert(texts(r.args@) =~= seq![a@, b@]);
    r
}

fn command3(program: &str, a: String, b: String, c: String) -> (r: Command)
    ensures
        r@ == (program@, seq![a@, b@, c@]),
{
    let args = vec![a, b, c];
    let r = Command { program: program.to_owned(), args };
    assert(texts(r.args@) =~= seq![a@, b@, c@]);
    r
}

fn command4(program: &str, a: String, b: String, c: String, d: String) -> (r: Command)
    ensures
        r@ == (program@, seq![a@, b@, c@, d@]),
{
    let args = vec![a, b, c, d];
    let r = Command { program: program.to_owned(), args };
    assert(texts(r.args@) =~= seq![a@, b@, c@, d@]);
    r
}

/// The command that builds `source` into the artifact at `binary`, if `l` has a build step.
pub fn compile_command(l: Language, source: &str, binary: &str) -> (r: Option<Command>)
    ensures
        command_view(r) == compile_spec(l, source@, binary@),
{
    let src = source.to_owned();
    match l {
        Language::Java => Some(command1("javac", src)),
        Language::C => Some(command3("gcc", src, "-o".to_owned(), binary.to_owned())),
        Language::Cpp => Some(command3("g++", src, "-o".to_owned(), binary.to_owned())),
        Language::CSharp => {
            let out = "-out:".to_owned().concat(binary).concat(".exe");
            Some(command2("mcs", out, src))
        },
        Language::Kotlin => {
            let jar = binary.to_owned().concat(".jar");
            Some(command4("kotlinc", src, "-include-runtime".to_owned(), "-d".to_owned(), jar))
        },
        Language::Rust => Some(command3("rustc", src, "-o".to_owned(), binary.to_owned())),
        Language::Scala => Some(command1("scalac", src)),
        Language::Swift => Some(command1("swiftc", src)),
        Language::TypeScript => Some(command2("npx", "tsc".to_owned(), src)),
        Language::Zig => Some(command2("zig", "build-exe".to_owned(), src)),
        _ => None,
    }
}

/// The command that runs a submission in `l`, if `l` can run.
pub fn run_command(l: Language, folder: &str, source: &str, name: &str) -> (r: Option<Command>)
    ensures
        command_view(r) == run_spec(l, folder@, source@, name@),
{
    match l {
        Language::Java => Some(
            command3("java", "-cp".to_owned(), folder.to_owned(), name.to_owned()),
        ),
        Language::C | Language::Cpp | Language::Rust => {
            let r = Command { program: name.to_owned(), args: Vec::new() };
            assert(texts(r.args@) =~= Seq::<Seq<char>>::empty());
            Some(r)
        },
        Language::CSharp => Some(command1("mono", name.to_owned().concat(".exe"))),
        Language::Python => Some(command1("python3", source.to_owned())),
        Language::Ruby => Some(command1("ruby", source.to_owned())),
        Language::JavaScript => Some(command1("node", source.to_owned())),
        Language::Go => Some(command2("go", "run".to_owned(), source.to_owned())),
        Language::Julia => Some(command1("julia", source.to_owned())),
        _ => None,
    }
}

} // verus!
