use vstd::prelude::*;
use vstd::string::*;

verus! {

/// `part` appended to `base` as one more path component. A separator is put
/// between the two unless `base` is empty or already ends with one.
pub open spec fn join_spec(base: Seq<char>, part: Seq<char>) -> Seq<char> {
    if base.len() == 0 || base.last() == '/' {
        base + part
    } else {
        base + "/"@ + part
    }
}

/// The directory that build outputs go to.
pub open spec fn build_dir_spec(project_dir: Seq<char>) -> Seq<char> {
    join_spec(project_dir, "build"@)
}

/// Where the compiled artifact is written.
pub open spec fn artifact_path_spec(project_dir: Seq<char>) -> Seq<char> {
    join_spec(build_dir_spec(project_dir), "main.wbc"@)
}

/// Where the debug map is written.
pub open spec fn debug_map_path_spec(project_dir: Seq<char>) -> Seq<char> {
    join_spec(build_dir_spec(project_dir), "dbg.json"@)
}

/// Appends the relative component `part` to the path `base`.
pub fn join_path(base: &str, part: &str) -> (r: String)
    ensures
        r@ == join_spec(base@, part@),
{
    let n = base.unicode_len();
    let s = String::from_str(base);
    if n == 0 || base.get_char(n - 1) == '/' {
        s.concat(part)
    } else {
        s.concat("/").concat(part)
    }
}

/// `<project_dir>/build`, the directory that holds the build outputs.
pub fn build_dir(project_dir: &str) -> (r: String)
    ensures
        r@ == build_dir_spec(project_dir@),
{
    join_path(project_dir, "build")
}

/// `<project_dir>/build/main.wbc`, the compiled artifact.
pub fn artifact_path(project_dir: &str) -> (r: String)
    ensures
        r@ == artifact_path_spec(project_dir@),
{
    let dir = build_dir(project_dir);
    join_path(dir.as_str(), "main.wbc")
}

/// `<project_dir>/build/dbg.json`, the debug map.
pub fn debug_map_path(project_dir: &str) -> (r: String)
    ensures
        r@ == debug_map_path_spec(project_dir@),
{
    let dir = build_dir(project_dir);
    join_path(dir.as_str(), "dbg.json")
}

/// The text that a sequence of output lines contributes to the log: each line
/// that was read as text, followed by a newline, in order. A line that could
/// not be decoded (`None`) contributes nothing.
pub open spec fn log_of(lines: Seq<Option<String>>) -> Seq<char>
    decreases lines.len(),
{
    if lines.len() == 0 {
        Seq::empty()
    } else {
        let before = log_of(lines.drop_last());
        match lines.last() {
            Option::Some(l) => before + l@ + "\n"@,
            Option::None => before,
        }
    }
}

/// Appends to `log` every decodable line of `lines`, each followed by a newline.
pub fn append_lines(log: &mut String, lines: &Vec<Option<String>>)
    ensures
        final(log)@ == old(log)@ + log_of(lines@),
{
    let ghost start = log@;
    let mut i: usize = 0;
    while i < lines.len()
        invariant
            i <= lines@.len(),
            log@ == start + log_of(lines@.subrange(0, i as int)),
        decreases lines@.len() - i,
    {
        let ghost done = lines@.subrange(0, i as int);
        let ghost next = lines@.subrange(0, i as int + 1);
        assert(next.drop_last() =~= done);
        match &lines[i] {
            Option::Some(l) => {
                log.append(l.as_str());
                log.append("\n");
                assert(log@ =~= start + log_of(next));
            },
            Option::None => {},
        }
        i = i + 1;
    }
    assert(lines@.subrange(0, lines@.len() as int) =~= lines@);
}


/// Outcome of one build: whether the compiler succeeded, and everything it
/// printed (standard output first, then standard error).
pub struct BuildResult {
    pub ok: bool,
    pub log: String,
}

/// The result of a build whose compiler could not be started: not ok, and
/// a log that reports the launch error `message`.
pub fn spawn_failure(message: &str) -> (r: BuildResult)
    ensures
        !r.ok,
        r.log@ == "Spawn error: "@ + message@,
        r.log@.len() > 0,
{
    proof {
        reveal_strlit("Spawn error: ");
    }
    let log = String::from_str("Spawn error: ").concat(message);
    BuildResult { ok: false, log }
}

/// The result of a build whose compiler ran. `exit_success` is `None` when
/// waiting for the process failed, else whether it exited with status zero.
/// The log holds the standard output lines, then the standard error lines.
pub fn finish_build(
    stdout_lines: &Vec<Option<String>>,
    stderr_lines: &Vec<Option<String>>,
    exit_success: Option<bool>,
) -> (r: BuildResult)
    ensures
        r.ok == (exit_success == Option::Some(true)),
        r.log@ == log_of(stdout_lines@) + log_of(stderr_lines@),
{
    let mut log = String::new();
    append_lines(&mut log, stdout_lines);
    append_lines(&mut log, stderr_lines);
    let ok = match exit_success {
        Option::Some(b) => b,
        Option::None => false,
    };
    BuildResult { ok, log }
}


/// The operating system family that decides the interpreter's file names.
pub enum Platform {
    Windows,
    Unix,
}

/// An interpreter that may be used to run the compiler. One given by an
/// absolute path is tested by whether the file exists; any other is tested by
/// launching it with a version query.
pub struct Candidate {
    pub path: String,
    pub absolute: bool,
}

/// The interpreter bundled with a project, relative to the project directory.
pub open spec fn bundled_interpreter(platform: Platform) -> Seq<char> {
    match platform {
        Platform::Windows => "runtime/python/python.exe"@,
        Platform::Unix => "runtime/python/bin/python3"@,
    }
}

/// The preferred interpreter name to look up in the search path.
pub open spec fn preferred_command(platform: Platform) -> Seq<char> {
    match platform {
        Platform::Windows => "python.exe"@,
        Platform::Unix => "python3"@,
    }
}

/// The interpreter name used when no candidate is available.
pub open spec fn fallback_interpreter() -> Seq<char> {
    "python"@
}

/// The interpreters to try, in order of preference: the bundled one, the
/// preferred command name, then the generic one.
pub open spec fn candidate_paths(project_dir: Seq<char>, platform: Platform) -> Seq<Seq<char>> {
    seq![
        join_spec(project_dir, bundled_interpreter(platform)),
        preferred_command(platform),
        fallback_interpreter(),
    ]
}

/// Relies on std's `Path::is_absolute`; what it answers depends on the
/// platform's path rules, so nothing is stated of it.
#[verifier::external_body]
fn path_is_absolute(path: &str) -> (r: bool) {
    std::path::Path::new(path).is_absolute()
}

fn candidate(path: String) -> (r: Candidate)
    ensures
        r.path@ == path@,
{
    let absolute = path_is_absolute(path.as_str());
    Candidate { path, absolute }
}

/// The interpreters to try for a project, in order of preference.
pub fn interpreter_candidates(project_dir: &str, platform: Platform) -> (r: Vec<Candidate>)
    ensures
        r@.len() == 3,
        forall|i: int| 0 <= i < 3 ==> #[trigger] r@[i].path@ == candidate_paths(project_dir@, platform)[i],
{
    let (bundled, preferred) = match platform {
        Platform::Windows => (
            join_path(project_dir, "runtime/python/python.exe"),
            String::from_str("python.exe"),
        ),
        Platform::Unix => (
            join_path(project_dir, "runtime/python/bin/python3"),
            String::from_str("python3"),
        ),
    };
    let mut r: Vec<Candidate> = Vec::new();
    r.push(candidate(bundled));
    r.push(candidate(preferred));
    r.push(candidate(String::from_str("python")));
    r
}

/// The next move while choosing an interpreter.
pub enum SelectStep {
    /// Test candidate `index`, at `path`: by the file's existence when
    /// `by_existence`, else by launching it with a version query.
    Check { index: usize, path: String, by_existence: bool },
    /// Run the compiler with `program`.
    Use { program: String },
}

/// `s` tests candidate `i` of `candidates`.
pub open spec fn checks(s: SelectStep, candidates: Seq<Candidate>, i: int) -> bool {
    match s {
        SelectStep::Check { index, path, by_existence } => {
            &&& index == i
            &&& path@ == candidates[i].path@
            &&& by_existence == candidates[i].absolute
        },
        SelectStep::Use { .. } => false,
    }
}

/// `s` settles on `program`.
pub open spec fn uses(s: SelectStep, program: Seq<char>) -> bool {
    match s {
        SelectStep::Use { program: p } => p@ == program,
        SelectStep::Check { .. } => false,
    }
}

fn check_step(candidates: &Vec<Candidate>, index: usize) -> (r: SelectStep)
    requires
        index < candidates@.len(),
    ensures
        checks(r, candidates@, index as int),
{
    let c = &candidates[index];
    SelectStep::Check { index, path: c.path.clone(), by_existence: c.absolute }
}

fn fallback_step() -> (r: SelectStep)
    ensures
        uses(r, fallback_interpreter()),
{
    SelectStep::Use { program: String::from_str("python") }
}

/// The first move: test the first candidate, or fall back when there is none.
pub fn first_step(candidates: &Vec<Candidate>) -> (r: SelectStep)
    ensures
        candidates@.len() > 0 ==> checks(r, candidates@, 0),
        candidates@.len() == 0 ==> uses(r, fallback_interpreter()),
{
    if candidates.len() > 0 {
        check_step(candidates, 0)
    } else {
        fallback_step()
    }
}

/// The move after candidate `index` was tested: use it when it is
/// `available`, else test the next one, else fall back.
pub fn next_step(candidates: &Vec<Candidate>, index: usize, available: bool) -> (r: SelectStep)
    requires
        index < candidates@.len(),
    ensures
        available ==> uses(r, candidates@[index as int].path@),
        !available && index + 1 < candidates@.len() ==> checks(r, candidates@, index + 1),
        !available && index + 1 == candidates@.len() ==> uses(r, fallback_interpreter()),
{
    if available {
        SelectStep::Use { program: candidates[index].path.clone() }
    } else if index < candidates.len() - 1 {
        check_step(candidates, index + 1)
    } else {
        fallback_step()
    }
}


/// How to launch the compiler: `program` run in `working_dir`, with the
/// environment variable `env_name` set to `env_value`, and `args`.
pub struct Invocation {
    pub program: String,
    pub working_dir: String,
    pub env_name: String,
    pub env_value: String,
    pub args: Vec<String>,
}

/// The arguments that have the compiler module compile `entry_src`, writing
/// the artifact and the debug map under the project's build directory.
pub open spec fn compile_args(project_dir: Seq<char>, entry_src: Seq<char>) -> Seq<Seq<char>> {
    seq![
        "-m"@,
        "wbc.cli"@,
        "compile"@,
        entry_src,
        "-o"@,
        artifact_path_spec(project_dir),
        "--map"@,
        debug_map_path_spec(project_dir),
    ]
}

/// The launch of the compiler on `entry_src` for the project in
/// `project_dir`, with the interpreter `program`. The module search path
/// points at the project's `tools/wbc`.
pub fn compile_invocation(program: &str, project_dir: &str, entry_src: &str) -> (r: Invocation)
    ensures
        r.program@ == program@,
        r.working_dir@ == project_dir@,
        r.env_name@ == "PYTHONPATH"@,
        r.env_value@ == "tools/wbc"@,
        r.args@.len() == 8,
        forall|i: int| 0 <= i < 8 ==> #[trigger] r.args@[i]@ == compile_args(project_dir@, entry_src@)[i],
{
    let mut args: Vec<String> = Vec::new();
    args.push(String::from_str("-m"));
    args.push(String::from_str("wbc.cli"));
    args.push(String::from_str("compile"));
    args.push(String::from_str(entry_src));
    args.push(String::from_str("-o"));
    args.push(artifact_path(project_dir));
    args.push(String::from_str("--map"));
    args.push(debug_map_path(project_dir));
    Invocation {
        program: String::from_str(program),
        working_dir: String::from_str(project_dir),
        env_name: String::from_str("PYTHONPATH"),
        env_value: String::from_str("tools/wbc"),
        args,
    }
}

} // verus!
