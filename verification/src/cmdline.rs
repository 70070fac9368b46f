//! Construction of the argument vectors and quoted command-line strings
//! for every subprocess invocation the supervisor issues.

use vstd::prelude::*;

verus! {

/// A string as it appears inside a quoted command line: the characters
/// wrapped in double quotes.
pub open spec fn quoted(s: Seq<char>) -> Seq<char> {
    seq!['"'] + s + seq!['"']
}

/// The single command-line string handed to the session-detach process
/// creation call: the quoted program followed by each argument in order,
/// quoted, separated by single spaces.
pub open spec fn command_line(program: Seq<char>, args: Seq<Seq<char>>) -> Seq<char>
    decreases args.len(),
{
    if args.len() == 0 {
        quoted(program)
    } else {
        command_line(program, args.drop_last()) + seq![' '] + quoted(args.last())
    }
}

/// Builds the quoted command line for the session-detach launch strategy.
pub fn build_command_line(program: &str, args: &Vec<String>) -> (r: String)
    ensures
        r@ == command_line(program@, args.deep_view()),
{
    let mut line = String::new();
    line.append("\"");
    line.append(program);
    line.append("\"");
    proof {
        reveal_strlit("\"");
        assert(line@ =~= quoted(program@));
        assert(args.deep_view().take(0) =~= Seq::<Seq<char>>::empty());
    }
    let mut i: usize = 0;
    while i < args.len()
        invariant
            i <= args.len(),
            args.deep_view().len() == args@.len(),
            line@ == command_line(program@, args.deep_view().take(i as int)),
        decreases args.len() - i,
    {
        line.append(" \"");
        line.append(args[i].as_str());
        line.append("\"");
        proof {
            reveal_strlit("\"");
            reveal_strlit(" \"");
            let dv = args.deep_view();
            assert(dv.take(i + 1).drop_last() =~= dv.take(i as int));
            assert(dv.take(i + 1).last() == dv[i as int]);
            assert(line@ =~= command_line(program@, dv.take(i as int)) + seq![' '] + quoted(dv[i as int]));
        }
        i += 1;
    }
    proof {
        assert(args.deep_view().take(args@.len() as int) =~= args.deep_view());
    }
    line
}

/// Name of the intermediate artifact exported for one category.
pub open spec fn artifact_name(category: Seq<char>) -> Seq<char> {
    "geosite-"@ + category + ".json"@
}

/// Builds the deterministic intermediate file name for a category.
pub fn geosite_artifact_name(category: &str) -> (r: String)
    ensures
        r@ == artifact_name(category@),
{
    let mut r = String::new();
    r.append("geosite-");
    r.append(category);
    r.append(".json");
    proof {
        assert(r@ =~= artifact_name(category@));
    }
    r
}

/// A directory and a file name joined by one separator.
pub open spec fn joined_path(dir: Seq<char>, sep: Seq<char>, name: Seq<char>) -> Seq<char> {
    dir + sep + name
}

/// Joins a directory and a file name with the platform's separator.
pub fn join_path(dir: &str, sep: &str, name: &str) -> (r: String)
    ensures
        r@ == joined_path(dir@, sep@, name@),
{
    let mut r = String::new();
    r.append(dir);
    r.append(sep);
    r.append(name);
    proof {
        assert(r@ =~= joined_path(dir@, sep@, name@));
    }
    r
}

/// Arguments of the export invocation for one category: the external
/// program exports the category's rules from the source database into the
/// intermediate artifact under the working directory.
pub open spec fn export_invocation(
    category: Seq<char>,
    db_path: Seq<char>,
    out_path: Seq<char>,
    work_dir: Seq<char>,
) -> Seq<Seq<char>> {
    seq!["geosite"@, "export"@, category, "-f"@, db_path, "-o"@, out_path, "-D"@, work_dir]
}

/// Builds the export invocation's argument vector.
pub fn export_command(category: &str, db_path: &str, work_dir: &str, sep: &str) -> (r: Vec<String>)
    ensures
        r.deep_view() == export_invocation(
            category@,
            db_path@,
            joined_path(work_dir@, sep@, artifact_name(category@)),
            work_dir@,
        ),
{
    let out_name = geosite_artifact_name(category);
    let out_path = join_path(work_dir, sep, out_name.as_str());
    let mut r: Vec<String> = Vec::new();
    r.push(String::from_str("geosite"));
    r.push(String::from_str("export"));
    r.push(String::from_str(category));
    r.push(String::from_str("-f"));
    r.push(String::from_str(db_path));
    r.push(String::from_str("-o"));
    r.push(out_path);
    r.push(String::from_str("-D"));
    r.push(String::from_str(work_dir));
    proof {
        assert(r.deep_view() =~= export_invocation(
            category@,
            db_path@,
            joined_path(work_dir@, sep@, artifact_name(category@)),
            work_dir@,
        ));
    }
    r
}

/// Arguments of the compile invocation for one category: the external
/// program compiles the intermediate artifact, resolved relative to the
/// working directory, into the binary rule-set.
pub open spec fn compile_invocation(category: Seq<char>, work_dir: Seq<char>) -> Seq<Seq<char>> {
    seq!["rule-set"@, "compile"@, artifact_name(category), "-D"@, work_dir]
}

/// Builds the compile invocation's argument vector.
pub fn compile_command(category: &str, work_dir: &str) -> (r: Vec<String>)
    ensures
        r.deep_view() == compile_invocation(category@, work_dir@),
{
    let mut r: Vec<String> = Vec::new();
    r.push(String::from_str("rule-set"));
    r.push(String::from_str("compile"));
    r.push(geosite_artifact_name(category));
    r.push(String::from_str("-D"));
    r.push(String::from_str(work_dir));
    proof {
        assert(r.deep_view() =~= compile_invocation(category@, work_dir@));
    }
    r
}

/// Arguments of the supervised service's own launch: run with the given
/// configuration directory for both the configuration and data options.
pub open spec fn run_invocation(config_dir: Seq<char>) -> Seq<Seq<char>> {
    seq!["run"@, "-C"@, config_dir, "-D"@, config_dir]
}

/// Builds the launch invocation's argument vector.
pub fn run_command(config_dir: &str) -> (r: Vec<String>)
    ensures
        r.deep_view() == run_invocation(config_dir@),
{
    let mut r: Vec<String> = Vec::new();
    r.push(String::from_str("run"));
    r.push(String::from_str("-C"));
    r.push(String::from_str(config_dir));
    r.push(String::from_str("-D"));
    r.push(String::from_str(config_dir));
    proof {
        assert(r.deep_view() =~= run_invocation(config_dir@));
    }
    r
}

/// Arguments passed to the bulk process-termination facility: force
/// termination of every process whose image name matches the pattern.
pub open spec fn terminate_invocation(pattern: Seq<char>) -> Seq<Seq<char>> {
    seq!["/F"@, "/IM"@, pattern]
}

/// Builds the termination facility's argument vector.
pub fn terminate_command(pattern: &str) -> (r: Vec<String>)
    ensures
        r.deep_view() == terminate_invocation(pattern@),
{
    let mut r: Vec<String> = Vec::new();
    r.push(String::from_str("/F"));
    r.push(String::from_str("/IM"));
    r.push(String::from_str(pattern));
    proof {
        assert(r.deep_view() =~= terminate_invocation(pattern@));
    }
    r
}

/// The name-glob matching the supervised program's image name.
pub fn supervised_process_pattern() -> (r: String)
    ensures
        r@ == "sing-box*"@,
{
    String::from_str("sing-box*")
}

/// The bulk process-termination facility's own program name.
pub fn terminate_program_name() -> (r: String)
    ensures
        r@ == "taskkill"@,
{
    String::from_str("taskkill")
}

} // verus!
