use vstd::prelude::*;
use crate::config::{Artifact, CommandEntry, Config, Diagnostic, GenerationError, Packages, ScriptEntry, Section, Transfer};
use crate::emit::{
    cmd_directive, command_ok, dir_lines, dir_words, emit_cmd, emit_dir_words, emit_dirs, emit_env, emit_git, emit_pins, emit_ports, emit_runs, emit_script_steps, emit_transfers, env_lines, git_diags, git_lines, pins, port_diags, port_lines, run_diags, run_lines, script_entry_ok, script_step_diags, script_steps, transfer_diags, transfer_lines,
};

verus! {

/// Whether the build-file parser accepts `text`.
pub uninterp spec fn dockerfile_accepts(text: Seq<char>) -> bool;

/// The display text of the parser's error on a build file it rejects.
pub uninterp spec fn dockerfile_diagnostic(text: Seq<char>) -> Seq<char>;

/// Relies on dockerfile_parser::Dockerfile::parse, which parses a whole
/// build file from a string and fails on text outside its grammar; the error
/// is kept as its display text. Both depend on the text alone.
#[verifier::external_body]
fn check_dockerfile(text: &str) -> (r: Result<(), String>)
    ensures
        r is Ok <==> dockerfile_accepts(text@),
        r matches Err(m) ==> m@ == dockerfile_diagnostic(text@),
{
    match dockerfile_parser::Dockerfile::parse(text) {
        Ok(_) => Ok(()),
        Err(e) => Err(e.to_string()),
    }
}

/// The two comment lines that open a build file generated at `ts`.
pub open spec fn banner(ts: Seq<char>) -> Seq<char> {
    "# This file was automatically @generated by flatpack.ai on "@ + ts
        + ".\n# It is not intended for manual editing.\n\n"@
}

/// The comment that closes an accepted build file.
pub open spec fn footer() -> Seq<char> {
    "\n# Build complete! 🎉\n"@
}

/// The entries of an optional list, none when it is absent.
pub open spec fn opt_transfers(o: Option<Vec<Transfer>>) -> Seq<Transfer> {
    match o {
        Some(v) => v@,
        None => Seq::empty(),
    }
}

/// The entries of an optional run list, none when it is absent.
pub open spec fn opt_runs(o: Option<Vec<CommandEntry>>) -> Seq<CommandEntry> {
    match o {
        Some(v) => v@,
        None => Seq::empty(),
    }
}

/// The notes on a configuration, in section order: ports, git, datasets,
/// files, run commands.
pub open spec fn build_diags(c: Config) -> Seq<Diagnostic> {
    port_diags(c.ports@) + git_diags(c.git@) + transfer_diags(opt_transfers(c.dataset), Section::Dataset)
        + transfer_diags(opt_transfers(c.file), Section::File) + run_diags(opt_runs(c.run))
}

/// The entries of an optional script list, none when it is absent.
pub open spec fn opt_scripts(o: Option<Vec<ScriptEntry>>) -> Seq<ScriptEntry> {
    match o {
        Some(v) => v@,
        None => Seq::empty(),
    }
}

/// Whether the configuration names its entry point through script entries.
pub open spec fn script_entry_point(c: Config) -> bool {
    opt_scripts(c.script).len() > 0
}

/// Whether exactly one entry point is named: with script entries, the last of
/// them, and then the `cmd` section must be empty; otherwise exactly one
/// `cmd` entry.
pub open spec fn cmd_count_ok(c: Config) -> bool {
    if script_entry_point(c) {
        c.cmd@.len() == 0
    } else {
        c.cmd@.len() == 1
    }
}

/// Whether the entry taken as entry point has both of its keys.
pub open spec fn cmd_entry_ok(c: Config) -> bool {
    cmd_count_ok(c) && if script_entry_point(c) {
        script_entry_ok(opt_scripts(c.script).last())
    } else {
        command_ok(c.cmd@[0])
    }
}

/// The exec-form entry point: the last script entry's command against its
/// file, or the `cmd` entry's command with its arguments.
pub open spec fn entry_point(c: Config) -> Seq<char> {
    if script_entry_point(c) {
        let e = opt_scripts(c.script).last();
        cmd_directive(e.command.unwrap()@, e.file.unwrap()@)
    } else {
        cmd_directive(c.cmd@[0].command.unwrap()@, c.cmd@[0].args.unwrap()@)
    }
}

/// The notes on a full build file: those of every flavor, then those on
/// script entries.
pub open spec fn full_diags(c: Config) -> Seq<Diagnostic> {
    build_diags(c) + script_step_diags(opt_scripts(c.script))
}

/// The script steps of the full flavor, when there are script entries.
pub open spec fn full_script_steps(c: Config) -> Seq<char> {
    match c.script {
        Some(v) => "\n# Script commands\n"@ + script_steps(v@, "RUN "@, None),
        None => Seq::empty(),
    }
}


/// The package section of the full flavor.
pub open spec fn full_packages(p: Option<Packages>) -> Seq<char> {
    "\n# Install packages\n"@ + "RUN apt-get update && apt-get upgrade -y"@ + match p {
        Some(pk) => (match pk.unix {
            Some(m) => " && apt-get install -y "@ + pins(m@, "="@),
            None => Seq::empty(),
        }) + " && apt-get autoremove -y && apt-get clean && rm -rf /var/lib/apt/lists/*"@ + (match pk.python {
            Some(m) => " && pip install "@ + pins(m@, "=="@),
            None => Seq::empty(),
        }),
        None => "\n# Found no packages, proceeding without them."@,
    } + "\n"@
}

/// The directory section of the full flavor.
pub open spec fn full_dirs(c: Config) -> Seq<char> {
    "\n# Create directories\n"@ + match c.directories {
        Some(m) => dir_lines(m@, None),
        None => "# Found no directories, proceeding without it.\n"@,
    }
}

/// The fetch directives of an optional list, or the note that it is absent.
pub open spec fn full_transfers(o: Option<Vec<Transfer>>, absent: Seq<char>) -> Seq<char> {
    match o {
        Some(v) => transfer_lines(v@, "RUN "@, None),
        None => absent,
    }
}

/// The run section of the full flavor.
pub open spec fn full_runs(o: Option<Vec<CommandEntry>>) -> Seq<char> {
    "\n# RUN commands\n"@ + match o {
        Some(v) => run_lines(v@, "RUN "@, None),
        None => "# Found no run commands, proceeding without them.\n"@,
    }
}

/// The full build file before its check, for a configuration with one
/// well-formed entry point.
pub open spec fn full_body(c: Config, ts: Seq<char>) -> Seq<char> {
    banner(ts) + full_rest(c)
}

/// The sections of the full build file from the base image to the run
/// commands.
pub open spec fn full_sections(c: Config) -> Seq<char> {
    "FROM "@ + c.base_image@ + "\n"@ + full_dirs(c)
        + env_lines(c.environment@, "ENV "@, None) + full_packages(c.packages)
        + "\n# Expose ports\n"@ + port_lines(c.ports@)
        + "\n# Clone git repositories\n"@ + git_lines(c.git@, None)
        + "\n# Download datasets and files\n"@
        + full_transfers(c.dataset, "# Found no datasets, proceeding without them.\n"@)
        + full_transfers(c.file, "# Found no files, proceeding without them.\n"@)
        + full_runs(c.run)
}

/// The full build file after its banner.
pub open spec fn full_rest(c: Config) -> Seq<char> {
    full_sections(c) + full_script_steps(c) + "\n# CMD command\n"@ + entry_point(c)
}

/// What rendering the full flavor at `ts` gives: the checked body with its
/// footer and notes when the entry point is well formed and the parser accepts
/// the body; otherwise the first error among the entry-point count, the
/// entry-point keys and the check, whose error carries the parser's diagnostic.
pub open spec fn full_outcome(c: Config, ts: Seq<char>, r: Result<Artifact, GenerationError>) -> bool {
    match r {
        Ok(a) => cmd_entry_ok(c) && dockerfile_accepts(full_body(c, ts))
            && a.text@ == full_body(c, ts) + footer() && a.diagnostics@ == full_diags(c),
        Err(e) => {
            ||| !cmd_count_ok(c) && e == GenerationError::Cardinality
            ||| cmd_count_ok(c) && !cmd_entry_ok(c) && e == GenerationError::MalformedEntryPoint
            ||| cmd_entry_ok(c) && !dockerfile_accepts(full_body(c, ts)) && e is Validation
                && e->Validation_0@ == dockerfile_diagnostic(full_body(c, ts))
        },
    }
}

fn emit_full_packages(out: &mut String, p: &Option<Packages>)
    ensures
        final(out)@ == old(out)@ + full_packages(*p),
{
    let ghost start = out@;
    out.append("\n# Install packages\n");
    out.append("RUN apt-get update && apt-get upgrade -y");
    match p {
        Some(pk) => {
            if let Some(m) = &pk.unix {
                out.append(" && apt-get install -y ");
                emit_pins(out, m, "=");
            }
            out.append(" && apt-get autoremove -y && apt-get clean && rm -rf /var/lib/apt/lists/*");
            if let Some(m) = &pk.python {
                out.append(" && pip install ");
                emit_pins(out, m, "==");
            }
        },
        None => {
            out.append("\n# Found no packages, proceeding without them.");
        },
    }
    out.append("\n");
    assert(out@ =~= start + full_packages(*p));
}

fn emit_opt_transfers(
    out: &mut String,
    diags: &mut Vec<Diagnostic>,
    o: &Option<Vec<Transfer>>,
    absent: &str,
    sec: Section,
)
    ensures
        final(out)@ == old(out)@ + full_transfers(*o, absent@),
        final(diags)@ == old(diags)@ + transfer_diags(opt_transfers(*o), sec),
{
    match o {
        Some(v) => emit_transfers(out, diags, v, "RUN ", &None, sec),
        None => {
            out.append(absent);
            assert(diags@ =~= diags@ + Seq::<Diagnostic>::empty());
        },
    }
}

#[verifier::rlimit(50)]
fn emit_full_sections(out: &mut String, diags: &mut Vec<Diagnostic>, c: &Config)
    ensures
        final(out)@ == old(out)@ + full_sections(*c),
        final(diags)@ == old(diags)@ + build_diags(*c),
{
    let ghost start = out@;
    let ghost dstart = diags@;
    out.append("FROM ");
    out.append(c.base_image.as_str());
    out.append("\n");
    out.append("\n# Create directories\n");
    match &c.directories {
        Some(m) => emit_dirs(out, m, &None),
        None => out.append("# Found no directories, proceeding without it.\n"),
    }
    let ghost a1 = "FROM "@ + c.base_image@ + "\n"@ + full_dirs(*c);
    assert(out@ =~= start + a1);
    emit_env(out, &c.environment, "ENV ", &None);
    let ghost a2 = a1 + env_lines(c.environment@, "ENV "@, None);
    assert(out@ =~= start + a2);
    emit_full_packages(out, &c.packages);
    let ghost a3 = a2 + full_packages(c.packages);
    assert(out@ =~= start + a3);
    out.append("\n# Expose ports\n");
    emit_ports(out, diags, &c.ports);
    let ghost a4 = a3 + "\n# Expose ports\n"@ + port_lines(c.ports@);
    assert(out@ =~= start + a4);
    out.append("\n# Clone git repositories\n");
    emit_git(out, diags, &c.git, &None);
    let ghost a5 = a4 + "\n# Clone git repositories\n"@ + git_lines(c.git@, None);
    assert(out@ =~= start + a5);
    out.append("\n# Download datasets and files\n");
    emit_opt_transfers(out, diags, &c.dataset, "# Found no datasets, proceeding without them.\n", Section::Dataset);
    let ghost a6 = a5 + "\n# Download datasets and files\n"@
        + full_transfers(c.dataset, "# Found no datasets, proceeding without them.\n"@);
    assert(out@ =~= start + a6);
    emit_opt_transfers(out, diags, &c.file, "# Found no files, proceeding without them.\n", Section::File);
    let ghost a7 = a6 + full_transfers(c.file, "# Found no files, proceeding without them.\n"@);
    assert(out@ =~= start + a7);
    out.append("\n# RUN commands\n");
    match &c.run {
        Some(v) => emit_runs(out, diags, v, "RUN ", &None),
        None => out.append("# Found no run commands, proceeding without them.\n"),
    }
    let ghost a8 = a7 + full_runs(c.run);
    assert(out@ =~= start + a8);
    assert(a8 == full_sections(*c));
    assert(diags@ =~= dstart + build_diags(*c));
}

fn emit_full_rest(out: &mut String, diags: &mut Vec<Diagnostic>, c: &Config, command: &String, args: &String)
    requires
        cmd_entry_ok(*c),
        entry_point(*c) == cmd_directive(command@, args@),
    ensures
        final(out)@ == old(out)@ + full_rest(*c),
        final(diags)@ == old(diags)@ + full_diags(*c),
{
    let ghost start = out@;
    let ghost dstart = diags@;
    emit_full_sections(out, diags, c);
    let ghost a1 = full_sections(*c);
    match &c.script {
        Some(v) => {
            out.append("\n# Script commands\n");
            emit_script_steps(out, diags, v, "RUN ", &None);
        },
        None => {
            assert(out@ =~= out@ + Seq::<char>::empty());
            assert(diags@ =~= diags@ + Seq::<Diagnostic>::empty());
        },
    }
    let ghost a2 = a1 + full_script_steps(*c);
    assert(out@ =~= start + a2);
    out.append("\n# CMD command\n");
    emit_cmd(out, command.as_str(), args.as_str());
    assert(out@ =~= start + full_rest(*c));
    assert(diags@ =~= dstart + full_diags(*c));
}

/// Generates the full build file at time `ts`: commented sections, package
/// installation chained with cache cleanup, and an exec-form entry point
/// (the last script entry when there are script entries, which leaves no room
/// for a `cmd` entry; else the single `cmd` entry),
/// checked by the build-file parser and closed by a footer.
pub fn render_full(c: &Config, ts: &str) -> (r: Result<Artifact, GenerationError>)
    ensures
        full_outcome(*c, ts@, r),
{
    let scripts_len: usize = match &c.script {
        Some(v) => v.len(),
        None => 0,
    };
    let (command, args) = if scripts_len > 0 {
        if c.cmd.len() != 0 {
            return Err(GenerationError::Cardinality);
        }
        let v = c.script.as_ref().unwrap();
        match (&v[scripts_len - 1].command, &v[scripts_len - 1].file) {
            (Some(command), Some(file)) => (command, file),
            _ => {
                return Err(GenerationError::MalformedEntryPoint);
            },
        }
    } else {
        if c.cmd.len() != 1 {
            return Err(GenerationError::Cardinality);
        }
        match (&c.cmd[0].command, &c.cmd[0].args) {
            (Some(command), Some(args)) => (command, args),
            _ => {
                return Err(GenerationError::MalformedEntryPoint);
            },
        }
    };
    let mut out = String::new();
    let mut diags: Vec<Diagnostic> = Vec::new();
    out.append("# This file was automatically @generated by flatpack.ai on ");
    out.append(ts);
    out.append(".\n# It is not intended for manual editing.\n\n");
    emit_full_rest(&mut out, &mut diags, c, command, args);
    assert(out@ =~= full_body(*c, ts@));
    match check_dockerfile(out.as_str()) {
        Ok(()) => {
            out.append("\n# Build complete! 🎉\n");
            Ok(Artifact { text: out, diagnostics: diags })
        },
        Err(msg) => Err(GenerationError::Validation(msg)),
    }
}


/// The package directives of the minimal flavor: one for unix packages, one
/// for python packages.
pub open spec fn minimal_packages(p: Option<Packages>) -> Seq<char> {
    match p {
        Some(pk) => (match pk.unix {
            Some(m) => "RUN apt-get update && apt-get install -y "@ + pins(m@, "="@) + "\n"@,
            None => Seq::empty(),
        }) + (match pk.python {
            Some(m) => "RUN pip install "@ + pins(m@, "=="@) + "\n"@,
            None => Seq::empty(),
        }),
        None => Seq::empty(),
    }
}

/// The single directory-creation directive of the minimal flavor.
pub open spec fn minimal_dirs(c: Config) -> Seq<char> {
    "RUN mkdir -p"@ + match c.directories {
        Some(m) => dir_words(m@),
        None => Seq::empty(),
    } + "\n"@
}

/// The minimal build file before its check.
pub open spec fn minimal_body(c: Config, ts: Seq<char>) -> Seq<char> {
    banner(ts) + minimal_rest(c)
}

/// The minimal build file after its banner.
pub open spec fn minimal_rest(c: Config) -> Seq<char> {
    "FROM "@ + c.base_image@ + "\n"@
        + env_lines(c.environment@, "ENV "@, None) + minimal_dirs(c)
        + minimal_packages(c.packages) + port_lines(c.ports@) + git_lines(c.git@, None)
        + transfer_lines(opt_transfers(c.dataset), "RUN "@, None)
        + transfer_lines(opt_transfers(c.file), "RUN "@, None)
        + run_lines(opt_runs(c.run), "RUN "@, None)
}

/// What rendering the minimal flavor at `ts` gives: the body with its footer
/// and notes when the parser accepts the body, otherwise a validation error
/// carrying the parser's diagnostic.
pub open spec fn minimal_outcome(c: Config, ts: Seq<char>, r: Result<Artifact, GenerationError>) -> bool {
    match r {
        Ok(a) => dockerfile_accepts(minimal_body(c, ts))
            && a.text@ == minimal_body(c, ts) + footer() && a.diagnostics@ == build_diags(c),
        Err(e) => !dockerfile_accepts(minimal_body(c, ts)) && e is Validation
            && e->Validation_0@ == dockerfile_diagnostic(minimal_body(c, ts)),
    }
}

fn emit_minimal_packages(out: &mut String, p: &Option<Packages>)
    ensures
        final(out)@ == old(out)@ + minimal_packages(*p),
{
    let ghost start = out@;
    if let Some(pk) = p {
        if let Some(m) = &pk.unix {
            out.append("RUN apt-get update && apt-get install -y ");
            emit_pins(out, m, "=");
            out.append("\n");
        }
            if let Some(m) = &pk.python {
            out.append("RUN pip install ");
            emit_pins(out, m, "==");
            out.append("\n");
        }
    }
    assert(out@ =~= start + minimal_packages(*p));
}

fn emit_list_transfers(out: &mut String, diags: &mut Vec<Diagnostic>, o: &Option<Vec<Transfer>>, sec: Section)
    ensures
        final(out)@ == old(out)@ + transfer_lines(opt_transfers(*o), "RUN "@, None),
        final(diags)@ == old(diags)@ + transfer_diags(opt_transfers(*o), sec),
{
    match o {
        Some(v) => emit_transfers(out, diags, v, "RUN ", &None, sec),
        None => {
            assert(out@ =~= out@ + Seq::<char>::empty());
            assert(diags@ =~= diags@ + Seq::<Diagnostic>::empty());
        },
    }
}

#[verifier::rlimit(50)]
fn emit_minimal_rest(out: &mut String, diags: &mut Vec<Diagnostic>, c: &Config)
    ensures
        final(out)@ == old(out)@ + minimal_rest(*c),
        final(diags)@ == old(diags)@ + build_diags(*c),
{
    let ghost start = out@;
    let ghost dstart = diags@;
    out.append("FROM ");
    out.append(c.base_image.as_str());
    out.append("\n");
    emit_env(out, &c.environment, "ENV ", &None);
    let ghost a1 = "FROM "@ + c.base_image@ + "\n"@ + env_lines(c.environment@, "ENV "@, None);
    assert(out@ =~= start + a1);
    out.append("RUN mkdir -p");
    if let Some(m) = &c.directories {
        emit_dir_words(out, m);
    }
    out.append("\n");
    let ghost a2 = a1 + minimal_dirs(*c);
    assert(out@ =~= start + a2);
    emit_minimal_packages(out, &c.packages);
    let ghost a3 = a2 + minimal_packages(c.packages);
    assert(out@ =~= start + a3);
    emit_ports(out, diags, &c.ports);
    let ghost a4 = a3 + port_lines(c.ports@);
    assert(out@ =~= start + a4);
    emit_git(out, diags, &c.git, &None);
    let ghost a5 = a4 + git_lines(c.git@, None);
    assert(out@ =~= start + a5);
    emit_list_transfers(out, diags, &c.dataset, Section::Dataset);
    let ghost a6 = a5 + transfer_lines(opt_transfers(c.dataset), "RUN "@, None);
    assert(out@ =~= start + a6);
    emit_list_transfers(out, diags, &c.file, Section::File);
    let ghost a7 = a6 + transfer_lines(opt_transfers(c.file), "RUN "@, None);
    assert(out@ =~= start + a7);
    emit_list_runs(out, diags, &c.run);
    let ghost a8 = a7 + run_lines(opt_runs(c.run), "RUN "@, None);
    assert(out@ =~= start + a8);
    assert(a8 == minimal_rest(*c));
    assert(diags@ =~= dstart + build_diags(*c));
}

fn emit_list_runs(out: &mut String, diags: &mut Vec<Diagnostic>, o: &Option<Vec<CommandEntry>>)
    ensures
        final(out)@ == old(out)@ + run_lines(opt_runs(*o), "RUN "@, None),
        final(diags)@ == old(diags)@ + run_diags(opt_runs(*o)),
{
    match o {
        Some(v) => emit_runs(out, diags, v, "RUN ", &None),
        None => {
            assert(out@ =~= out@ + Seq::<char>::empty());
            assert(diags@ =~= diags@ + Seq::<Diagnostic>::empty());
        },
    }
}

/// Generates the minimal build file at time `ts`: one directive per section,
/// all directories in one creation directive, no entry point; checked by the
/// build-file parser and closed by a footer.
pub fn render_minimal(c: &Config, ts: &str) -> (r: Result<Artifact, GenerationError>)
    ensures
        minimal_outcome(*c, ts@, r),
{
    let mut out = String::new();
    let mut diags: Vec<Diagnostic> = Vec::new();
    out.append("# This file was automatically @generated by flatpack.ai on ");
    out.append(ts);
    out.append(".\n# It is not intended for manual editing.\n\n");
    emit_minimal_rest(&mut out, &mut diags, c);
    assert(out@ =~= minimal_body(*c, ts@));
    assert(diags@ =~= build_diags(*c));
    match check_dockerfile(out.as_str()) {
        Ok(()) => {
            out.append("\n# Build complete! 🎉\n");
            Ok(Artifact { text: out, diagnostics: diags })
        },
        Err(msg) => Err(GenerationError::Validation(msg)),
    }
}

} // verus!
