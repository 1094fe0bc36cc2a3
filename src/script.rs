use vstd::prelude::*;
use crate::config::{Artifact, CommandEntry, Config, Diagnostic, GenerationError, Packages, ScriptEntry, Section, Transfer};
use crate::container::{opt_runs, opt_scripts, opt_transfers};
use crate::emit::{
    dir_lines, emit_dirs, emit_env, emit_git, emit_pins, emit_runs, emit_script_steps,
    emit_transfers, env_lines, git_diags, git_lines, pins, run_diags, run_lines, script_step_diags,
    script_steps, transfer_diags, transfer_lines,
};
use crate::strmap::lookup;

verus! {

/// The opening of the script: detection of a notebook-hosted run, and outside
/// it, checks that pyenv, wget and git are present and pyenv's setup.
pub open spec fn script_prelude() -> Seq<char> {
    "#!/bin/bash\nif [[ \"${COLAB_GPU}\" == \"1\" ]]; then\n  echo \"Running in Google Colab environment\"\n  IS_COLAB=1\nelse\n  echo \"Not running in Google Colab environment\"\n  IS_COLAB=0\nfi\nif [[ $IS_COLAB -eq 0 ]]; then\n if ! command -v pyenv >/dev/null; then\n   echo \"pyenv not found. Please install pyenv.\"\n   exit 1\n fi\n if ! command -v wget >/dev/null; then\n   echo \"wget not found. Please install wget.\"\n   exit 1\n fi\n if ! command -v git >/dev/null; then\n   echo \"git not found. Please install git.\"\n   exit 1\n fi\n export PYENV_ROOT=\"$HOME/.pyenv\"\n export PATH=\"$PYENV_ROOT/bin:$PATH\"\n if command -v pyenv 1>/dev/null 2>&1; then\n   eval \"$(pyenv init -)\"\n   eval \"$(pyenv virtualenv-init -)\"\n fi\nfi\n"@
}

/// Outside a notebook-hosted run: the interpreter version and a virtual
/// environment, created if missing, then activated.
pub open spec fn pyenv_block() -> Seq<char> {
    " if [[ $IS_COLAB -eq 0 ]]; then\n if ! pyenv versions | grep -q 3.11.3; then\n  pyenv install 3.11.3\nfi\n if ! pyenv virtualenvs | grep -q myenv; then\n  pyenv virtualenv 3.11.3 myenv\nfi\n pyenv activate myenv\nfi\n"@
}

/// The python package installation of the script, if there are python packages.
pub open spec fn script_packages(p: Option<Packages>) -> Seq<char> {
    match p {
        Some(pk) => match pk.python {
            Some(m) => "python -m pip install "@ + pins(m@, "=="@) + "\n"@,
            None => Seq::empty(),
        },
        None => Seq::empty(),
    }
}

/// The fetch commands of an optional list under the project root, or the
/// note that it is absent.
pub open spec fn script_transfers(o: Option<Vec<Transfer>>, mn: Seq<char>, absent: Seq<char>) -> Seq<char> {
    match o {
        Some(v) => transfer_lines(v@, Seq::empty(), Some(mn)),
        None => absent,
    }
}

/// The script for a configuration whose project root is `mn`.
pub open spec fn script_body(c: Config, mn: Seq<char>) -> Seq<char> {
    script_prelude() + "mkdir -p ./"@ + mn + "\n"@ + match c.directories {
        Some(m) => dir_lines(m@, Some(mn)),
        None => "# Found no directories, proceeding without it.\n"@,
    } + env_lines(c.environment@, "export "@, Some(mn)) + pyenv_block()
        + script_packages(c.packages) + git_lines(c.git@, Some(mn))
        + script_transfers(c.dataset, mn, "# Found no datasets, proceeding without them.\n"@)
        + script_transfers(c.file, mn, "# Found no files, proceeding without them.\n"@)
        + match c.run {
        Some(v) => run_lines(v@, Seq::empty(), Some(mn)),
        None => "# Found no run commands, proceeding without them.\n"@,
    } + script_steps(opt_scripts(c.script), Seq::empty(), Some(mn))
}

/// The notes on a configuration rendered as a script: git, datasets, files,
/// run commands, script entries.
pub open spec fn script_diags(c: Config) -> Seq<Diagnostic> {
    git_diags(c.git@) + transfer_diags(opt_transfers(c.dataset), Section::Dataset)
        + transfer_diags(opt_transfers(c.file), Section::File) + run_diags(opt_runs(c.run))
        + script_step_diags(opt_scripts(c.script))
}

/// What rendering the script gives: the script and its notes when the
/// environment names the project root, an error otherwise.
pub open spec fn script_outcome(c: Config, r: Result<Artifact, GenerationError>) -> bool {
    match r {
        Ok(a) => lookup(c.environment@, "model_name"@) matches Some(mn)
            && a.text@ == script_body(c, mn) && a.diagnostics@ == script_diags(c),
        Err(e) => lookup(c.environment@, "model_name"@) is None && e == GenerationError::MissingModelName,
    }
}

fn emit_script_transfers(
    out: &mut String,
    diags: &mut Vec<Diagnostic>,
    o: &Option<Vec<Transfer>>,
    root: &Option<String>,
    absent: &str,
    sec: Section,
)
    requires
        root is Some,
    ensures
        final(out)@ == old(out)@ + script_transfers(*o, root.unwrap()@, absent@),
        final(diags)@ == old(diags)@ + transfer_diags(opt_transfers(*o), sec),
{
    match o {
        Some(v) => {
            proof {
                reveal_strlit("");
                assert(""@ =~= Seq::<char>::empty());
            }
            emit_transfers(out, diags, v, "", root, sec);
        },
        None => {
            out.append(absent);
            assert(diags@ =~= diags@ + Seq::<Diagnostic>::empty());
        },
    }
}

fn emit_script_runs(out: &mut String, diags: &mut Vec<Diagnostic>, o: &Option<Vec<CommandEntry>>, root: &Option<String>)
    requires
        root is Some,
    ensures
        final(out)@ == old(out)@ + match *o {
            Some(v) => run_lines(v@, Seq::empty(), Some(root.unwrap()@)),
            None => "# Found no run commands, proceeding without them.\n"@,
        },
        final(diags)@ == old(diags)@ + run_diags(opt_runs(*o)),
{
    match o {
        Some(v) => {
            proof {
                reveal_strlit("");
                assert(""@ =~= Seq::<char>::empty());
            }
            emit_runs(out, diags, v, "", root);
        },
        None => {
            out.append("# Found no run commands, proceeding without them.\n");
            assert(diags@ =~= diags@ + Seq::<Diagnostic>::empty());
        },
    }
}

/// Generates the provisioning script. Its project root is the `model_name`
/// entry of the environment, which must be present.
#[verifier::rlimit(50)]
pub fn render_script(c: &Config) -> (r: Result<Artifact, GenerationError>)
    ensures
        script_outcome(*c, r),
{
    let mn = match c.environment.get("model_name") {
        Some(m) => m.clone(),
        None => {
            return Err(GenerationError::MissingModelName);
        },
    };
    let root = Some(mn.clone());
    let mut out = String::new();
    let mut diags: Vec<Diagnostic> = Vec::new();
    out.append("#!/bin/bash\nif [[ \"${COLAB_GPU}\" == \"1\" ]]; then\n  echo \"Running in Google Colab environment\"\n  IS_COLAB=1\nelse\n  echo \"Not running in Google Colab environment\"\n  IS_COLAB=0\nfi\nif [[ $IS_COLAB -eq 0 ]]; then\n if ! command -v pyenv >/dev/null; then\n   echo \"pyenv not found. Please install pyenv.\"\n   exit 1\n fi\n if ! command -v wget >/dev/null; then\n   echo \"wget not found. Please install wget.\"\n   exit 1\n fi\n if ! command -v git >/dev/null; then\n   echo \"git not found. Please install git.\"\n   exit 1\n fi\n export PYENV_ROOT=\"$HOME/.pyenv\"\n export PATH=\"$PYENV_ROOT/bin:$PATH\"\n if command -v pyenv 1>/dev/null 2>&1; then\n   eval \"$(pyenv init -)\"\n   eval \"$(pyenv virtualenv-init -)\"\n fi\nfi\n");
    out.append("mkdir -p ./");
    out.append(mn.as_str());
    out.append("\n");
    match &c.directories {
        Some(m) => emit_dirs(&mut out, m, &root),
        None => out.append("# Found no directories, proceeding without it.\n"),
    }
    emit_env(&mut out, &c.environment, "export ", &root);
    out.append(" if [[ $IS_COLAB -eq 0 ]]; then\n if ! pyenv versions | grep -q 3.11.3; then\n  pyenv install 3.11.3\nfi\n if ! pyenv virtualenvs | grep -q myenv; then\n  pyenv virtualenv 3.11.3 myenv\nfi\n pyenv activate myenv\nfi\n");
    let ghost p1 = out@;
    if let Some(pk) = &c.packages {
        if let Some(m) = &pk.python {
            out.append("python -m pip install ");
            emit_pins(&mut out, m, "==");
            out.append("\n");
        }
    }
    assert(out@ =~= p1 + script_packages(c.packages));
    emit_git(&mut out, &mut diags, &c.git, &root);
    emit_script_transfers(&mut out, &mut diags, &c.dataset, &root, "# Found no datasets, proceeding without them.\n", Section::Dataset);
    emit_script_transfers(&mut out, &mut diags, &c.file, &root, "# Found no files, proceeding without them.\n", Section::File);
    emit_script_runs(&mut out, &mut diags, &c.run, &root);
    match &c.script {
        Some(v) => {
            proof {
                reveal_strlit("");
                assert(""@ =~= Seq::<char>::empty());
            }
            emit_script_steps(&mut out, &mut diags, v, "", &root);
        },
        None => {
            assert(out@ =~= out@ + Seq::<char>::empty());
            assert(diags@ =~= diags@ + Seq::<Diagnostic>::empty());
        },
    }
    assert(out@ =~= script_body(*c, mn@));
    assert(diags@ =~= script_diags(*c));
    Ok(Artifact { text: out, diagnostics: diags })
}

} // verus!
