use vstd::prelude::*;
use crate::config::{CommandEntry, Diagnostic, GitEntry, PortEntry, ScriptEntry, Section, Transfer};
use crate::strmap::{str_eq, StrMap};
use crate::text::{
    decimal, decimal_string, replace_all, replace_str, split_tokens, strip_leading,
    strip_leading_str, tokens, views,
};

verus! {

/// The view of an optional string.
pub open spec fn opt_view(o: Option<String>) -> Option<Seq<char>> {
    match o {
        Some(s) => Some(s@),
        None => None,
    }
}

/// The absolute content prefix that the script variant rewrites.
pub open spec fn content_prefix() -> Seq<char> {
    "/home/content/"@
}

/// A destination path: unchanged without a project root; under the project
/// root, with the content prefix taken out, otherwise.
pub open spec fn rewrite_path(path: Seq<char>, root: Option<Seq<char>>) -> Seq<char> {
    match root {
        None => path,
        Some(mn) => "./"@ + mn + "/"@ + replace_all(path, content_prefix(), Seq::empty()),
    }
}

/// A value or argument text: unchanged without a project root; with the
/// content prefix made relative to the project root otherwise.
pub open spec fn rewrite_text(t: Seq<char>, root: Option<Seq<char>>) -> Seq<char> {
    match root {
        None => t,
        Some(mn) => replace_all(t, content_prefix(), "./"@ + mn + "/"@),
    }
}

fn content_prefix_str() -> (r: &'static str)
    ensures
        r@ == content_prefix(),
        r@.len() > 0,
{
    proof {
        reveal_strlit("/home/content/");
    }
    "/home/content/"
}

/// Computes `rewrite_path`.
pub fn rewrite_path_str(path: &str, root: &Option<String>) -> (r: String)
    ensures
        r@ == rewrite_path(path@, opt_view(*root)),
{
    match root {
        None => String::from_str(path),
        Some(mn) => {
            let stripped = replace_str(path, content_prefix_str(), "");
            proof {
                reveal_strlit("");
                assert(""@ =~= Seq::<char>::empty());
            }
            let mut r = String::from_str("./");
            r.append(mn.as_str());
            r.append("/");
            r.append(stripped.as_str());
            r
        },
    }
}

/// Computes `rewrite_text`.
pub fn rewrite_text_str(t: &str, root: &Option<String>) -> (r: String)
    ensures
        r@ == rewrite_text(t@, opt_view(*root)),
{
    match root {
        None => String::from_str(t),
        Some(mn) => {
            let mut rep = String::from_str("./");
            rep.append(mn.as_str());
            rep.append("/");
            replace_str(t, content_prefix_str(), rep.as_str())
        },
    }
}

/// One environment declaration.
pub open spec fn env_line(k: Seq<char>, v: Seq<char>, lead: Seq<char>, root: Option<Seq<char>>) -> Seq<char> {
    lead + k + "="@ + rewrite_text(v, root) + "\n"@
}

/// The environment declarations of the entries, in their order.
pub open spec fn env_lines(e: Seq<(Seq<char>, Seq<char>)>, lead: Seq<char>, root: Option<Seq<char>>) -> Seq<char>
    decreases e.len(),
{
    if e.len() == 0 {
        Seq::empty()
    } else {
        env_lines(e.drop_last(), lead, root) + env_line(e.last().0, e.last().1, lead, root)
    }
}

/// Appends the environment declarations of `m`.
pub fn emit_env(out: &mut String, m: &StrMap, lead: &str, root: &Option<String>)
    ensures
        final(out)@ == old(out)@ + env_lines(m@, lead@, opt_view(*root)),
{
    let ghost start = out@;
    let n = m.len();
    let mut i: usize = 0;
    assert(env_lines(m@.take(0), lead@, opt_view(*root)) =~= Seq::<char>::empty());
    while i < n
        invariant
            n == m@.len(),
            i <= n,
            out@ =~= start + env_lines(m@.take(i as int), lead@, opt_view(*root)),
        decreases n - i,
    {
        let ghost pre = out@;
        let v = rewrite_text_str(m.value_at(i).as_str(), root);
        out.append(lead);
        out.append(m.key_at(i).as_str());
        out.append("=");
        out.append(v.as_str());
        out.append("\n");
        assert(m@.take(i + 1).drop_last() =~= m@.take(i as int));
        assert(out@ =~= pre + env_line(m@[i as int].0, m@[i as int].1, lead@, opt_view(*root)));
        i = i + 1;
    }
    assert(m@.take(n as int) =~= m@);
}

/// A package with its version pin; `*` or an empty constraint pins nothing.
pub open spec fn pin(name: Seq<char>, version: Seq<char>, sep: Seq<char>) -> Seq<char> {
    if version == "*"@ || version.len() == 0 {
        name
    } else {
        name + sep + version
    }
}

/// The packages with their pins, separated by spaces.
pub open spec fn pins(e: Seq<(Seq<char>, Seq<char>)>, sep: Seq<char>) -> Seq<char>
    decreases e.len(),
{
    if e.len() == 0 {
        Seq::empty()
    } else if e.len() == 1 {
        pin(e[0].0, e[0].1, sep)
    } else {
        pins(e.drop_last(), sep) + " "@ + pin(e.last().0, e.last().1, sep)
    }
}

/// Appends the packages of `m` with their pins.
pub fn emit_pins(out: &mut String, m: &StrMap, sep: &str)
    ensures
        final(out)@ == old(out)@ + pins(m@, sep@),
{
    let ghost start = out@;
    let n = m.len();
    let mut i: usize = 0;
    assert(pins(m@.take(0), sep@) =~= Seq::<char>::empty());
    while i < n
        invariant
            n == m@.len(),
            i <= n,
            out@ =~= start + pins(m@.take(i as int), sep@),
        decreases n - i,
    {
        let ghost pre = out@;
        if i > 0 {
            out.append(" ");
        }
        let name = m.key_at(i);
        let version = m.value_at(i);
        out.append(name.as_str());
        if !(str_eq(version.as_str(), "*") || version.as_str().unicode_len() == 0) {
            out.append(sep);
            out.append(version.as_str());
        }
        assert(m@.take(i + 1).drop_last() =~= m@.take(i as int));
        if i == 0 {
            assert(out@ =~= pre + pin(m@[0].0, m@[0].1, sep@));
        } else {
            assert(out@ =~= pre + " "@ + pin(m@[i as int].0, m@[i as int].1, sep@));
        }
        i = i + 1;
    }
    assert(m@.take(n as int) =~= m@);
}

/// Tokens separated by single spaces.
pub open spec fn join_space(t: Seq<Seq<char>>) -> Seq<char>
    decreases t.len(),
{
    if t.len() == 0 {
        Seq::empty()
    } else if t.len() == 1 {
        t[0]
    } else {
        join_space(t.drop_last()) + " "@ + t.last()
    }
}

/// Appends `t` joined by single spaces.
pub fn emit_joined(out: &mut String, t: &Vec<String>)
    ensures
        final(out)@ == old(out)@ + join_space(views(t@)),
{
    let ghost start = out@;
    let n = t.len();
    let mut i: usize = 0;
    assert(join_space(views(t@).take(0)) =~= Seq::<char>::empty());
    while i < n
        invariant
            n == t@.len(),
            i <= n,
            out@ =~= start + join_space(views(t@).take(i as int)),
        decreases n - i,
    {
        let ghost pre = out@;
        if i > 0 {
            out.append(" ");
        }
        out.append(t[i].as_str());
        assert(views(t@).take(i + 1).drop_last() =~= views(t@).take(i as int));
        i = i + 1;
    }
    assert(views(t@).take(n as int) =~= views(t@));
}

/// One directory-creation directive: the value's tokens, or without a
/// project root, the value under the project root with leading slashes and
/// content prefixes taken off.
pub open spec fn dir_line(v: Seq<char>, root: Option<Seq<char>>) -> Seq<char> {
    match root {
        None => "RUN mkdir -p "@ + join_space(tokens(v)) + "\n"@,
        Some(mn) => "mkdir -p ./"@ + mn + "/"@ + strip_leading(strip_leading(v, "/"@), "home/content/"@) + "\n"@,
    }
}

/// One directive for each directory, in key order.
pub open spec fn dir_lines(e: Seq<(Seq<char>, Seq<char>)>, root: Option<Seq<char>>) -> Seq<char>
    decreases e.len(),
{
    if e.len() == 0 {
        Seq::empty()
    } else {
        dir_lines(e.drop_last(), root) + dir_line(e.last().1, root)
    }
}

/// Appends a creation directive for each directory of `m`.
pub fn emit_dirs(out: &mut String, m: &StrMap, root: &Option<String>)
    ensures
        final(out)@ == old(out)@ + dir_lines(m@, opt_view(*root)),
{
    let ghost start = out@;
    let n = m.len();
    let mut i: usize = 0;
    assert(dir_lines(m@.take(0), opt_view(*root)) =~= Seq::<char>::empty());
    while i < n
        invariant
            n == m@.len(),
            i <= n,
            out@ =~= start + dir_lines(m@.take(i as int), opt_view(*root)),
        decreases n - i,
    {
        let ghost pre = out@;
        let v = m.value_at(i).as_str();
        match root {
            None => {
                let t = split_tokens(v);
                out.append("RUN mkdir -p ");
                emit_joined(out, &t);
                out.append("\n");
            },
            Some(mn) => {
                let a = strip_leading_str(v, "/");
                let b = strip_leading_str(a.as_str(), "home/content/");
                out.append("mkdir -p ./");
                out.append(mn.as_str());
                out.append("/");
                out.append(b.as_str());
                out.append("\n");
            },
        }
        assert(m@.take(i + 1).drop_last() =~= m@.take(i as int));
        assert(out@ =~= pre + dir_line(m@[i as int].1, opt_view(*root)));
        i = i + 1;
    }
    assert(m@.take(n as int) =~= m@);
}

/// The values of the entries, each after a space.
pub open spec fn dir_words(e: Seq<(Seq<char>, Seq<char>)>) -> Seq<char>
    decreases e.len(),
{
    if e.len() == 0 {
        Seq::empty()
    } else {
        dir_words(e.drop_last()) + " "@ + e.last().1
    }
}

/// Appends each value of `m` after a space.
pub fn emit_dir_words(out: &mut String, m: &StrMap)
    ensures
        final(out)@ == old(out)@ + dir_words(m@),
{
    let ghost start = out@;
    let n = m.len();
    let mut i: usize = 0;
    assert(dir_words(m@.take(0)) =~= Seq::<char>::empty());
    while i < n
        invariant
            n == m@.len(),
            i <= n,
            out@ =~= start + dir_words(m@.take(i as int)),
        decreases n - i,
    {
        out.append(" ");
        out.append(m.value_at(i).as_str());
        assert(m@.take(i + 1).drop_last() =~= m@.take(i as int));
        i = i + 1;
    }
    assert(m@.take(n as int) =~= m@);
}

/// The expose directive of a port entry, if it has an internal port.
pub open spec fn port_line(p: PortEntry) -> Seq<char> {
    match p.internal {
        Some(n) => "EXPOSE "@ + decimal(n as nat) + "\n"@,
        None => Seq::empty(),
    }
}

/// The note on a port entry, if it has an external port.
pub open spec fn port_diag(p: PortEntry) -> Seq<Diagnostic> {
    match p.external {
        Some(n) => seq![Diagnostic::ExternalPort(n)],
        None => Seq::empty(),
    }
}

/// The expose directives of the port entries, in order.
pub open spec fn port_lines(ps: Seq<PortEntry>) -> Seq<char>
    decreases ps.len(),
{
    if ps.len() == 0 {
        Seq::empty()
    } else {
        port_lines(ps.drop_last()) + port_line(ps.last())
    }
}

/// The notes on the port entries, in order.
pub open spec fn port_diags(ps: Seq<PortEntry>) -> Seq<Diagnostic>
    decreases ps.len(),
{
    if ps.len() == 0 {
        Seq::empty()
    } else {
        port_diags(ps.drop_last()) + port_diag(ps.last())
    }
}

/// Appends the expose directives of `ps`, and a note for each external port.
pub fn emit_ports(out: &mut String, diags: &mut Vec<Diagnostic>, ps: &Vec<PortEntry>)
    ensures
        final(out)@ == old(out)@ + port_lines(ps@),
        final(diags)@ == old(diags)@ + port_diags(ps@),
{
    let ghost start = out@;
    let ghost dstart = diags@;
    let n = ps.len();
    let mut i: usize = 0;
    assert(port_lines(ps@.take(0)) =~= Seq::<char>::empty());
    assert(port_diags(ps@.take(0)) =~= Seq::<Diagnostic>::empty());
    while i < n
        invariant
            n == ps@.len(),
            i <= n,
            out@ =~= start + port_lines(ps@.take(i as int)),
            diags@ =~= dstart + port_diags(ps@.take(i as int)),
        decreases n - i,
    {
        let ghost pre = out@;
        let ghost dpre = diags@;
        if let Some(p) = ps[i].internal {
            let d = decimal_string(p);
            out.append("EXPOSE ");
            out.append(d.as_str());
            out.append("\n");
        }
        if let Some(e) = ps[i].external {
            diags.push(Diagnostic::ExternalPort(e));
        }
        assert(ps@.take(i + 1).drop_last() =~= ps@.take(i as int));
        assert(out@ =~= pre + port_line(ps@[i as int]));
        assert(diags@ =~= dpre + port_diag(ps@[i as int]));
        i = i + 1;
    }
    assert(ps@.take(n as int) =~= ps@);
}

/// Whether a git entry has its source and destination; the branch is optional.
pub open spec fn git_ok(g: GitEntry) -> bool {
    g.from_source is Some && g.to_destination is Some
}

/// The branch option of a clone, empty when no branch is named.
pub open spec fn branch_flag(b: Option<String>) -> Seq<char> {
    match b {
        Some(name) => "-b "@ + name@ + " "@,
        None => Seq::empty(),
    }
}

fn emit_branch_flag(out: &mut String, b: &Option<String>)
    ensures
        final(out)@ == old(out)@ + branch_flag(*b),
{
    match b {
        Some(name) => {
            out.append("-b ");
            out.append(name.as_str());
            out.append(" ");
        },
        None => {
            assert(out@ =~= out@ + Seq::<char>::empty());
        },
    }
}

/// The clone step of a well-formed git entry, on its branch when one is named:
/// one directive without a project
/// root; under one, a clone into the rewritten destination followed by a
/// guarded install of the clone's requirements.
pub open spec fn git_line(g: GitEntry, root: Option<Seq<char>>) -> Seq<char> {
    if git_ok(g) {
        let src = g.from_source.unwrap()@;
        let dst = g.to_destination.unwrap()@;
        let branch = branch_flag(g.branch);
        match root {
            None => "RUN git clone "@ + branch + src + " "@ + dst + "\n"@,
            Some(mn) => {
                let rp = rewrite_path(dst, root);
                "echo 'Cloning repository from: "@ + src + "'\n"@
                    + "git clone "@ + branch + src + " "@ + rp + "\n"@
                    + "if [ -f "@ + rp + "/requirements.txt ]; then\n  echo 'Found requirements.txt, installing dependencies...'\n  cd "@
                    + rp + " || exit\n  python -m pip install -r requirements.txt\n  cd - || exit\nelse\n  echo 'No requirements.txt found.'\nfi\n"@
            },
        }
    } else {
        Seq::empty()
    }
}

/// The note on a git entry that lacks a key.
pub open spec fn git_diag(g: GitEntry) -> Seq<Diagnostic> {
    if git_ok(g) {
        Seq::empty()
    } else {
        seq![Diagnostic::MalformedEntry(Section::Git)]
    }
}

/// The clone steps of the git entries, in order.
pub open spec fn git_lines(gs: Seq<GitEntry>, root: Option<Seq<char>>) -> Seq<char>
    decreases gs.len(),
{
    if gs.len() == 0 {
        Seq::empty()
    } else {
        git_lines(gs.drop_last(), root) + git_line(gs.last(), root)
    }
}

/// The notes on the git entries, in order.
pub open spec fn git_diags(gs: Seq<GitEntry>) -> Seq<Diagnostic>
    decreases gs.len(),
{
    if gs.len() == 0 {
        Seq::empty()
    } else {
        git_diags(gs.drop_last()) + git_diag(gs.last())
    }
}

/// Appends the clone steps of `gs`, and a note for each malformed entry.
pub fn emit_git(out: &mut String, diags: &mut Vec<Diagnostic>, gs: &Vec<GitEntry>, root: &Option<String>)
    ensures
        final(out)@ == old(out)@ + git_lines(gs@, opt_view(*root)),
        final(diags)@ == old(diags)@ + git_diags(gs@),
{
    let ghost start = out@;
    let ghost dstart = diags@;
    let n = gs.len();
    let mut i: usize = 0;
    assert(git_lines(gs@.take(0), opt_view(*root)) =~= Seq::<char>::empty());
    assert(git_diags(gs@.take(0)) =~= Seq::<Diagnostic>::empty());
    while i < n
        invariant
            n == gs@.len(),
            i <= n,
            out@ =~= start + git_lines(gs@.take(i as int), opt_view(*root)),
            diags@ =~= dstart + git_diags(gs@.take(i as int)),
        decreases n - i,
    {
        let ghost pre = out@;
        let ghost dpre = diags@;
        let g = &gs[i];
        match (&g.from_source, &g.to_destination) {
            (Some(src), Some(dst)) => {
                match root {
                    None => {
                        out.append("RUN git clone ");
                        emit_branch_flag(out, &g.branch);
                        out.append(src.as_str());
                        out.append(" ");
                        out.append(dst.as_str());
                        out.append("\n");
                    },
                    Some(_) => {
                        let rp = rewrite_path_str(dst.as_str(), root);
                        out.append("echo 'Cloning repository from: ");
                        out.append(src.as_str());
                        out.append("'\n");
                        out.append("git clone ");
                        emit_branch_flag(out, &g.branch);
                        out.append(src.as_str());
                        out.append(" ");
                        out.append(rp.as_str());
                        out.append("\n");
                        out.append("if [ -f ");
                        out.append(rp.as_str());
                        out.append("/requirements.txt ]; then\n  echo 'Found requirements.txt, installing dependencies...'\n  cd ");
                        out.append(rp.as_str());
                        out.append(" || exit\n  python -m pip install -r requirements.txt\n  cd - || exit\nelse\n  echo 'No requirements.txt found.'\nfi\n");
                    },
                }
            },
            _ => {
                diags.push(Diagnostic::MalformedEntry(Section::Git));
            },
        }
        assert(gs@.take(i + 1).drop_last() =~= gs@.take(i as int));
        assert(out@ =~= pre + git_line(gs@[i as int], opt_view(*root)));
        assert(diags@ =~= dpre + git_diag(gs@[i as int]));
        i = i + 1;
    }
    assert(gs@.take(n as int) =~= gs@);
}

/// Whether a transfer entry has both of its keys.
pub open spec fn transfer_ok(t: Transfer) -> bool {
    t.from_source is Some && t.to_destination is Some
}

/// The fetch directive of a well-formed transfer entry.
pub open spec fn transfer_line(t: Transfer, lead: Seq<char>, root: Option<Seq<char>>) -> Seq<char> {
    if transfer_ok(t) {
        lead + "wget "@ + t.from_source.unwrap()@ + " -O "@ + rewrite_path(t.to_destination.unwrap()@, root) + "\n"@
    } else {
        Seq::empty()
    }
}

/// The fetch directives of the transfer entries, in order.
pub open spec fn transfer_lines(ts: Seq<Transfer>, lead: Seq<char>, root: Option<Seq<char>>) -> Seq<char>
    decreases ts.len(),
{
    if ts.len() == 0 {
        Seq::empty()
    } else {
        transfer_lines(ts.drop_last(), lead, root) + transfer_line(ts.last(), lead, root)
    }
}

/// A note for each transfer entry that lacks a key.
pub open spec fn transfer_diags(ts: Seq<Transfer>, sec: Section) -> Seq<Diagnostic>
    decreases ts.len(),
{
    if ts.len() == 0 {
        Seq::empty()
    } else if transfer_ok(ts.last()) {
        transfer_diags(ts.drop_last(), sec)
    } else {
        transfer_diags(ts.drop_last(), sec).push(Diagnostic::MalformedEntry(sec))
    }
}

/// Appends the fetch directives of `ts`, and a note for each malformed entry.
pub fn emit_transfers(
    out: &mut String,
    diags: &mut Vec<Diagnostic>,
    ts: &Vec<Transfer>,
    lead: &str,
    root: &Option<String>,
    sec: Section,
)
    ensures
        final(out)@ == old(out)@ + transfer_lines(ts@, lead@, opt_view(*root)),
        final(diags)@ == old(diags)@ + transfer_diags(ts@, sec),
{
    let ghost start = out@;
    let ghost dstart = diags@;
    let n = ts.len();
    let mut i: usize = 0;
    assert(transfer_lines(ts@.take(0), lead@, opt_view(*root)) =~= Seq::<char>::empty());
    assert(transfer_diags(ts@.take(0), sec) =~= Seq::<Diagnostic>::empty());
    while i < n
        invariant
            n == ts@.len(),
            i <= n,
            out@ =~= start + transfer_lines(ts@.take(i as int), lead@, opt_view(*root)),
            diags@ =~= dstart + transfer_diags(ts@.take(i as int), sec),
        decreases n - i,
    {
        let ghost pre = out@;
        let ghost dpre = diags@;
        let t = &ts[i];
        match (&t.from_source, &t.to_destination) {
            (Some(src), Some(dst)) => {
                let d = rewrite_path_str(dst.as_str(), root);
                out.append(lead);
                out.append("wget ");
                out.append(src.as_str());
                out.append(" -O ");
                out.append(d.as_str());
                out.append("\n");
            },
            _ => {
                diags.push(Diagnostic::MalformedEntry(sec));
            },
        }
        assert(ts@.take(i + 1).drop_last() =~= ts@.take(i as int));
        assert(out@ =~= pre + transfer_line(ts@[i as int], lead@, opt_view(*root)));
        i = i + 1;
    }
    assert(ts@.take(n as int) =~= ts@);
}

/// Whether a command entry has both of its keys.
pub open spec fn command_ok(c: CommandEntry) -> bool {
    c.command is Some && c.args is Some
}

/// The step of a well-formed run entry.
pub open spec fn run_line(c: CommandEntry, lead: Seq<char>, root: Option<Seq<char>>) -> Seq<char> {
    if command_ok(c) {
        lead + c.command.unwrap()@ + " "@ + rewrite_text(c.args.unwrap()@, root) + "\n"@
    } else {
        Seq::empty()
    }
}

/// The steps of the run entries, in order.
pub open spec fn run_lines(cs: Seq<CommandEntry>, lead: Seq<char>, root: Option<Seq<char>>) -> Seq<char>
    decreases cs.len(),
{
    if cs.len() == 0 {
        Seq::empty()
    } else {
        run_lines(cs.drop_last(), lead, root) + run_line(cs.last(), lead, root)
    }
}

/// A note for each run entry that lacks a key.
pub open spec fn run_diags(cs: Seq<CommandEntry>) -> Seq<Diagnostic>
    decreases cs.len(),
{
    if cs.len() == 0 {
        Seq::empty()
    } else if command_ok(cs.last()) {
        run_diags(cs.drop_last())
    } else {
        run_diags(cs.drop_last()).push(Diagnostic::MalformedEntry(Section::Run))
    }
}

/// Appends the steps of `cs`, and a note for each malformed entry.
pub fn emit_runs(
    out: &mut String,
    diags: &mut Vec<Diagnostic>,
    cs: &Vec<CommandEntry>,
    lead: &str,
    root: &Option<String>,
)
    ensures
        final(out)@ == old(out)@ + run_lines(cs@, lead@, opt_view(*root)),
        final(diags)@ == old(diags)@ + run_diags(cs@),
{
    let ghost start = out@;
    let ghost dstart = diags@;
    let n = cs.len();
    let mut i: usize = 0;
    assert(run_lines(cs@.take(0), lead@, opt_view(*root)) =~= Seq::<char>::empty());
    assert(run_diags(cs@.take(0)) =~= Seq::<Diagnostic>::empty());
    while i < n
        invariant
            n == cs@.len(),
            i <= n,
            out@ =~= start + run_lines(cs@.take(i as int), lead@, opt_view(*root)),
            diags@ =~= dstart + run_diags(cs@.take(i as int)),
        decreases n - i,
    {
        let ghost pre = out@;
        let c = &cs[i];
        match (&c.command, &c.args) {
            (Some(command), Some(args)) => {
                let a = rewrite_text_str(args.as_str(), root);
                out.append(lead);
                out.append(command.as_str());
                out.append(" ");
                out.append(a.as_str());
                out.append("\n");
            },
            _ => {
                diags.push(Diagnostic::MalformedEntry(Section::Run));
            },
        }
        assert(cs@.take(i + 1).drop_last() =~= cs@.take(i as int));
        assert(out@ =~= pre + run_line(cs@[i as int], lead@, opt_view(*root)));
        i = i + 1;
    }
    assert(cs@.take(n as int) =~= cs@);
}

/// Whether a script entry has both of its keys.
pub open spec fn script_entry_ok(e: ScriptEntry) -> bool {
    e.command is Some && e.file is Some
}

/// The step of a well-formed script entry: the command run against the file.
pub open spec fn script_step(e: ScriptEntry, lead: Seq<char>, root: Option<Seq<char>>) -> Seq<char> {
    if script_entry_ok(e) {
        lead + e.command.unwrap()@ + " "@ + rewrite_text(e.file.unwrap()@, root) + "\n"@
    } else {
        Seq::empty()
    }
}

/// The steps of the script entries, in order.
pub open spec fn script_steps(es: Seq<ScriptEntry>, lead: Seq<char>, root: Option<Seq<char>>) -> Seq<char>
    decreases es.len(),
{
    if es.len() == 0 {
        Seq::empty()
    } else {
        script_steps(es.drop_last(), lead, root) + script_step(es.last(), lead, root)
    }
}

/// A note for each script entry that lacks a key.
pub open spec fn script_step_diags(es: Seq<ScriptEntry>) -> Seq<Diagnostic>
    decreases es.len(),
{
    if es.len() == 0 {
        Seq::empty()
    } else if script_entry_ok(es.last()) {
        script_step_diags(es.drop_last())
    } else {
        script_step_diags(es.drop_last()).push(Diagnostic::MalformedEntry(Section::Script))
    }
}

/// Appends the steps of `es`, and a note for each malformed entry.
pub fn emit_script_steps(
    out: &mut String,
    diags: &mut Vec<Diagnostic>,
    es: &Vec<ScriptEntry>,
    lead: &str,
    root: &Option<String>,
)
    ensures
        final(out)@ == old(out)@ + script_steps(es@, lead@, opt_view(*root)),
        final(diags)@ == old(diags)@ + script_step_diags(es@),
{
    let ghost start = out@;
    let ghost dstart = diags@;
    let n = es.len();
    let mut i: usize = 0;
    assert(script_steps(es@.take(0), lead@, opt_view(*root)) =~= Seq::<char>::empty());
    assert(script_step_diags(es@.take(0)) =~= Seq::<Diagnostic>::empty());
    while i < n
        invariant
            n == es@.len(),
            i <= n,
            out@ =~= start + script_steps(es@.take(i as int), lead@, opt_view(*root)),
            diags@ =~= dstart + script_step_diags(es@.take(i as int)),
        decreases n - i,
    {
        let ghost pre = out@;
        let e = &es[i];
        match (&e.command, &e.file) {
            (Some(command), Some(file)) => {
                let f = rewrite_text_str(file.as_str(), root);
                out.append(lead);
                out.append(command.as_str());
                out.append(" ");
                out.append(f.as_str());
                out.append("\n");
            },
            _ => {
                diags.push(Diagnostic::MalformedEntry(Section::Script));
            },
        }
        assert(es@.take(i + 1).drop_last() =~= es@.take(i as int));
        assert(out@ =~= pre + script_step(es@[i as int], lead@, opt_view(*root)));
        i = i + 1;
    }
    assert(es@.take(n as int) =~= es@);
}

/// Each token quoted, after a comma and a space.
pub open spec fn quoted_tail(t: Seq<Seq<char>>) -> Seq<char>
    decreases t.len(),
{
    if t.len() == 0 {
        Seq::empty()
    } else {
        quoted_tail(t.drop_last()) + ", \""@ + t.last() + "\""@
    }
}

/// The exec-form entry point: the command, then each token of the
/// arguments, each quoted.
pub open spec fn cmd_directive(command: Seq<char>, args: Seq<char>) -> Seq<char> {
    "CMD [\""@ + command + "\""@ + quoted_tail(tokens(args)) + "]\n"@
}

/// Appends the exec-form entry point of `command` with `args`.
pub fn emit_cmd(out: &mut String, command: &str, args: &str)
    ensures
        final(out)@ == old(out)@ + cmd_directive(command@, args@),
{
    let ghost start = out@;
    let t = split_tokens(args);
    out.append("CMD [\"");
    out.append(command);
    out.append("\"");
    let ghost mid = out@;
    let n = t.len();
    let mut i: usize = 0;
    assert(quoted_tail(views(t@).take(0)) =~= Seq::<char>::empty());
    while i < n
        invariant
            n == t@.len(),
            i <= n,
            out@ =~= mid + quoted_tail(views(t@).take(i as int)),
        decreases n - i,
    {
        out.append(", \"");
        out.append(t[i].as_str());
        out.append("\"");
        assert(views(t@).take(i + 1).drop_last() =~= views(t@).take(i as int));
        i = i + 1;
    }
    assert(views(t@).take(n as int) =~= views(t@));
    out.append("]\n");
}

} // verus!
