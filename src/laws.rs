use vstd::prelude::*;
use crate::config::{
    Artifact, ArtifactKind, CommandEntry, Config, Diagnostic, GenerationError, GitEntry, PortEntry, Section,
    Transfer,
};
use crate::container::{dockerfile_accepts, dockerfile_diagnostic, footer, full_body, full_rest, minimal_body, minimal_rest};
use crate::render::render_outcome;
use crate::strmap::{keys_sorted, lemma_seq_lt_irreflexive, lookup, seq_lt, StrMap};
use crate::text::decimal;
use crate::emit::{
    command_ok, env_lines, git_diags, git_ok, port_diags, port_lines, run_diags, transfer_diags,
    transfer_lines, transfer_ok,
};
use crate::container::{full_diags, opt_runs, opt_scripts, opt_transfers};

verus! {

/// The text that precedes the timestamp in a build file.
pub open spec fn stamp_lead() -> Seq<char> {
    "# This file was automatically @generated by flatpack.ai on "@
}

/// Two renders of one configuration as one kind at two timestamps differ only
/// in the timestamp: the build files checked are the same lead, the timestamp,
/// and the same tail; each result is that text with the footer, or an error
/// carrying the parser's diagnostic on it; a script comes out the same; two
/// successes carry the same notes.
pub proof fn law_only_timestamp_differs(
    c: Config,
    kind: ArtifactKind,
    t1: Seq<char>,
    t2: Seq<char>,
    r1: Result<Artifact, GenerationError>,
    r2: Result<Artifact, GenerationError>,
)
    requires
        render_outcome(c, kind, t1, r1),
        render_outcome(c, kind, t2, r2),
    ensures
        kind != ArtifactKind::ProvisioningScript ==> exists|tail: Seq<char>|
            build_body(c, kind, t1) == stamp_lead() + t1 + tail && build_body(c, kind, t2) == stamp_lead() + t2 + tail,
        kind != ArtifactKind::ProvisioningScript ==> (r1 matches Ok(a) ==> a.text@ == build_body(c, kind, t1) + footer()),
        kind != ArtifactKind::ProvisioningScript ==> (r2 matches Ok(a) ==> a.text@ == build_body(c, kind, t2) + footer()),
        kind != ArtifactKind::ProvisioningScript ==> (r1 matches Err(GenerationError::Validation(m))
            ==> m@ == dockerfile_diagnostic(build_body(c, kind, t1))),
        kind != ArtifactKind::ProvisioningScript ==> (r2 matches Err(GenerationError::Validation(m))
            ==> m@ == dockerfile_diagnostic(build_body(c, kind, t2))),
        kind == ArtifactKind::ProvisioningScript ==> (r1 is Ok <==> r2 is Ok),
        kind == ArtifactKind::ProvisioningScript && r1 is Ok ==> r1->Ok_0.text@ == r2->Ok_0.text@,
        r1 is Ok && r2 is Ok ==> r1->Ok_0.diagnostics@ == r2->Ok_0.diagnostics@,
{
    let trail = ".\n# It is not intended for manual editing.\n\n"@;
    if kind == ArtifactKind::ContainerFull {
        let tail = trail + full_rest(c);
        assert(build_body(c, kind, t1) =~= stamp_lead() + t1 + tail);
        assert(build_body(c, kind, t2) =~= stamp_lead() + t2 + tail);
    } else if kind == ArtifactKind::ContainerMinimal {
        let tail = trail + minimal_rest(c);
        assert(build_body(c, kind, t1) =~= stamp_lead() + t1 + tail);
        assert(build_body(c, kind, t2) =~= stamp_lead() + t2 + tail);
    }
}

/// A failure other than the syntax check does not depend on the timestamp.
pub proof fn law_errors_ignore_timestamp(
    c: Config,
    kind: ArtifactKind,
    t1: Seq<char>,
    t2: Seq<char>,
    r1: Result<Artifact, GenerationError>,
    r2: Result<Artifact, GenerationError>,
)
    requires
        render_outcome(c, kind, t1, r1),
        render_outcome(c, kind, t2, r2),
        r1 matches Err(e) && !(e is Validation),
    ensures
        r2 == r1,
{
}

/// A port entry with only an external port adds no expose directive and
/// exactly one note; one with only an internal port adds exactly one expose
/// directive and no note.
pub proof fn law_port_entry(ps: Seq<PortEntry>, p: PortEntry)
    ensures
        p.internal is None && p.external is Some ==> port_lines(ps.push(p)) == port_lines(ps)
            && port_diags(ps.push(p)) == port_diags(ps).push(Diagnostic::ExternalPort(p.external->0)),
        p.internal is Some && p.external is None ==> port_lines(ps.push(p)) == port_lines(ps) + "EXPOSE "@
            + decimal(p.internal->0 as nat) + "\n"@ && port_diags(ps.push(p)) == port_diags(ps),
{
    assert(ps.push(p).drop_last() =~= ps);
    assert(port_lines(ps) =~= port_lines(ps) + Seq::<char>::empty());
    assert(port_diags(ps) =~= port_diags(ps) + Seq::<Diagnostic>::empty());
    assert(port_diags(ps).push(Diagnostic::ExternalPort(p.external->0)) =~= port_diags(ps) + seq![Diagnostic::ExternalPort(p.external->0)]);
}

/// The full build file fails with a cardinality error, and yields no text,
/// when the `cmd` section holds two or more entries, or holds none while no
/// script entry names the entry point either.
pub proof fn law_entry_point_cardinality(c: Config, ts: Seq<char>, r: Result<Artifact, GenerationError>)
    requires
        render_outcome(c, ArtifactKind::ContainerFull, ts, r),
        c.cmd@.len() >= 2 || (c.cmd@.len() == 0 && opt_scripts(c.script).len() == 0),
    ensures
        r == Err::<Artifact, GenerationError>(GenerationError::Cardinality),
{
}

/// A dataset or file entry without a destination adds no directive and
/// exactly one note, and does not stop generation.
pub proof fn law_transfer_without_destination(
    ts: Seq<Transfer>,
    t: Transfer,
    lead: Seq<char>,
    root: Option<Seq<char>>,
    sec: Section,
)
    requires
        t.to_destination is None,
    ensures
        transfer_lines(ts.push(t), lead, root) == transfer_lines(ts, lead, root),
        transfer_diags(ts.push(t), sec) == transfer_diags(ts, sec).push(Diagnostic::MalformedEntry(sec)),
{
    assert(ts.push(t).drop_last() =~= ts);
    assert(transfer_lines(ts, lead, root) =~= transfer_lines(ts, lead, root) + Seq::<char>::empty());
}

/// The script is produced whenever the environment names the project root,
/// whatever the list sections hold.
pub proof fn law_script_succeeds(c: Config, ts: Seq<char>, r: Result<Artifact, GenerationError>)
    requires
        render_outcome(c, ArtifactKind::ProvisioningScript, ts, r),
    ensures
        r is Ok <==> lookup(c.environment@, "model_name"@) is Some,
{
}

/// The build file before its check.
pub open spec fn build_body(c: Config, kind: ArtifactKind, ts: Seq<char>) -> Seq<char> {
    if kind == ArtifactKind::ContainerFull {
        full_body(c, ts)
    } else {
        minimal_body(c, ts)
    }
}

/// A build file returned as a success is text that the build-file parser
/// accepts, with the footer added; text it rejects is never returned, and a
/// validation error carries the parser's diagnostic on it.
pub proof fn law_only_checked_build_files(c: Config, kind: ArtifactKind, ts: Seq<char>, r: Result<Artifact, GenerationError>)
    requires
        render_outcome(c, kind, ts, r),
        kind != ArtifactKind::ProvisioningScript,
    ensures
        r matches Ok(a) ==> dockerfile_accepts(build_body(c, kind, ts)) && a.text@ == build_body(c, kind, ts) + footer(),
        !dockerfile_accepts(build_body(c, kind, ts)) ==> r is Err,
        r matches Err(GenerationError::Validation(m)) ==> !dockerfile_accepts(build_body(c, kind, ts))
            && m@ == dockerfile_diagnostic(build_body(c, kind, ts)),
{
}

/// The order on character sequences is transitive.
pub proof fn lemma_seq_lt_transitive(a: Seq<char>, b: Seq<char>, c: Seq<char>)
    requires
        seq_lt(a, b),
        seq_lt(b, c),
    ensures
        seq_lt(a, c),
    decreases a.len(),
{
    if a.len() > 0 && a[0] == b[0] && b[0] == c[0] {
        lemma_seq_lt_transitive(a.drop_first(), b.drop_first(), c.drop_first());
    }
}

proof fn lemma_sorted_pair(e: Seq<(Seq<char>, Seq<char>)>, i: int, j: int)
    requires
        keys_sorted(e),
        0 <= i < j < e.len(),
    ensures
        seq_lt(e[i].0, e[j].0),
    decreases j - i,
{
    if j > i + 1 {
        lemma_sorted_pair(e, i, j - 1);
        let k = j - 1;
        assert(seq_lt(e[k].0, e[k + 1].0));
        lemma_seq_lt_transitive(e[i].0, e[j - 1].0, e[j].0);
    } else {
        assert(seq_lt(e[i].0, e[i + 1].0));
    }
}

/// Environment declarations come in lexicographic key order: the
/// environment section declares the entries in order, and each entry's key
/// comes before the key of every later entry.
pub proof fn law_env_in_key_order(m: StrMap, lead: Seq<char>, root: Option<Seq<char>>)
    requires
        m.wf(),
    ensures
        forall|i: int, j: int| 0 <= i < j < m@.len() ==> seq_lt(#[trigger] m@[i].0, #[trigger] m@[j].0),
        m@.len() > 0 ==> env_lines(m@, lead, root) == env_lines(m@.drop_last(), lead, root)
            + lead + m@.last().0 + "="@ + crate::emit::rewrite_text(m@.last().1, root) + "\n"@,
{
    assert forall|i: int, j: int| 0 <= i < j < m@.len() implies seq_lt(#[trigger] m@[i].0, #[trigger] m@[j].0) by {
        lemma_sorted_pair(m@, i, j);
    }
}

proof fn lemma_lookup_index(e: Seq<(Seq<char>, Seq<char>)>, k: Seq<char>)
    ensures
        lookup(e, k) is None <==> forall|i: int| 0 <= i < e.len() ==> #[trigger] e[i].0 != k,
        lookup(e, k) matches Some(v) ==> exists|i: int| 0 <= i < e.len() && #[trigger] e[i].0 == k && e[i].1 == v,
    decreases e.len(),
{
    if e.len() > 0 {
        lemma_lookup_index(e.drop_first(), k);
        if e[0].0 != k {
            if lookup(e, k) is None {
                assert forall|i: int| 0 <= i < e.len() implies #[trigger] e[i].0 != k by {
                    if i > 0 {
                        assert(e.drop_first()[i - 1] == e[i]);
                    }
                }
            } else {
                let v = lookup(e, k)->0;
                let i = choose|i: int| 0 <= i < e.drop_first().len() && #[trigger] e.drop_first()[i].0 == k && e.drop_first()[i].1 == v;
                assert(e[i + 1] == e.drop_first()[i]);
            }
        }
    }
}

/// The entries of a well-formed map, and with them its environment section,
/// depend only on which value each key holds, not on the order in which
/// entries were inserted: two well-formed maps that agree on every key have
/// the same entries.
pub proof fn law_entries_determined_by_contents(a: StrMap, b: StrMap)
    requires
        a.wf(),
        b.wf(),
        forall|k: Seq<char>| #[trigger] lookup(a@, k) == lookup(b@, k),
    ensures
        a@ == b@,
{
    lemma_same_lookups_same_entries(a@, b@);
}

proof fn lemma_sorted_tail(e: Seq<(Seq<char>, Seq<char>)>)
    requires
        keys_sorted(e),
        e.len() > 0,
    ensures
        keys_sorted(e.drop_first()),
        forall|i: int| 0 <= i < e.drop_first().len() ==> #[trigger] e.drop_first()[i].0 != e[0].0,
{
    let t = e.drop_first();
    assert forall|j: int| 0 <= j < t.len() - 1 implies #[trigger] seq_lt(t[j].0, t[j + 1].0) by {
        assert(t[j] == e[j + 1] && t[j + 1] == e[j + 2]);
        let jj = j + 1;
        assert(seq_lt(e[jj].0, e[jj + 1].0));
    }
    assert forall|i: int| 0 <= i < t.len() implies #[trigger] t[i].0 != e[0].0 by {
        assert(t[i] == e[i + 1]);
        lemma_sorted_pair(e, 0, i + 1);
        lemma_seq_lt_irreflexive(e[0].0);
    }
}

proof fn lemma_same_lookups_same_entries(e1: Seq<(Seq<char>, Seq<char>)>, e2: Seq<(Seq<char>, Seq<char>)>)
    requires
        keys_sorted(e1),
        keys_sorted(e2),
        forall|k: Seq<char>| #[trigger] lookup(e1, k) == lookup(e2, k),
    ensures
        e1 == e2,
    decreases e1.len(),
{
    if e1.len() == 0 {
        if e2.len() > 0 {
            assert(lookup(e1, e2[0].0) == lookup(e2, e2[0].0));
        }
        assert(e1 =~= e2);
    } else if e2.len() == 0 {
        assert(lookup(e1, e1[0].0) == lookup(e2, e1[0].0));
    } else {
        let k1 = e1[0].0;
        let k2 = e2[0].0;
        assert(lookup(e1, k2) == lookup(e2, k2));
        assert(lookup(e1, k1) == lookup(e2, k1));
        lemma_lookup_index(e1, k2);
        lemma_lookup_index(e2, k1);
        let i = choose|i: int| 0 <= i < e1.len() && #[trigger] e1[i].0 == k2 && e1[i].1 == e2[0].1;
        let j = choose|j: int| 0 <= j < e2.len() && #[trigger] e2[j].0 == k1 && e2[j].1 == e1[0].1;
        if i > 0 && j > 0 {
            lemma_sorted_pair(e1, 0, i);
            lemma_sorted_pair(e2, 0, j);
            lemma_seq_lt_transitive(k1, k2, k1);
            lemma_seq_lt_irreflexive(k1);
        }
        assert(k1 == k2);
        let t1 = e1.drop_first();
        let t2 = e2.drop_first();
        lemma_sorted_tail(e1);
        lemma_sorted_tail(e2);
        assert forall|k: Seq<char>| #[trigger] lookup(t1, k) == lookup(t2, k) by {
            assert(lookup(e1, k) == lookup(e2, k));
            if k == k1 {
                lemma_lookup_index(t1, k);
                lemma_lookup_index(t2, k);
            }
        }
        lemma_same_lookups_same_entries(t1, t2);
        assert(e1 =~= seq![e1[0]] + t1);
        assert(e2 =~= seq![e2[0]] + t2);
    }
}

proof fn lemma_no_port_notes(ps: Seq<PortEntry>)
    requires
        forall|i: int| 0 <= i < ps.len() ==> (#[trigger] ps[i]).external is None,
    ensures
        port_diags(ps) == Seq::<Diagnostic>::empty(),
    decreases ps.len(),
{
    if ps.len() > 0 {
        assert forall|i: int| 0 <= i < ps.drop_last().len() implies (#[trigger] ps.drop_last()[i]).external is None by {
            assert(ps.drop_last()[i] == ps[i]);
        }
        lemma_no_port_notes(ps.drop_last());
        assert(ps.last() == ps[ps.len() - 1]);
        assert(port_diags(ps) =~= Seq::<Diagnostic>::empty());
    }
}

proof fn lemma_no_git_notes(gs: Seq<GitEntry>)
    requires
        forall|i: int| 0 <= i < gs.len() ==> git_ok(#[trigger] gs[i]),
    ensures
        git_diags(gs) == Seq::<Diagnostic>::empty(),
    decreases gs.len(),
{
    if gs.len() > 0 {
        assert forall|i: int| 0 <= i < gs.drop_last().len() implies git_ok(#[trigger] gs.drop_last()[i]) by {
            assert(gs.drop_last()[i] == gs[i]);
        }
        lemma_no_git_notes(gs.drop_last());
        assert(gs.last() == gs[gs.len() - 1]);
        assert(git_diags(gs) =~= Seq::<Diagnostic>::empty());
    }
}

proof fn lemma_no_run_notes(cs: Seq<CommandEntry>)
    requires
        forall|i: int| 0 <= i < cs.len() ==> command_ok(#[trigger] cs[i]),
    ensures
        run_diags(cs) == Seq::<Diagnostic>::empty(),
    decreases cs.len(),
{
    if cs.len() > 0 {
        assert forall|i: int| 0 <= i < cs.drop_last().len() implies command_ok(#[trigger] cs.drop_last()[i]) by {
            assert(cs.drop_last()[i] == cs[i]);
        }
        lemma_no_run_notes(cs.drop_last());
        assert(cs.last() == cs[cs.len() - 1]);
    }
}

/// With every entry but the one at `j` well formed, and that one lacking its
/// destination, the entries give exactly one note and the directives of the
/// other entries alone.
proof fn lemma_one_bad_transfer(ts: Seq<Transfer>, j: int, sec: Section)
    requires
        0 <= j < ts.len(),
        ts[j].to_destination is None,
        forall|i: int| 0 <= i < ts.len() && i != j ==> transfer_ok(#[trigger] ts[i]),
    ensures
        transfer_diags(ts, sec) == seq![Diagnostic::MalformedEntry(sec)],
        transfer_lines(ts, "RUN "@, None) == transfer_lines(ts.remove(j), "RUN "@, None),
    decreases ts.len(),
{
    let init = ts.drop_last();
    if j == ts.len() - 1 {
        lemma_all_transfers_ok(init, sec);
        assert(ts.remove(j) =~= init);
        assert(transfer_lines(init, "RUN "@, None) =~= transfer_lines(init, "RUN "@, None) + Seq::<char>::empty());
        assert(seq![Diagnostic::MalformedEntry(sec)] =~= Seq::<Diagnostic>::empty().push(Diagnostic::MalformedEntry(sec)));
    } else {
        assert forall|i: int| 0 <= i < init.len() && i != j implies transfer_ok(#[trigger] init[i]) by {
            assert(init[i] == ts[i]);
        }
        assert(init[j] == ts[j]);
        lemma_one_bad_transfer(init, j, sec);
        assert(ts.last() == ts[ts.len() - 1]);
        let r = ts.remove(j);
        assert(r.drop_last() =~= init.remove(j));
        assert(r.last() == ts.last());
    }
}

proof fn lemma_all_transfers_ok(ts: Seq<Transfer>, sec: Section)
    requires
        forall|i: int| 0 <= i < ts.len() ==> transfer_ok(#[trigger] ts[i]),
    ensures
        transfer_diags(ts, sec) == Seq::<Diagnostic>::empty(),
    decreases ts.len(),
{
    if ts.len() > 0 {
        assert forall|i: int| 0 <= i < ts.drop_last().len() implies transfer_ok(#[trigger] ts.drop_last()[i]) by {
            assert(ts.drop_last()[i] == ts[i]);
        }
        lemma_all_transfers_ok(ts.drop_last(), sec);
        assert(ts.last() == ts[ts.len() - 1]);
    }
}

/// In a full build file whose other entries are all well formed, with no
/// external ports and no script entries, a dataset entry without a
/// destination is skipped: the dataset directives are those of the other
/// entries, and the one note is a dataset warning.
pub proof fn law_dataset_entry_skipped(c: Config, ts: Seq<char>, r: Result<Artifact, GenerationError>, j: int)
    requires
        render_outcome(c, ArtifactKind::ContainerFull, ts, r),
        opt_scripts(c.script).len() == 0,
        forall|i: int| 0 <= i < c.ports@.len() ==> (#[trigger] c.ports@[i]).external is None,
        forall|i: int| 0 <= i < c.git@.len() ==> git_ok(#[trigger] c.git@[i]),
        forall|i: int| 0 <= i < opt_transfers(c.file).len() ==> transfer_ok(#[trigger] opt_transfers(c.file)[i]),
        forall|i: int| 0 <= i < opt_runs(c.run).len() ==> command_ok(#[trigger] opt_runs(c.run)[i]),
        c.dataset is Some,
        0 <= j < opt_transfers(c.dataset).len(),
        opt_transfers(c.dataset)[j].to_destination is None,
        forall|i: int| 0 <= i < opt_transfers(c.dataset).len() && i != j ==> transfer_ok(#[trigger] opt_transfers(c.dataset)[i]),
    ensures
        transfer_lines(opt_transfers(c.dataset), "RUN "@, None)
            == transfer_lines(opt_transfers(c.dataset).remove(j), "RUN "@, None),
        r matches Ok(a) ==> a.diagnostics@ == seq![Diagnostic::MalformedEntry(Section::Dataset)],
{
    lemma_no_port_notes(c.ports@);
    lemma_no_git_notes(c.git@);
    lemma_all_transfers_ok(opt_transfers(c.file), Section::File);
    lemma_no_run_notes(opt_runs(c.run));
    lemma_one_bad_transfer(opt_transfers(c.dataset), j, Section::Dataset);
    assert(full_diags(c) =~= seq![Diagnostic::MalformedEntry(Section::Dataset)]);
}

/// In a full build file whose list entries are all well formed, with no
/// script entries and a single port entry: an entry with only an external port
/// gives no expose directive and exactly one note, naming that port; an entry
/// with only an internal port gives exactly its expose directive and no note.
pub proof fn law_single_port_in_render(c: Config, ts: Seq<char>, r: Result<Artifact, GenerationError>)
    requires
        render_outcome(c, ArtifactKind::ContainerFull, ts, r),
        opt_scripts(c.script).len() == 0,
        c.ports@.len() == 1,
        forall|i: int| 0 <= i < c.git@.len() ==> git_ok(#[trigger] c.git@[i]),
        forall|i: int| 0 <= i < opt_transfers(c.dataset).len() ==> transfer_ok(#[trigger] opt_transfers(c.dataset)[i]),
        forall|i: int| 0 <= i < opt_transfers(c.file).len() ==> transfer_ok(#[trigger] opt_transfers(c.file)[i]),
        forall|i: int| 0 <= i < opt_runs(c.run).len() ==> command_ok(#[trigger] opt_runs(c.run)[i]),
    ensures
        c.ports@[0].internal is None && c.ports@[0].external is Some ==> port_lines(c.ports@) == Seq::<char>::empty()
            && (r matches Ok(a) ==> a.diagnostics@ == seq![Diagnostic::ExternalPort(c.ports@[0].external->0)]),
        c.ports@[0].internal is Some && c.ports@[0].external is None ==> port_lines(c.ports@) == "EXPOSE "@
            + decimal(c.ports@[0].internal->0 as nat) + "\n"@ && (r matches Ok(a) ==> a.diagnostics@ == Seq::<Diagnostic>::empty()),
{
    lemma_no_git_notes(c.git@);
    lemma_all_transfers_ok(opt_transfers(c.dataset), Section::Dataset);
    lemma_all_transfers_ok(opt_transfers(c.file), Section::File);
    lemma_no_run_notes(opt_runs(c.run));
    let ps = c.ports@;
    law_port_entry(Seq::empty(), ps[0]);
    assert(Seq::<PortEntry>::empty().push(ps[0]) =~= ps);
    assert(port_lines(Seq::<PortEntry>::empty()) =~= Seq::<char>::empty());
    assert(port_diags(Seq::<PortEntry>::empty()) =~= Seq::<Diagnostic>::empty());
    assert(full_diags(c) =~= port_diags(ps));
    assert(Seq::<char>::empty() + "EXPOSE "@ + decimal(ps[0].internal->0 as nat) + "\n"@ =~= "EXPOSE "@
        + decimal(ps[0].internal->0 as nat) + "\n"@);
    assert(Seq::<Diagnostic>::empty().push(Diagnostic::ExternalPort(ps[0].external->0)) =~= seq![Diagnostic::ExternalPort(ps[0].external->0)]);
}

/// Taking a dataset entry without a destination out of a configuration, all
/// of whose other dataset entries are well formed, changes neither build
/// file: the entry is skipped and every other section is emitted unchanged.
pub proof fn law_dataset_entry_removed_same_build_file(
    c: Config,
    c2: Config,
    kind: ArtifactKind,
    ts: Seq<char>,
    r: Result<Artifact, GenerationError>,
    r2: Result<Artifact, GenerationError>,
    j: int,
)
    requires
        kind != ArtifactKind::ProvisioningScript,
        render_outcome(c, kind, ts, r),
        render_outcome(c2, kind, ts, r2),
        c.dataset is Some,
        c2.dataset is Some,
        0 <= j < opt_transfers(c.dataset).len(),
        opt_transfers(c.dataset)[j].to_destination is None,
        forall|i: int| 0 <= i < opt_transfers(c.dataset).len() && i != j ==> transfer_ok(#[trigger] opt_transfers(c.dataset)[i]),
        opt_transfers(c2.dataset) == opt_transfers(c.dataset).remove(j),
        c2 == (Config { dataset: c2.dataset, ..c }),
    ensures
        build_body(c, kind, ts) == build_body(c2, kind, ts),
        r is Ok <==> r2 is Ok,
        r matches Ok(a) ==> a.text@ == r2->Ok_0.text@,
{
    lemma_one_bad_transfer(opt_transfers(c.dataset), j, Section::Dataset);
    assert(full_body(c, ts) =~= full_body(c2, ts));
    assert(minimal_body(c, ts) =~= minimal_body(c2, ts));
}

} // verus!
