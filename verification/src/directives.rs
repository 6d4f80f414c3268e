//! The directives of a unit, found again by their key.

use crate::options::ServiceView;
use crate::render::{blank, directive, optional_directive, repeated_directive};
use crate::resolve::ResolvedPathsView;
use vstd::prelude::*;

verus! {

/// Whether `line` is a directive under `key`: it opens with the key and
/// `=`.
pub open spec fn has_key(line: Seq<char>, key: Seq<char>) -> bool {
    (key + seq!['=']).is_prefix_of(line)
}

/// [`has_key`] as a predicate on lines.
pub open spec fn key_test(key: Seq<char>) -> spec_fn(Seq<char>) -> bool {
    |line: Seq<char>| has_key(line, key)
}

/// The directives under `key` among `lines`, in order.
pub open spec fn lines_with_key(lines: Seq<Seq<char>>, key: Seq<char>) -> Seq<Seq<char>> {
    lines.filter(key_test(key))
}

/// Whether `key` is a name: a non-empty word of letters.
pub open spec fn is_name(key: Seq<char>) -> bool {
    &&& key.len() > 0
    &&& forall|i: int|
        0 <= i < key.len() ==> ('a' <= #[trigger] key[i] <= 'z' || 'A' <= key[i] <= 'Z')
}

/// `lines` if they stand under `key`, nothing otherwise.
pub open spec fn under(key: Seq<char>, own: Seq<char>, lines: Seq<Seq<char>>) -> Seq<Seq<char>> {
    if key == own {
        lines
    } else {
        Seq::empty()
    }
}

/// A directive stands under its own key and under no other name.
pub proof fn lemma_has_key_directive(own: Seq<char>, value: Seq<char>, key: Seq<char>)
    requires
        is_name(own),
        is_name(key),
    ensures
        has_key(directive(own, value), key) <==> key == own,
{
    let line = directive(own, value);
    let opening = key + seq!['='];
    if key == own {
        assert(opening =~= line.subrange(0, opening.len() as int));
    }
    if has_key(line, key) {
        let shown = line.subrange(0, opening.len() as int);
        assert(opening == shown);
        if key.len() < own.len() {
            assert(opening[key.len() as int] == '=');
            assert(shown[key.len() as int] == own[key.len() as int]);
        } else if key.len() > own.len() {
            assert(shown[own.len() as int] == '=');
            assert(opening[own.len() as int] == key[own.len() as int]);
        } else {
            assert forall|i: int| 0 <= i < key.len() implies key[i] == own[i] by {
                assert(opening[i] == key[i]);
                assert(shown[i] == own[i]);
            }
            assert(key =~= own);
        }
    }
}

/// The directives under `key` among two runs of lines are those of the
/// first run followed by those of the second.
pub proof fn lemma_lines_with_key_concat(
    front: Seq<Seq<char>>,
    back: Seq<Seq<char>>,
    key: Seq<char>,
)
    ensures
        lines_with_key(front + back, key) == lines_with_key(front, key) + lines_with_key(
            back,
            key,
        ),
{
    Seq::filter_distributes_over_add(front, back, key_test(key));
}

/// A single line is kept if it stands under `key` and dropped otherwise.
pub proof fn lemma_lines_with_key_single(line: Seq<char>, key: Seq<char>)
    ensures
        lines_with_key(seq![line], key) == if has_key(line, key) {
            seq![line]
        } else {
            Seq::empty()
        },
{
    let none = Seq::<Seq<char>>::empty();
    reveal(Seq::filter);
    assert(none.filter(key_test(key)) =~= none);
    none.lemma_filter_push(line, key_test(key));
    assert(none.push(line) =~= seq![line]);
}

/// A section header or a blank line stands under no name.
proof fn lemma_lines_with_key_bare(line: Seq<char>, key: Seq<char>)
    requires
        is_name(key),
        line.len() == 0 || line[0] == '[',
    ensures
        lines_with_key(seq![line], key) == Seq::<Seq<char>>::empty(),
{
    lemma_lines_with_key_single(line, key);
    if has_key(line, key) {
        let opening = key + seq!['='];
        assert(opening == line.subrange(0, opening.len() as int));
        assert(opening[0] == key[0]);
        assert(line.subrange(0, opening.len() as int)[0] == line[0]);
    }
}

proof fn lemma_lines_with_key_directive(own: Seq<char>, value: Seq<char>, key: Seq<char>)
    requires
        is_name(own),
        is_name(key),
    ensures
        lines_with_key(seq![directive(own, value)], key) == under(
            key,
            own,
            seq![directive(own, value)],
        ),
{
    lemma_lines_with_key_single(directive(own, value), key);
    lemma_has_key_directive(own, value, key);
}

proof fn lemma_lines_with_key_optional(own: Seq<char>, value: Option<Seq<char>>, key: Seq<char>)
    requires
        is_name(own),
        is_name(key),
    ensures
        lines_with_key(optional_directive(own, value), key) == under(
            key,
            own,
            optional_directive(own, value),
        ),
{
    match value {
        Some(value) => {
            lemma_lines_with_key_directive(own, value, key);
        },
        None => {
            reveal(Seq::filter);
            assert(lines_with_key(Seq::<Seq<char>>::empty(), key) =~= Seq::<Seq<char>>::empty());
        },
    }
}

proof fn lemma_lines_with_key_repeated(own: Seq<char>, values: Seq<Seq<char>>, key: Seq<char>)
    requires
        is_name(own),
        is_name(key),
    ensures
        lines_with_key(repeated_directive(own, values), key) == under(
            key,
            own,
            repeated_directive(own, values),
        ),
    decreases values.len(),
{
    let entries = repeated_directive(own, values);
    if values.len() == 0 {
        reveal(Seq::filter);
        assert(entries =~= Seq::<Seq<char>>::empty());
        assert(lines_with_key(entries, key) =~= Seq::<Seq<char>>::empty());
    } else {
        let front = values.drop_last();
        let front_entries = repeated_directive(own, front);
        let last = directive(own, values.last());
        lemma_lines_with_key_repeated(own, front, key);
        assert(entries =~= front_entries.push(last));
        front_entries.lemma_filter_push(last, key_test(key));
        lemma_has_key_directive(own, values.last(), key);
        if key == own {
            assert(lines_with_key(entries, key) =~= entries);
        } else {
            assert(lines_with_key(entries, key) =~= Seq::<Seq<char>>::empty());
        }
    }
}

/// The keys of the service unit are names.
proof fn lemma_names()
    ensures
        is_name("Description"@),
        is_name("Before"@),
        is_name("After"@),
        is_name("Conflicts"@),
        is_name("Requires"@),
        is_name("OnFailure"@),
        is_name("Type"@),
        is_name("ExecStart"@),
        is_name("ExecReload"@),
        is_name("ExecStop"@),
        is_name("Restart"@),
        is_name("RestartSec"@),
        is_name("User"@),
        is_name("Group"@),
        is_name("WantedBy"@),
{
    reveal_strlit("Description");
    reveal_strlit("Before");
    reveal_strlit("After");
    reveal_strlit("Conflicts");
    reveal_strlit("Requires");
    reveal_strlit("OnFailure");
    reveal_strlit("Type");
    reveal_strlit("ExecStart");
    reveal_strlit("ExecReload");
    reveal_strlit("ExecStop");
    reveal_strlit("Restart");
    reveal_strlit("RestartSec");
    reveal_strlit("User");
    reveal_strlit("Group");
    reveal_strlit("WantedBy");
}

impl ServiceView {
    /// The directives of the `[Unit]` section that stand under `key`.
    pub open spec fn unit_directives_under(self, key: Seq<char>) -> Seq<Seq<char>> {
        under(key, "Description"@, optional_directive("Description"@, self.description)) + under(
            key,
            "Before"@,
            repeated_directive("Before"@, self.before),
        ) + under(key, "After"@, repeated_directive("After"@, self.after)) + under(
            key,
            "Conflicts"@,
            repeated_directive("Conflicts"@, self.conflicts),
        ) + under(key, "Requires"@, repeated_directive("Requires"@, self.requires)) + under(
            key,
            "OnFailure"@,
            optional_directive("OnFailure"@, self.on_failure),
        )
    }

    /// The directives of the `[Service]` section that stand under `key`.
    pub open spec fn service_directives_under(self, paths: ResolvedPathsView, key: Seq<char>) -> Seq<
        Seq<char>,
    > {
        under(key, "Type"@, seq![directive("Type"@, self.service_type.text())]) + under(
            key,
            "ExecStart"@,
            seq![directive("ExecStart"@, paths.exec_start)],
        ) + under(key, "ExecReload"@, optional_directive("ExecReload"@, paths.exec_reload))
            + under(key, "ExecStop"@, optional_directive("ExecStop"@, paths.exec_stop)) + under(
            key,
            "Restart"@,
            optional_directive("Restart"@, self.restart_text()),
        ) + under(key, "RestartSec"@, optional_directive("RestartSec"@, self.restart_sec_text()))
            + under(key, "User"@, optional_directive("User"@, self.user)) + under(
            key,
            "Group"@,
            optional_directive("Group"@, self.group),
        )
    }

    /// The directives of the service unit that stand under `key`, in the
    /// order of the unit.
    pub open spec fn directives_under(self, paths: ResolvedPathsView, key: Seq<char>) -> Seq<
        Seq<char>,
    > {
        self.unit_directives_under(key) + self.service_directives_under(paths, key) + under(
            key,
            "WantedBy"@,
            seq![directive("WantedBy"@, self.wanted_by)],
        )
    }
}

proof fn lemma_unit_section_with_key(s: ServiceView, key: Seq<char>)
    requires
        is_name(key),
    ensures
        lines_with_key(s.unit_section(), key) == s.unit_directives_under(key),
{
    lemma_names();
    let a0 = seq!["[Unit]"@];
    let a1 = optional_directive("Description"@, s.description);
    let a2 = repeated_directive("Before"@, s.before);
    let a3 = repeated_directive("After"@, s.after);
    let a4 = repeated_directive("Conflicts"@, s.conflicts);
    let a5 = repeated_directive("Requires"@, s.requires);
    let a6 = optional_directive("OnFailure"@, s.on_failure);
    assert("[Unit]"@[0] == '[') by {
        reveal_strlit("[Unit]");
    }
    lemma_lines_with_key_bare("[Unit]"@, key);
    lemma_lines_with_key_optional("Description"@, s.description, key);
    lemma_lines_with_key_repeated("Before"@, s.before, key);
    lemma_lines_with_key_repeated("After"@, s.after, key);
    lemma_lines_with_key_repeated("Conflicts"@, s.conflicts, key);
    lemma_lines_with_key_repeated("Requires"@, s.requires, key);
    lemma_lines_with_key_optional("OnFailure"@, s.on_failure, key);
    lemma_lines_with_key_concat(a0, a1, key);
    lemma_lines_with_key_concat(a0 + a1, a2, key);
    lemma_lines_with_key_concat(a0 + a1 + a2, a3, key);
    lemma_lines_with_key_concat(a0 + a1 + a2 + a3, a4, key);
    lemma_lines_with_key_concat(a0 + a1 + a2 + a3 + a4, a5, key);
    lemma_lines_with_key_concat(a0 + a1 + a2 + a3 + a4 + a5, a6, key);
    assert(s.unit_section() == a0 + a1 + a2 + a3 + a4 + a5 + a6);
    assert(lines_with_key(s.unit_section(), key) =~= s.unit_directives_under(key));
}

proof fn lemma_service_section_with_key(s: ServiceView, p: ResolvedPathsView, key: Seq<char>)
    requires
        is_name(key),
    ensures
        lines_with_key(s.service_section(p), key) == s.service_directives_under(p, key),
{
    lemma_names();
    let h = seq!["[Service]"@];
    let t = seq![directive("Type"@, s.service_type.text())];
    let e = seq![directive("ExecStart"@, p.exec_start)];
    let a0 = seq![
        "[Service]"@,
        directive("Type"@, s.service_type.text()),
        directive("ExecStart"@, p.exec_start),
    ];
    let a1 = optional_directive("ExecReload"@, p.exec_reload);
    let a2 = optional_directive("ExecStop"@, p.exec_stop);
    let a3 = optional_directive("Restart"@, s.restart_text());
    let a4 = optional_directive("RestartSec"@, s.restart_sec_text());
    let a5 = optional_directive("User"@, s.user);
    let a6 = optional_directive("Group"@, s.group);
    assert("[Service]"@[0] == '[') by {
        reveal_strlit("[Service]");
    }
    assert(a0 =~= h + t + e);
    lemma_lines_with_key_bare("[Service]"@, key);
    lemma_lines_with_key_directive("Type"@, s.service_type.text(), key);
    lemma_lines_with_key_directive("ExecStart"@, p.exec_start, key);
    lemma_lines_with_key_concat(h, t, key);
    lemma_lines_with_key_concat(h + t, e, key);
    lemma_lines_with_key_optional("ExecReload"@, p.exec_reload, key);
    lemma_lines_with_key_optional("ExecStop"@, p.exec_stop, key);
    lemma_lines_with_key_optional("Restart"@, s.restart_text(), key);
    lemma_lines_with_key_optional("RestartSec"@, s.restart_sec_text(), key);
    lemma_lines_with_key_optional("User"@, s.user, key);
    lemma_lines_with_key_optional("Group"@, s.group, key);
    lemma_lines_with_key_concat(a0, a1, key);
    lemma_lines_with_key_concat(a0 + a1, a2, key);
    lemma_lines_with_key_concat(a0 + a1 + a2, a3, key);
    lemma_lines_with_key_concat(a0 + a1 + a2 + a3, a4, key);
    lemma_lines_with_key_concat(a0 + a1 + a2 + a3 + a4, a5, key);
    lemma_lines_with_key_concat(a0 + a1 + a2 + a3 + a4 + a5, a6, key);
    assert(s.service_section(p) == a0 + a1 + a2 + a3 + a4 + a5 + a6);
    assert(lines_with_key(s.service_section(p), key) =~= s.service_directives_under(p, key));
}

/// The lines of the service unit under a name are the directives that the
/// record gives under that name, in the order of the unit: no other line
/// opens with it.
pub proof fn lemma_service_lines_with_key(s: ServiceView, paths: ResolvedPathsView, key: Seq<char>)
    requires
        is_name(key),
    ensures
        lines_with_key(s.service_lines(paths), key) == s.directives_under(paths, key),
{
    lemma_names();
    let unit = s.unit_section();
    let service = s.service_section(paths);
    let install = s.install_section();
    let gap = seq![blank()];
    let h = seq!["[Install]"@];
    let w = seq![directive("WantedBy"@, s.wanted_by)];
    assert("[Install]"@[0] == '[') by {
        reveal_strlit("[Install]");
    }
    assert(install =~= h + w);
    lemma_unit_section_with_key(s, key);
    lemma_service_section_with_key(s, paths, key);
    lemma_lines_with_key_bare(blank(), key);
    lemma_lines_with_key_bare("[Install]"@, key);
    lemma_lines_with_key_directive("WantedBy"@, s.wanted_by, key);
    lemma_lines_with_key_concat(h, w, key);
    lemma_lines_with_key_concat(unit, gap, key);
    lemma_lines_with_key_concat(unit + gap, service, key);
    lemma_lines_with_key_concat(unit + gap + service, gap, key);
    lemma_lines_with_key_concat(unit + gap + service + gap, install, key);
    assert(lines_with_key(s.service_lines(paths), key) =~= s.directives_under(paths, key));
}

/// The keys of the service unit differ from one another.
proof fn lemma_keys_differ()
    ensures
        "Description"@ != "Before"@,
        "Description"@ != "After"@,
        "Description"@ != "Conflicts"@,
        "Description"@ != "Requires"@,
        "Description"@ != "OnFailure"@,
        "Description"@ != "Type"@,
        "Description"@ != "ExecStart"@,
        "Description"@ != "ExecReload"@,
        "Description"@ != "ExecStop"@,
        "Description"@ != "Restart"@,
        "Description"@ != "RestartSec"@,
        "Description"@ != "User"@,
        "Description"@ != "Group"@,
        "Description"@ != "WantedBy"@,
        "Before"@ != "After"@,
        "Before"@ != "Conflicts"@,
        "Before"@ != "Requires"@,
        "Before"@ != "OnFailure"@,
        "Before"@ != "Type"@,
        "Before"@ != "ExecStart"@,
        "Before"@ != "ExecReload"@,
        "Before"@ != "ExecStop"@,
        "Before"@ != "Restart"@,
        "Before"@ != "RestartSec"@,
        "Before"@ != "User"@,
        "Before"@ != "Group"@,
        "Before"@ != "WantedBy"@,
        "After"@ != "Conflicts"@,
        "After"@ != "Requires"@,
        "After"@ != "OnFailure"@,
        "After"@ != "Type"@,
        "After"@ != "ExecStart"@,
        "After"@ != "ExecReload"@,
        "After"@ != "ExecStop"@,
        "After"@ != "Restart"@,
        "After"@ != "RestartSec"@,
        "After"@ != "User"@,
        "After"@ != "Group"@,
        "After"@ != "WantedBy"@,
        "Conflicts"@ != "Requires"@,
        "Conflicts"@ != "OnFailure"@,
        "Conflicts"@ != "Type"@,
        "Conflicts"@ != "ExecStart"@,
        "Conflicts"@ != "ExecReload"@,
        "Conflicts"@ != "ExecStop"@,
        "Conflicts"@ != "Restart"@,
        "Conflicts"@ != "RestartSec"@,
        "Conflicts"@ != "User"@,
        "Conflicts"@ != "Group"@,
        "Conflicts"@ != "WantedBy"@,
        "Requires"@ != "OnFailure"@,
        "Requires"@ != "Type"@,
        "Requires"@ != "ExecStart"@,
        "Requires"@ != "ExecReload"@,
        "Requires"@ != "ExecStop"@,
        "Requires"@ != "Restart"@,
        "Requires"@ != "RestartSec"@,
        "Requires"@ != "User"@,
        "Requires"@ != "Group"@,
        "Requires"@ != "WantedBy"@,
        "OnFailure"@ != "Type"@,
        "OnFailure"@ != "ExecStart"@,
        "OnFailure"@ != "ExecReload"@,
        "OnFailure"@ != "ExecStop"@,
        "OnFailure"@ != "Restart"@,
        "OnFailure"@ != "RestartSec"@,
        "OnFailure"@ != "User"@,
        "OnFailure"@ != "Group"@,
        "OnFailure"@ != "WantedBy"@,
        "Type"@ != "ExecStart"@,
        "Type"@ != "ExecReload"@,
        "Type"@ != "ExecStop"@,
        "Type"@ != "Restart"@,
        "Type"@ != "RestartSec"@,
        "Type"@ != "User"@,
        "Type"@ != "Group"@,
        "Type"@ != "WantedBy"@,
        "ExecStart"@ != "ExecReload"@,
        "ExecStart"@ != "ExecStop"@,
        "ExecStart"@ != "Restart"@,
        "ExecStart"@ != "RestartSec"@,
        "ExecStart"@ != "User"@,
        "ExecStart"@ != "Group"@,
        "ExecStart"@ != "WantedBy"@,
        "ExecReload"@ != "ExecStop"@,
        "ExecReload"@ != "Restart"@,
        "ExecReload"@ != "RestartSec"@,
        "ExecReload"@ != "User"@,
        "ExecReload"@ != "Group"@,
        "ExecReload"@ != "WantedBy"@,
        "ExecStop"@ != "Restart"@,
        "ExecStop"@ != "RestartSec"@,
        "ExecStop"@ != "User"@,
        "ExecStop"@ != "Group"@,
        "ExecStop"@ != "WantedBy"@,
        "Restart"@ != "RestartSec"@,
        "Restart"@ != "User"@,
        "Restart"@ != "Group"@,
        "Restart"@ != "WantedBy"@,
        "RestartSec"@ != "User"@,
        "RestartSec"@ != "Group"@,
        "RestartSec"@ != "WantedBy"@,
        "User"@ != "Group"@,
        "User"@ != "WantedBy"@,
        "Group"@ != "WantedBy"@,
{
    reveal_strlit("Description");
    reveal_strlit("Before");
    reveal_strlit("After");
    reveal_strlit("Conflicts");
    reveal_strlit("Requires");
    reveal_strlit("OnFailure");
    reveal_strlit("Type");
    reveal_strlit("ExecStart");
    reveal_strlit("ExecReload");
    reveal_strlit("ExecStop");
    reveal_strlit("Restart");
    reveal_strlit("RestartSec");
    reveal_strlit("User");
    reveal_strlit("Group");
    reveal_strlit("WantedBy");
    assert("Description"@.len() == 11);
    assert("Before"@.len() == 6);
    assert("After"@.len() == 5);
    assert("Conflicts"@.len() == 9);
    assert("Requires"@.len() == 8);
    assert("OnFailure"@.len() == 9);
    assert("Type"@.len() == 4);
    assert("ExecStart"@.len() == 9);
    assert("ExecReload"@.len() == 10);
    assert("ExecStop"@.len() == 8);
    assert("Restart"@.len() == 7);
    assert("RestartSec"@.len() == 10);
    assert("User"@.len() == 4);
    assert("Group"@.len() == 5);
    assert("WantedBy"@.len() == 8);
    assert("After"@[0] != "Group"@[0]);
    assert("Conflicts"@[0] != "OnFailure"@[0]);
    assert("Conflicts"@[0] != "ExecStart"@[0]);
    assert("Requires"@[0] != "ExecStop"@[0]);
    assert("Requires"@[0] != "WantedBy"@[0]);
    assert("OnFailure"@[0] != "ExecStart"@[0]);
    assert("Type"@[0] != "User"@[0]);
    assert("ExecReload"@[0] != "RestartSec"@[0]);
    assert("ExecStop"@[0] != "WantedBy"@[0]);
}

proof fn lemma_under_description(s: ServiceView, paths: ResolvedPathsView)
    ensures
        lines_with_key(s.service_lines(paths), "Description"@) == optional_directive("Description"@, s.description),
{
    lemma_names();
    lemma_keys_differ();
    lemma_service_lines_with_key(s, paths, "Description"@);
    assert(s.directives_under(paths, "Description"@) =~= optional_directive("Description"@, s.description));
}

proof fn lemma_under_before(s: ServiceView, paths: ResolvedPathsView)
    ensures
        lines_with_key(s.service_lines(paths), "Before"@) == repeated_directive("Before"@, s.before),
{
    lemma_names();
    lemma_keys_differ();
    lemma_service_lines_with_key(s, paths, "Before"@);
    assert(s.directives_under(paths, "Before"@) =~= repeated_directive("Before"@, s.before));
}

proof fn lemma_under_after(s: ServiceView, paths: ResolvedPathsView)
    ensures
        lines_with_key(s.service_lines(paths), "After"@) == repeated_directive("After"@, s.after),
{
    lemma_names();
    lemma_keys_differ();
    lemma_service_lines_with_key(s, paths, "After"@);
    assert(s.directives_under(paths, "After"@) =~= repeated_directive("After"@, s.after));
}

proof fn lemma_under_conflicts(s: ServiceView, paths: ResolvedPathsView)
    ensures
        lines_with_key(s.service_lines(paths), "Conflicts"@) == repeated_directive("Conflicts"@, s.conflicts),
{
    lemma_names();
    lemma_keys_differ();
    lemma_service_lines_with_key(s, paths, "Conflicts"@);
    assert(s.directives_under(paths, "Conflicts"@) =~= repeated_directive("Conflicts"@, s.conflicts));
}

proof fn lemma_under_requires(s: ServiceView, paths: ResolvedPathsView)
    ensures
        lines_with_key(s.service_lines(paths), "Requires"@) == repeated_directive("Requires"@, s.requires),
{
    lemma_names();
    lemma_keys_differ();
    lemma_service_lines_with_key(s, paths, "Requires"@);
    assert(s.directives_under(paths, "Requires"@) =~= repeated_directive("Requires"@, s.requires));
}

proof fn lemma_under_on_failure(s: ServiceView, paths: ResolvedPathsView)
    ensures
        lines_with_key(s.service_lines(paths), "OnFailure"@) == optional_directive("OnFailure"@, s.on_failure),
{
    lemma_names();
    lemma_keys_differ();
    lemma_service_lines_with_key(s, paths, "OnFailure"@);
    assert(s.directives_under(paths, "OnFailure"@) =~= optional_directive("OnFailure"@, s.on_failure));
}

proof fn lemma_under_type(s: ServiceView, paths: ResolvedPathsView)
    ensures
        lines_with_key(s.service_lines(paths), "Type"@) == seq![directive("Type"@, s.service_type.text())],
{
    lemma_names();
    lemma_keys_differ();
    lemma_service_lines_with_key(s, paths, "Type"@);
    assert(s.directives_under(paths, "Type"@) =~= seq![directive("Type"@, s.service_type.text())]);
}

proof fn lemma_under_exec_start(s: ServiceView, paths: ResolvedPathsView)
    ensures
        lines_with_key(s.service_lines(paths), "ExecStart"@) == seq![directive("ExecStart"@, paths.exec_start)],
{
    lemma_names();
    lemma_keys_differ();
    lemma_service_lines_with_key(s, paths, "ExecStart"@);
    assert(s.directives_under(paths, "ExecStart"@) =~= seq![directive("ExecStart"@, paths.exec_start)]);
}

proof fn lemma_under_exec_reload(s: ServiceView, paths: ResolvedPathsView)
    ensures
        lines_with_key(s.service_lines(paths), "ExecReload"@) == optional_directive("ExecReload"@, paths.exec_reload),
{
    lemma_names();
    lemma_keys_differ();
    lemma_service_lines_with_key(s, paths, "ExecReload"@);
    assert(s.directives_under(paths, "ExecReload"@) =~= optional_directive("ExecReload"@, paths.exec_reload));
}

proof fn lemma_under_exec_stop(s: ServiceView, paths: ResolvedPathsView)
    ensures
        lines_with_key(s.service_lines(paths), "ExecStop"@) == optional_directive("ExecStop"@, paths.exec_stop),
{
    lemma_names();
    lemma_keys_differ();
    lemma_service_lines_with_key(s, paths, "ExecStop"@);
    assert(s.directives_under(paths, "ExecStop"@) =~= optional_directive("ExecStop"@, paths.exec_stop));
}

proof fn lemma_under_restart(s: ServiceView, paths: ResolvedPathsView)
    ensures
        lines_with_key(s.service_lines(paths), "Restart"@) == optional_directive("Restart"@, s.restart_text()),
{
    lemma_names();
    lemma_keys_differ();
    lemma_service_lines_with_key(s, paths, "Restart"@);
    assert(s.directives_under(paths, "Restart"@) =~= optional_directive("Restart"@, s.restart_text()));
}

proof fn lemma_under_restart_sec(s: ServiceView, paths: ResolvedPathsView)
    ensures
        lines_with_key(s.service_lines(paths), "RestartSec"@) == optional_directive("RestartSec"@, s.restart_sec_text()),
{
    lemma_names();
    lemma_keys_differ();
    lemma_service_lines_with_key(s, paths, "RestartSec"@);
    assert(s.directives_under(paths, "RestartSec"@) =~= optional_directive("RestartSec"@, s.restart_sec_text()));
}

proof fn lemma_under_user(s: ServiceView, paths: ResolvedPathsView)
    ensures
        lines_with_key(s.service_lines(paths), "User"@) == optional_directive("User"@, s.user),
{
    lemma_names();
    lemma_keys_differ();
    lemma_service_lines_with_key(s, paths, "User"@);
    assert(s.directives_under(paths, "User"@) =~= optional_directive("User"@, s.user));
}

proof fn lemma_under_group(s: ServiceView, paths: ResolvedPathsView)
    ensures
        lines_with_key(s.service_lines(paths), "Group"@) == optional_directive("Group"@, s.group),
{
    lemma_names();
    lemma_keys_differ();
    lemma_service_lines_with_key(s, paths, "Group"@);
    assert(s.directives_under(paths, "Group"@) =~= optional_directive("Group"@, s.group));
}

proof fn lemma_under_wanted_by(s: ServiceView, paths: ResolvedPathsView)
    ensures
        lines_with_key(s.service_lines(paths), "WantedBy"@) == seq![directive("WantedBy"@, s.wanted_by)],
{
    lemma_names();
    lemma_keys_differ();
    lemma_service_lines_with_key(s, paths, "WantedBy"@);
    assert(s.directives_under(paths, "WantedBy"@) =~= seq![directive("WantedBy"@, s.wanted_by)]);
}

/// Each list option gives one line per value, in the order of its values,
/// and the unit holds no other line under its key.
pub proof fn lemma_list_directives_keep_order(s: ServiceView, paths: ResolvedPathsView)
    ensures
        lines_with_key(s.service_lines(paths), "Before"@) == repeated_directive("Before"@, s.before),
        lines_with_key(s.service_lines(paths), "After"@) == repeated_directive("After"@, s.after),
        lines_with_key(s.service_lines(paths), "Conflicts"@) == repeated_directive("Conflicts"@, s.conflicts),
        lines_with_key(s.service_lines(paths), "Requires"@) == repeated_directive("Requires"@, s.requires),
{
    lemma_under_before(s, paths);
    lemma_under_after(s, paths);
    lemma_under_conflicts(s, paths);
    lemma_under_requires(s, paths);
}

/// Each single option of the service unit gives exactly one line where it
/// is set and none where it is not, and the unit holds no other line under
/// its key. The type, the start command and the target always give their
/// line.
pub proof fn lemma_single_directives_appear_once(s: ServiceView, paths: ResolvedPathsView)
    ensures
        lines_with_key(s.service_lines(paths), "Description"@) == optional_directive("Description"@, s.description),
        lines_with_key(s.service_lines(paths), "OnFailure"@) == optional_directive("OnFailure"@, s.on_failure),
        lines_with_key(s.service_lines(paths), "Type"@) == seq![directive("Type"@, s.service_type.text())],
        lines_with_key(s.service_lines(paths), "ExecStart"@) == seq![directive("ExecStart"@, paths.exec_start)],
        lines_with_key(s.service_lines(paths), "ExecReload"@) == optional_directive("ExecReload"@, paths.exec_reload),
        lines_with_key(s.service_lines(paths), "ExecStop"@) == optional_directive("ExecStop"@, paths.exec_stop),
        lines_with_key(s.service_lines(paths), "Restart"@) == optional_directive("Restart"@, s.restart_text()),
        lines_with_key(s.service_lines(paths), "RestartSec"@) == optional_directive("RestartSec"@, s.restart_sec_text()),
        lines_with_key(s.service_lines(paths), "User"@) == optional_directive("User"@, s.user),
        lines_with_key(s.service_lines(paths), "Group"@) == optional_directive("Group"@, s.group),
        lines_with_key(s.service_lines(paths), "WantedBy"@) == seq![directive("WantedBy"@, s.wanted_by)],
{
    lemma_under_description(s, paths);
    lemma_under_on_failure(s, paths);
    lemma_under_type(s, paths);
    lemma_under_exec_start(s, paths);
    lemma_under_exec_reload(s, paths);
    lemma_under_exec_stop(s, paths);
    lemma_under_restart(s, paths);
    lemma_under_restart_sec(s, paths);
    lemma_under_user(s, paths);
    lemma_under_group(s, paths);
    lemma_under_wanted_by(s, paths);
}

} // verus!
