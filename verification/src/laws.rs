//! What holds of every rendering and of every check.

use crate::decimal::{decimal, lemma_decimal_is_digits};
use crate::kinds::is_tag;
use crate::options::{ServiceView, ValidationError};
use crate::render::{bool_text, blank, directive, optional_directive, repeated_directive};
use crate::resolve::ResolvedPathsView;
use crate::sections::{
    begins_no_section, continuation_lines, entry_headers, headers_among, is_section_header,
    is_single_line, lemma_entry_headers_concat, lemma_entry_headers_single,
    lemma_headers_among_concat, lemma_headers_among_single, lemma_section_headers_of_join,
    lemma_single_line_begins_no_section, lemma_single_line_entry_headers, lemma_split_after_pending,
    lemma_split_after_prefix, section_headers, split_after, split_lines,
};
use vstd::prelude::*;

verus! {

/// Whether `key` can stand before the `=` of a directive: it is not empty,
/// holds no line feed and does not open with `[`.
pub open spec fn is_key(key: Seq<char>) -> bool {
    key.len() > 0 && key[0] != '[' && is_single_line(key)
}

/// Whether an optional value, where present, begins no section.
pub open spec fn option_begins_no_section(value: Option<Seq<char>>) -> bool {
    match value {
        Some(value) => begins_no_section(value),
        None => true,
    }
}

/// Whether none of `values` begins a section.
pub open spec fn all_begin_no_section(values: Seq<Seq<char>>) -> bool {
    forall|i: int| 0 <= i < values.len() ==> begins_no_section(#[trigger] values[i])
}

impl ServiceView {
    /// Whether no value of the record that the service unit shows begins a
    /// section of its own.
    pub open spec fn service_values_begin_no_section(self) -> bool {
        &&& option_begins_no_section(self.description)
        &&& all_begin_no_section(self.before)
        &&& all_begin_no_section(self.after)
        &&& all_begin_no_section(self.conflicts)
        &&& all_begin_no_section(self.requires)
        &&& option_begins_no_section(self.on_failure)
        &&& option_begins_no_section(self.user)
        &&& option_begins_no_section(self.group)
        &&& begins_no_section(self.wanted_by)
    }

    /// Whether no value of the record that the timer unit shows begins a
    /// section of its own.
    pub open spec fn timer_values_begin_no_section(self) -> bool {
        &&& option_begins_no_section(self.on_calendar)
        &&& option_begins_no_section(self.on_unit_active_sec)
        &&& option_begins_no_section(self.on_unit_inactive_sec)
    }
}

impl ResolvedPathsView {
    /// Whether none of the command paths begins a section of its own.
    pub open spec fn begin_no_section(self) -> bool {
        &&& begins_no_section(self.exec_start)
        &&& option_begins_no_section(self.exec_reload)
        &&& option_begins_no_section(self.exec_stop)
    }
}

/// A directive gives the headers that its value begins after its first
/// line, and no other: its own first line opens with the key.
pub proof fn lemma_directive_headers(key: Seq<char>, value: Seq<char>)
    requires
        is_key(key),
    ensures
        section_headers(directive(key, value) + seq!['\n']) == headers_among(
            continuation_lines(value),
        ),
{
    let opening = key + seq!['='];
    let rest = value + seq!['\n'];
    let none = Seq::<char>::empty();
    assert(directive(key, value) + seq!['\n'] =~= opening + rest);
    assert(is_single_line(opening));
    lemma_split_after_prefix(none, opening, rest);
    assert(none + opening =~= opening);
    lemma_split_after_pending(opening, rest);
    let lines = split_after(opening, rest);
    let first = lines[0];
    assert(first == opening + split_lines(rest)[0]);
    assert(first[0] == key[0]);
    assert(!is_section_header(first));
    assert(lines =~= seq![first] + lines.drop_first());
    lemma_headers_among_concat(seq![first], lines.drop_first());
    lemma_headers_among_single(first);
    assert(headers_among(lines) =~= headers_among(continuation_lines(value)));
}

/// A directive whose value holds no line feed gives no header.
proof fn lemma_plain_directive_headers(key: Seq<char>, value: Seq<char>)
    requires
        is_key(key),
        is_single_line(value),
    ensures
        entry_headers(seq![directive(key, value)]).len() == 0,
{
    lemma_entry_headers_single(directive(key, value));
    lemma_directive_headers(key, value);
    lemma_single_line_begins_no_section(value);
}

/// A section header without line feed gives itself.
proof fn lemma_header_entry(header: Seq<char>)
    requires
        is_single_line(header),
        is_section_header(header),
    ensures
        entry_headers(seq![header]) == seq![header],
{
    lemma_entry_headers_single(header);
    lemma_single_line_entry_headers(header);
}

/// A blank line gives no header.
proof fn lemma_blank_entry()
    ensures
        entry_headers(seq![blank()]).len() == 0,
{
    lemma_entry_headers_single(blank());
    lemma_single_line_entry_headers(blank());
}

/// An optional directive gives no header exactly if its value, where
/// present, begins no section.
proof fn lemma_optional_headers(key: Seq<char>, value: Option<Seq<char>>)
    requires
        is_key(key),
    ensures
        entry_headers(optional_directive(key, value)).len() == 0 <==> option_begins_no_section(
            value,
        ),
{
    match value {
        Some(value) => {
            lemma_entry_headers_single(directive(key, value));
            lemma_directive_headers(key, value);
        },
        None => {},
    }
}

/// A repeated directive gives no header exactly if none of its values
/// begins a section.
proof fn lemma_repeated_headers(key: Seq<char>, values: Seq<Seq<char>>)
    requires
        is_key(key),
    ensures
        entry_headers(repeated_directive(key, values)).len() == 0 <==> all_begin_no_section(values),
    decreases values.len(),
{
    let entries = repeated_directive(key, values);
    if values.len() > 0 {
        let front = values.drop_last();
        lemma_repeated_headers(key, front);
        assert(entries.drop_last() =~= repeated_directive(key, front));
        assert(entries.last() == directive(key, values.last()));
        lemma_directive_headers(key, values.last());
        assert(entry_headers(entries) == entry_headers(repeated_directive(key, front))
            + headers_among(continuation_lines(values.last())));
        if all_begin_no_section(values) {
            assert(begins_no_section(values[values.len() - 1]));
            assert forall|i: int| 0 <= i < front.len() implies begins_no_section(
                #[trigger] front[i],
            ) by {
                assert(front[i] == values[i]);
            }
        }
        if entry_headers(entries).len() == 0 {
            assert forall|i: int| 0 <= i < values.len() implies begins_no_section(
                #[trigger] values[i],
            ) by {
                if i < values.len() - 1 {
                    assert(values[i] == front[i]);
                }
            }
        }
    }
}

/// The keys of all directives are keys.
proof fn lemma_keys()
    ensures
        is_key("Description"@),
        is_key("Before"@),
        is_key("After"@),
        is_key("Conflicts"@),
        is_key("Requires"@),
        is_key("OnFailure"@),
        is_key("Type"@),
        is_key("ExecStart"@),
        is_key("ExecReload"@),
        is_key("ExecStop"@),
        is_key("Restart"@),
        is_key("RestartSec"@),
        is_key("User"@),
        is_key("Group"@),
        is_key("WantedBy"@),
        is_key("OnCalendar"@),
        is_key("OnUnitActiveSec"@),
        is_key("OnUnitInactiveSec"@),
        is_key("Persistent"@),
{
    reveal_strlit("Description");
    reveal_strlit("Before");
    reveal_strlit("After");
    reveal_strlit("Conflicts");
    reveal_strlit("Requires");
    reveal_strlit("OnFailure");
    reveal_strlit("Type");
    reveal_strlit("ExecStart");
    reveal_strlit("ExecReload");
    reveal_strlit("ExecStop");
    reveal_strlit("Restart");
    reveal_strlit("RestartSec");
    reveal_strlit("User");
    reveal_strlit("Group");
    reveal_strlit("WantedBy");
    reveal_strlit("OnCalendar");
    reveal_strlit("OnUnitActiveSec");
    reveal_strlit("OnUnitInactiveSec");
    reveal_strlit("Persistent");
}

/// The four section headers are headers without line feed, and each gives
/// itself.
proof fn lemma_headers()
    ensures
        entry_headers(seq!["[Unit]"@]) == seq!["[Unit]"@],
        entry_headers(seq!["[Service]"@]) == seq!["[Service]"@],
        entry_headers(seq!["[Install]"@]) == seq!["[Install]"@],
        entry_headers(seq!["[Timer]"@]) == seq!["[Timer]"@],
{
    reveal_strlit("[Unit]");
    reveal_strlit("[Service]");
    reveal_strlit("[Install]");
    reveal_strlit("[Timer]");
    lemma_header_entry("[Unit]"@);
    lemma_header_entry("[Service]"@);
    lemma_header_entry("[Install]"@);
    lemma_header_entry("[Timer]"@);
}

/// A tag holds no line feed.
proof fn lemma_tag_is_single_line(tag: Seq<char>)
    requires
        is_tag(tag),
    ensures
        is_single_line(tag),
{
}

/// The `[Unit]` section of the service unit gives its own header and what
/// its values begin.
proof fn lemma_unit_section_headers(s: ServiceView) -> (extra: Seq<Seq<char>>)
    ensures
        entry_headers(s.unit_section()) == seq!["[Unit]"@] + extra,
        extra.len() == 0 <==> {
            &&& option_begins_no_section(s.description)
            &&& all_begin_no_section(s.before)
            &&& all_begin_no_section(s.after)
            &&& all_begin_no_section(s.conflicts)
            &&& all_begin_no_section(s.requires)
            &&& option_begins_no_section(s.on_failure)
        },
{
    lemma_keys();
    lemma_headers();
    let a0 = seq!["[Unit]"@];
    let a1 = optional_directive("Description"@, s.description);
    let a2 = repeated_directive("Before"@, s.before);
    let a3 = repeated_directive("After"@, s.after);
    let a4 = repeated_directive("Conflicts"@, s.conflicts);
    let a5 = repeated_directive("Requires"@, s.requires);
    let a6 = optional_directive("OnFailure"@, s.on_failure);
    lemma_optional_headers("Description"@, s.description);
    lemma_repeated_headers("Before"@, s.before);
    lemma_repeated_headers("After"@, s.after);
    lemma_repeated_headers("Conflicts"@, s.conflicts);
    lemma_repeated_headers("Requires"@, s.requires);
    lemma_optional_headers("OnFailure"@, s.on_failure);
    lemma_entry_headers_concat(a0, a1);
    lemma_entry_headers_concat(a0 + a1, a2);
    lemma_entry_headers_concat(a0 + a1 + a2, a3);
    lemma_entry_headers_concat(a0 + a1 + a2 + a3, a4);
    lemma_entry_headers_concat(a0 + a1 + a2 + a3 + a4, a5);
    lemma_entry_headers_concat(a0 + a1 + a2 + a3 + a4 + a5, a6);
    let extra = entry_headers(a1) + entry_headers(a2) + entry_headers(a3) + entry_headers(a4)
        + entry_headers(a5) + entry_headers(a6);
    assert(s.unit_section() == a0 + a1 + a2 + a3 + a4 + a5 + a6);
    assert(entry_headers(s.unit_section()) =~= seq!["[Unit]"@] + extra);
    extra
}

/// The `[Service]` section gives its own header and what its values begin.
proof fn lemma_service_section_headers(s: ServiceView, p: ResolvedPathsView) -> (extra: Seq<
    Seq<char>,
>)
    ensures
        entry_headers(s.service_section(p)) == seq!["[Service]"@] + extra,
        extra.len() == 0 <==> {
            &&& p.begin_no_section()
            &&& option_begins_no_section(s.user)
            &&& option_begins_no_section(s.group)
        },
{
    lemma_keys();
    lemma_headers();
    let h = seq!["[Service]"@];
    let t = seq![directive("Type"@, s.service_type.text())];
    let e = seq![directive("ExecStart"@, p.exec_start)];
    let a0 = seq![
        "[Service]"@,
        directive("Type"@, s.service_type.text()),
        directive("ExecStart"@, p.exec_start),
    ];
    let a1 = optional_directive("ExecReload"@, p.exec_reload);
    let a2 = optional_directive("ExecStop"@, p.exec_stop);
    let a3 = optional_directive("Restart"@, s.restart_text());
    let a4 = optional_directive("RestartSec"@, s.restart_sec_text());
    let a5 = optional_directive("User"@, s.user);
    let a6 = optional_directive("Group"@, s.group);

    assert(a0 =~= h + t + e);
    lemma_entry_headers_concat(h, t);
    lemma_entry_headers_concat(h + t, e);
    s.service_type.lemma_text_is_tag();
    lemma_tag_is_single_line(s.service_type.text());
    lemma_plain_directive_headers("Type"@, s.service_type.text());
    lemma_entry_headers_single(directive("ExecStart"@, p.exec_start));
    lemma_directive_headers("ExecStart"@, p.exec_start);

    lemma_optional_headers("ExecReload"@, p.exec_reload);
    lemma_optional_headers("ExecStop"@, p.exec_stop);
    lemma_optional_headers("Restart"@, s.restart_text());
    lemma_optional_headers("RestartSec"@, s.restart_sec_text());
    lemma_optional_headers("User"@, s.user);
    lemma_optional_headers("Group"@, s.group);
    assert(option_begins_no_section(s.restart_text())) by {
        if let Some(policy) = s.restart {
            policy.lemma_text_is_tag();
            lemma_tag_is_single_line(policy.text());
            lemma_single_line_begins_no_section(policy.text());
        }
    }
    assert(option_begins_no_section(s.restart_sec_text())) by {
        if let Some(seconds) = s.restart_sec {
            lemma_decimal_is_digits(seconds);
            lemma_single_line_begins_no_section(decimal(seconds));
        }
    }

    lemma_entry_headers_concat(a0, a1);
    lemma_entry_headers_concat(a0 + a1, a2);
    lemma_entry_headers_concat(a0 + a1 + a2, a3);
    lemma_entry_headers_concat(a0 + a1 + a2 + a3, a4);
    lemma_entry_headers_concat(a0 + a1 + a2 + a3 + a4, a5);
    lemma_entry_headers_concat(a0 + a1 + a2 + a3 + a4 + a5, a6);
    let extra = entry_headers(t) + entry_headers(e) + entry_headers(a1) + entry_headers(a2)
        + entry_headers(a3) + entry_headers(a4) + entry_headers(a5) + entry_headers(a6);
    assert(s.service_section(p) == a0 + a1 + a2 + a3 + a4 + a5 + a6);
    assert(entry_headers(s.service_section(p)) =~= seq!["[Service]"@] + extra);
    extra
}

/// The `[Install]` section of the service unit gives its own header and
/// what the target begins.
proof fn lemma_install_section_headers(s: ServiceView) -> (extra: Seq<Seq<char>>)
    ensures
        entry_headers(s.install_section()) == seq!["[Install]"@] + extra,
        extra.len() == 0 <==> begins_no_section(s.wanted_by),
{
    lemma_keys();
    lemma_headers();
    let h = seq!["[Install]"@];
    let w = seq![directive("WantedBy"@, s.wanted_by)];
    assert(s.install_section() =~= h + w);
    lemma_entry_headers_concat(h, w);
    lemma_entry_headers_single(directive("WantedBy"@, s.wanted_by));
    lemma_directive_headers("WantedBy"@, s.wanted_by);
    entry_headers(w)
}

/// The section headers of the service unit are `[Unit]`, `[Service]` and
/// `[Install]`, in this order and no others, exactly if no value shown in
/// it begins a section of its own.
proof fn lemma_service_headers_exactly(s: ServiceView, paths: ResolvedPathsView)
    ensures
        section_headers(s.service_text(paths)) == seq!["[Unit]"@, "[Service]"@, "[Install]"@]
            <==> s.service_values_begin_no_section() && paths.begin_no_section(),
{
    let unit = s.unit_section();
    let service = s.service_section(paths);
    let install = s.install_section();
    let gap = seq![blank()];
    let e1 = lemma_unit_section_headers(s);
    let e2 = lemma_service_section_headers(s, paths);
    let e3 = lemma_install_section_headers(s);
    lemma_blank_entry();
    lemma_section_headers_of_join(s.service_lines(paths));
    lemma_entry_headers_concat(unit, gap);
    lemma_entry_headers_concat(unit + gap, service);
    lemma_entry_headers_concat(unit + gap + service, gap);
    lemma_entry_headers_concat(unit + gap + service + gap, install);
    let found = section_headers(s.service_text(paths));
    let expected = seq!["[Unit]"@, "[Service]"@, "[Install]"@];
    assert(found =~= seq!["[Unit]"@] + e1 + entry_headers(gap) + (seq!["[Service]"@] + e2)
        + entry_headers(gap) + (seq!["[Install]"@] + e3));
    assert(found.len() == 3 + e1.len() + e2.len() + e3.len());
    if e1.len() == 0 && e2.len() == 0 && e3.len() == 0 {
        assert(found =~= expected);
    }
}

/// The `[Timer]` section gives its own header and what its values begin.
proof fn lemma_timer_section_headers(s: ServiceView) -> (extra: Seq<Seq<char>>)
    ensures
        entry_headers(s.timer_section()) == seq!["[Timer]"@] + extra,
        extra.len() == 0 <==> s.timer_values_begin_no_section(),
{
    lemma_keys();
    lemma_headers();
    let a0 = seq!["[Timer]"@];
    let a1 = optional_directive("OnCalendar"@, s.on_calendar);
    let a2 = optional_directive("OnUnitActiveSec"@, s.on_unit_active_sec);
    let a3 = optional_directive("OnUnitInactiveSec"@, s.on_unit_inactive_sec);
    let a4 = seq![directive("Persistent"@, bool_text(s.persistent))];
    lemma_optional_headers("OnCalendar"@, s.on_calendar);
    lemma_optional_headers("OnUnitActiveSec"@, s.on_unit_active_sec);
    lemma_optional_headers("OnUnitInactiveSec"@, s.on_unit_inactive_sec);
    assert(is_single_line(bool_text(s.persistent))) by {
        reveal_strlit("true");
        reveal_strlit("false");
    }
    lemma_plain_directive_headers("Persistent"@, bool_text(s.persistent));
    lemma_entry_headers_concat(a0, a1);
    lemma_entry_headers_concat(a0 + a1, a2);
    lemma_entry_headers_concat(a0 + a1 + a2, a3);
    lemma_entry_headers_concat(a0 + a1 + a2 + a3, a4);
    let extra = entry_headers(a1) + entry_headers(a2) + entry_headers(a3) + entry_headers(a4);
    assert(s.timer_section() == a0 + a1 + a2 + a3 + a4);
    assert(entry_headers(s.timer_section()) =~= seq!["[Timer]"@] + extra);
    extra
}

/// The section headers of the timer unit are `[Unit]`, `[Timer]` and
/// `[Install]`, in this order and no others, exactly if no value shown in
/// it begins a section of its own.
proof fn lemma_timer_headers_exactly(s: ServiceView)
    ensures
        section_headers(s.timer_text()) == seq!["[Unit]"@, "[Timer]"@, "[Install]"@]
            <==> s.timer_values_begin_no_section(),
{
    lemma_keys();
    lemma_headers();
    lemma_blank_entry();
    let unit = seq!["[Unit]"@];
    let gap = seq![blank()];
    let timer = s.timer_section();
    let install = seq!["[Install]"@];
    let target = seq![directive("WantedBy"@, "timers.target"@)];
    let extra = lemma_timer_section_headers(s);
    assert(is_single_line("timers.target"@)) by {
        reveal_strlit("timers.target");
    }
    lemma_plain_directive_headers("WantedBy"@, "timers.target"@);
    assert(s.timer_lines() =~= unit + gap + timer + gap + install + target);
    lemma_section_headers_of_join(s.timer_lines());
    lemma_entry_headers_concat(unit, gap);
    lemma_entry_headers_concat(unit + gap, timer);
    lemma_entry_headers_concat(unit + gap + timer, gap);
    lemma_entry_headers_concat(unit + gap + timer + gap, install);
    lemma_entry_headers_concat(unit + gap + timer + gap + install, target);
    let found = section_headers(s.timer_text());
    assert(found =~= unit + entry_headers(gap) + (seq!["[Timer]"@] + extra) + entry_headers(gap)
        + install + entry_headers(target));
    assert(found.len() == 3 + extra.len());
    if extra.len() == 0 {
        assert(found =~= seq!["[Unit]"@, "[Timer]"@, "[Install]"@]);
    }
}

/// Every service unit opens with the line `[Unit]`.
pub proof fn lemma_service_text_opens_with_unit(s: ServiceView, paths: ResolvedPathsView)
    ensures
        "[Unit]\n"@.is_prefix_of(s.service_text(paths)),
{
    reveal_strlit("[Unit]\n");
    reveal_strlit("[Unit]");
    let lines = s.service_lines(paths);
    let head = seq!["[Unit]"@];
    assert(lines.len() > 0 && lines[0] == "[Unit]"@);
    assert(lines =~= head + lines.drop_first());
    crate::lines::lemma_join_lines_concat(head, lines.drop_first());
    crate::lines::lemma_join_lines_single("[Unit]"@);
    let text = s.service_text(paths);
    assert(text == "[Unit]"@ + seq!['\n'] + crate::lines::join_lines(lines.drop_first()));
    assert("[Unit]\n"@ =~= text.subrange(0, 7));
}

/// Every timer unit opens with the line `[Unit]`.
pub proof fn lemma_timer_text_opens_with_unit(s: ServiceView)
    ensures
        "[Unit]\n"@.is_prefix_of(s.timer_text()),
{
    reveal_strlit("[Unit]\n");
    reveal_strlit("[Unit]");
    let lines = s.timer_lines();
    let head = seq!["[Unit]"@];
    assert(lines.len() > 0 && lines[0] == "[Unit]"@);
    assert(lines =~= head + lines.drop_first());
    crate::lines::lemma_join_lines_concat(head, lines.drop_first());
    crate::lines::lemma_join_lines_single("[Unit]"@);
    let text = s.timer_text();
    assert(text == "[Unit]"@ + seq!['\n'] + crate::lines::join_lines(lines.drop_first()));
    assert("[Unit]\n"@ =~= text.subrange(0, 7));
}

/// A service unit whose values begin no section of their own has exactly
/// three section headers: `[Unit]`, `[Service]` and `[Install]`, in this
/// order.
pub proof fn lemma_service_sections(s: ServiceView, paths: ResolvedPathsView)
    requires
        s.service_values_begin_no_section(),
        paths.begin_no_section(),
    ensures
        section_headers(s.service_text(paths)) == seq!["[Unit]"@, "[Service]"@, "[Install]"@],
{
    lemma_service_headers_exactly(s, paths);
}

/// A service unit with exactly the three section headers `[Unit]`,
/// `[Service]` and `[Install]` comes from values that begin no section of
/// their own: any other record gives a unit with more headers.
pub proof fn lemma_service_sections_converse(s: ServiceView, paths: ResolvedPathsView)
    requires
        section_headers(s.service_text(paths)) == seq!["[Unit]"@, "[Service]"@, "[Install]"@],
    ensures
        s.service_values_begin_no_section(),
        paths.begin_no_section(),
{
    lemma_service_headers_exactly(s, paths);
}

/// A timer unit whose values begin no section of their own has exactly
/// three section headers: `[Unit]`, `[Timer]` and `[Install]`, in this
/// order.
pub proof fn lemma_timer_sections(s: ServiceView)
    requires
        s.timer_values_begin_no_section(),
    ensures
        section_headers(s.timer_text()) == seq!["[Unit]"@, "[Timer]"@, "[Install]"@],
{
    lemma_timer_headers_exactly(s);
}

/// A timer unit with exactly the three section headers `[Unit]`, `[Timer]`
/// and `[Install]` comes from values that begin no section of their own.
pub proof fn lemma_timer_sections_converse(s: ServiceView)
    requires
        section_headers(s.timer_text()) == seq!["[Unit]"@, "[Timer]"@, "[Install]"@],
    ensures
        s.timer_values_begin_no_section(),
{
    lemma_timer_headers_exactly(s);
}

/// Rendering is repeatable: records of the same value, with command paths
/// of the same value, give the same units, character by character.
pub proof fn lemma_rendering_is_repeatable(
    first: crate::options::Service,
    second: crate::options::Service,
    first_paths: crate::resolve::ResolvedPaths,
    second_paths: crate::resolve::ResolvedPaths,
)
    requires
        first@ == second@,
        first_paths@ == second_paths@,
    ensures
        first@.service_text(first_paths@) == second@.service_text(second_paths@),
        first@.timer_text() == second@.timer_text(),
        first@.artifacts(first_paths@) == second@.artifacts(second_paths@),
{
}

/// A record that asks for no timer has no timer file, and its timer
/// options are not checked: whether it is accepted depends on the start
/// command alone.
pub proof fn lemma_no_timer_without_request(
    s: ServiceView,
    exec_start_exists: bool,
    paths: ResolvedPathsView,
)
    requires
        !s.timer_enabled,
    ensures
        s.artifacts(paths) == seq![s.service_artifact(paths)],
        s.timer_check() is Ok,
        s.validation(exec_start_exists) == s.exec_start_check(exec_start_exists),
        s.validation(exec_start_exists) is Ok <==> exec_start_exists || s.skip_exec_check,
{
}

/// A start command that does not exist, with its check not skipped, is
/// refused as `ExecutableNotFound`, whatever else the record holds.
pub proof fn lemma_missing_executable_is_refused(s: ServiceView)
    requires
        !s.skip_exec_check,
    ensures
        s.exec_start_check(false) == Err::<(), ValidationError>(
            ValidationError::ExecutableNotFound,
        ),
        s.validation(false) == Err::<(), ValidationError>(ValidationError::ExecutableNotFound),
{
}

/// A requested timer without calendar expression fails the timer check as
/// `MissingCalendarSpec`; the record as a whole is refused with that error
/// where the check of the start command passes, which comes first.
pub proof fn lemma_missing_calendar_is_refused(s: ServiceView, exec_start_exists: bool)
    requires
        s.timer_enabled,
        s.on_calendar is None,
    ensures
        s.timer_check() == Err::<(), ValidationError>(ValidationError::MissingCalendarSpec),
        s.validation(exec_start_exists) is Err,
        exec_start_exists || s.skip_exec_check ==> s.validation(exec_start_exists) == Err::<
            (),
            ValidationError,
        >(ValidationError::MissingCalendarSpec),
{
}

/// A record that passes both checks has a start command that exists,
/// unless that check is skipped, and holds a calendar expression wherever
/// it asks for a timer: with a name, it is well formed.
pub proof fn lemma_accepted_record(s: ServiceView, exec_start_exists: bool)
    requires
        s.validation(exec_start_exists) is Ok,
    ensures
        exec_start_exists || s.skip_exec_check,
        s.timer_enabled ==> s.on_calendar is Some,
        s.name.len() > 0 ==> s.well_formed(),
{
}

/// Whether none of `lines` holds a line feed.
pub open spec fn all_single_line(lines: Seq<Seq<char>>) -> bool {
    forall|i: int| 0 <= i < lines.len() ==> is_single_line(#[trigger] lines[i])
}

/// Whether an optional value, where present, holds no line feed.
pub open spec fn option_single_line(value: Option<Seq<char>>) -> bool {
    match value {
        Some(value) => is_single_line(value),
        None => true,
    }
}

impl ServiceView {
    /// Whether no value of the record that the service unit shows holds a
    /// line feed.
    pub open spec fn service_values_single_line(self) -> bool {
        &&& option_single_line(self.description)
        &&& all_single_line(self.before)
        &&& all_single_line(self.after)
        &&& all_single_line(self.conflicts)
        &&& all_single_line(self.requires)
        &&& option_single_line(self.on_failure)
        &&& option_single_line(self.user)
        &&& option_single_line(self.group)
        &&& is_single_line(self.wanted_by)
    }

    /// Whether no value of the record that the timer unit shows holds a
    /// line feed.
    pub open spec fn timer_values_single_line(self) -> bool {
        &&& option_single_line(self.on_calendar)
        &&& option_single_line(self.on_unit_active_sec)
        &&& option_single_line(self.on_unit_inactive_sec)
    }
}

impl ResolvedPathsView {
    /// Whether none of the command paths holds a line feed.
    pub open spec fn single_line(self) -> bool {
        &&& is_single_line(self.exec_start)
        &&& option_single_line(self.exec_reload)
        &&& option_single_line(self.exec_stop)
    }
}

/// A directive of a value without line feed is a single line.
proof fn lemma_directive_single_line(key: Seq<char>, value: Seq<char>)
    requires
        is_key(key),
        is_single_line(value),
    ensures
        is_single_line(directive(key, value)),
{
}

proof fn lemma_optional_single_line(key: Seq<char>, value: Option<Seq<char>>)
    requires
        is_key(key),
        option_single_line(value),
    ensures
        all_single_line(optional_directive(key, value)),
{
    if let Some(value) = value {
        lemma_directive_single_line(key, value);
    }
}

proof fn lemma_repeated_single_line(key: Seq<char>, values: Seq<Seq<char>>)
    requires
        is_key(key),
        all_single_line(values),
    ensures
        all_single_line(repeated_directive(key, values)),
{
    let entries = repeated_directive(key, values);
    assert forall|i: int| 0 <= i < entries.len() implies is_single_line(#[trigger] entries[i]) by {
        assert(is_single_line(values[i]));
        lemma_directive_single_line(key, values[i]);
    }
}

proof fn lemma_concat_single_line(front: Seq<Seq<char>>, back: Seq<Seq<char>>)
    requires
        all_single_line(front),
        all_single_line(back),
    ensures
        all_single_line(front + back),
{
    let whole = front + back;
    assert forall|i: int| 0 <= i < whole.len() implies is_single_line(#[trigger] whole[i]) by {
        if i < front.len() {
            assert(whole[i] == front[i]);
        } else {
            assert(whole[i] == back[i - front.len()]);
        }
    }
}

proof fn lemma_one_single_line(line: Seq<char>)
    requires
        is_single_line(line),
    ensures
        all_single_line(seq![line]),
{
}

/// The section headers hold no line feed.
proof fn lemma_headers_single_line()
    ensures
        is_single_line("[Unit]"@),
        is_single_line("[Service]"@),
        is_single_line("[Install]"@),
        is_single_line("[Timer]"@),
        is_single_line(blank()),
{
    reveal_strlit("[Unit]");
    reveal_strlit("[Service]");
    reveal_strlit("[Install]");
    reveal_strlit("[Timer]");
}

proof fn lemma_unit_section_single_line(s: ServiceView)
    requires
        s.service_values_single_line(),
    ensures
        all_single_line(s.unit_section()),
{
    lemma_keys();
    lemma_headers_single_line();
    let a0 = seq!["[Unit]"@];
    let a1 = optional_directive("Description"@, s.description);
    let a2 = repeated_directive("Before"@, s.before);
    let a3 = repeated_directive("After"@, s.after);
    let a4 = repeated_directive("Conflicts"@, s.conflicts);
    let a5 = repeated_directive("Requires"@, s.requires);
    let a6 = optional_directive("OnFailure"@, s.on_failure);
    lemma_one_single_line("[Unit]"@);
    lemma_optional_single_line("Description"@, s.description);
    lemma_repeated_single_line("Before"@, s.before);
    lemma_repeated_single_line("After"@, s.after);
    lemma_repeated_single_line("Conflicts"@, s.conflicts);
    lemma_repeated_single_line("Requires"@, s.requires);
    lemma_optional_single_line("OnFailure"@, s.on_failure);
    lemma_concat_single_line(a0, a1);
    lemma_concat_single_line(a0 + a1, a2);
    lemma_concat_single_line(a0 + a1 + a2, a3);
    lemma_concat_single_line(a0 + a1 + a2 + a3, a4);
    lemma_concat_single_line(a0 + a1 + a2 + a3 + a4, a5);
    lemma_concat_single_line(a0 + a1 + a2 + a3 + a4 + a5, a6);
}

proof fn lemma_service_section_single_line(s: ServiceView, p: ResolvedPathsView)
    requires
        s.service_values_single_line(),
        p.single_line(),
    ensures
        all_single_line(s.service_section(p)),
{
    lemma_keys();
    lemma_headers_single_line();
    let a0 = seq![
        "[Service]"@,
        directive("Type"@, s.service_type.text()),
        directive("ExecStart"@, p.exec_start),
    ];
    let a1 = optional_directive("ExecReload"@, p.exec_reload);
    let a2 = optional_directive("ExecStop"@, p.exec_stop);
    let a3 = optional_directive("Restart"@, s.restart_text());
    let a4 = optional_directive("RestartSec"@, s.restart_sec_text());
    let a5 = optional_directive("User"@, s.user);
    let a6 = optional_directive("Group"@, s.group);
    s.service_type.lemma_text_is_tag();
    lemma_tag_is_single_line(s.service_type.text());
    lemma_directive_single_line("Type"@, s.service_type.text());
    lemma_directive_single_line("ExecStart"@, p.exec_start);
    assert(all_single_line(a0));
    assert(option_single_line(s.restart_text())) by {
        if let Some(policy) = s.restart {
            policy.lemma_text_is_tag();
            lemma_tag_is_single_line(policy.text());
        }
    }
    assert(option_single_line(s.restart_sec_text())) by {
        if let Some(seconds) = s.restart_sec {
            lemma_decimal_is_digits(seconds);
        }
    }
    lemma_optional_single_line("ExecReload"@, p.exec_reload);
    lemma_optional_single_line("ExecStop"@, p.exec_stop);
    lemma_optional_single_line("Restart"@, s.restart_text());
    lemma_optional_single_line("RestartSec"@, s.restart_sec_text());
    lemma_optional_single_line("User"@, s.user);
    lemma_optional_single_line("Group"@, s.group);
    lemma_concat_single_line(a0, a1);
    lemma_concat_single_line(a0 + a1, a2);
    lemma_concat_single_line(a0 + a1 + a2, a3);
    lemma_concat_single_line(a0 + a1 + a2 + a3, a4);
    lemma_concat_single_line(a0 + a1 + a2 + a3 + a4, a5);
    lemma_concat_single_line(a0 + a1 + a2 + a3 + a4 + a5, a6);
}

/// A service unit whose values hold no line feed reads back as the lines
/// it was made of: every directive is one line, the lines of a repeated
/// directive stand in the order of its values, and nothing else is in the
/// text.
pub proof fn lemma_service_text_reads_back(s: ServiceView, paths: ResolvedPathsView)
    requires
        s.service_values_single_line(),
        paths.single_line(),
    ensures
        split_lines(s.service_text(paths)) == s.service_lines(paths),
{
    lemma_keys();
    lemma_headers_single_line();
    let unit = s.unit_section();
    let service = s.service_section(paths);
    let install = s.install_section();
    let gap = seq![blank()];
    lemma_unit_section_single_line(s);
    lemma_service_section_single_line(s, paths);
    lemma_directive_single_line("WantedBy"@, s.wanted_by);
    assert(all_single_line(install));
    lemma_one_single_line(blank());
    lemma_concat_single_line(unit, gap);
    lemma_concat_single_line(unit + gap, service);
    lemma_concat_single_line(unit + gap + service, gap);
    lemma_concat_single_line(unit + gap + service + gap, install);
    crate::sections::lemma_split_join_round_trip(s.service_lines(paths));
}

/// A timer unit whose values hold no line feed reads back as the lines it
/// was made of.
pub proof fn lemma_timer_text_reads_back(s: ServiceView)
    requires
        s.timer_values_single_line(),
    ensures
        split_lines(s.timer_text()) == s.timer_lines(),
{
    lemma_keys();
    lemma_headers_single_line();
    let a0 = seq!["[Timer]"@];
    let a1 = optional_directive("OnCalendar"@, s.on_calendar);
    let a2 = optional_directive("OnUnitActiveSec"@, s.on_unit_active_sec);
    let a3 = optional_directive("OnUnitInactiveSec"@, s.on_unit_inactive_sec);
    let a4 = seq![directive("Persistent"@, bool_text(s.persistent))];
    assert(is_single_line(bool_text(s.persistent))) by {
        reveal_strlit("true");
        reveal_strlit("false");
    }
    lemma_directive_single_line("Persistent"@, bool_text(s.persistent));
    lemma_optional_single_line("OnCalendar"@, s.on_calendar);
    lemma_optional_single_line("OnUnitActiveSec"@, s.on_unit_active_sec);
    lemma_optional_single_line("OnUnitInactiveSec"@, s.on_unit_inactive_sec);
    lemma_concat_single_line(a0, a1);
    lemma_concat_single_line(a0 + a1, a2);
    lemma_concat_single_line(a0 + a1 + a2, a3);
    lemma_concat_single_line(a0 + a1 + a2 + a3, a4);
    let head = seq!["[Unit]"@, blank()];
    assert(is_single_line("timers.target"@)) by {
        reveal_strlit("timers.target");
    }
    lemma_directive_single_line("WantedBy"@, "timers.target"@);
    let tail = seq![blank(), "[Install]"@, directive("WantedBy"@, "timers.target"@)];
    assert(all_single_line(head));
    assert(all_single_line(tail));
    lemma_concat_single_line(head, s.timer_section());
    lemma_concat_single_line(head + s.timer_section(), tail);
    crate::sections::lemma_split_join_round_trip(s.timer_lines());
}

} // verus!
