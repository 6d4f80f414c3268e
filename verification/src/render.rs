//! The text of the generated units.
//!
//! A unit is a list of lines: section headers, `Key=value` directives and
//! blank lines between sections. [`ServiceView::service_lines`] and
//! [`ServiceView::timer_lines`] give that list for a record; the rendered
//! text is the lines joined, each ended by a line feed. Values are written
//! as they are, without quoting or escaping.

use crate::decimal::{decimal, decimal_string};
use crate::laws::{
    lemma_service_sections, lemma_service_text_opens_with_unit, lemma_timer_sections,
    lemma_timer_text_opens_with_unit,
};
use crate::lines::{join_lines, lemma_join_lines_push};
use crate::options::{list_text, option_text, Service, ServiceView};
use crate::resolve::{ResolvedPaths, ResolvedPathsView};
use crate::sections::section_headers;
use vstd::prelude::*;
use vstd::string::*;

verus! {

/// The line `key=value`.
pub open spec fn directive(key: Seq<char>, value: Seq<char>) -> Seq<char> {
    key + seq!['='] + value
}

/// The line of a directive that may be absent: none where it is.
pub open spec fn optional_directive(key: Seq<char>, value: Option<Seq<char>>) -> Seq<Seq<char>> {
    match value {
        Some(value) => seq![directive(key, value)],
        None => Seq::empty(),
    }
}

/// One line per value, in the order of the values.
pub open spec fn repeated_directive(key: Seq<char>, values: Seq<Seq<char>>) -> Seq<Seq<char>> {
    Seq::new(values.len(), |i: int| directive(key, values[i]))
}

/// The word that stands for a truth value.
pub open spec fn bool_text(value: bool) -> Seq<char> {
    if value {
        "true"@
    } else {
        "false"@
    }
}

/// A line without characters, which separates two sections.
pub open spec fn blank() -> Seq<char> {
    Seq::empty()
}

impl ServiceView {
    /// The `[Unit]` section of the service unit.
    pub open spec fn unit_section(self) -> Seq<Seq<char>> {
        seq!["[Unit]"@] + optional_directive("Description"@, self.description)
            + repeated_directive("Before"@, self.before) + repeated_directive("After"@, self.after)
            + repeated_directive("Conflicts"@, self.conflicts) + repeated_directive(
            "Requires"@,
            self.requires,
        ) + optional_directive("OnFailure"@, self.on_failure)
    }

    /// The tag of the restart policy, where one is set.
    pub open spec fn restart_text(self) -> Option<Seq<char>> {
        match self.restart {
            Some(policy) => Some(policy.text()),
            None => None,
        }
    }

    /// The restart delay in decimal notation, where one is set.
    pub open spec fn restart_sec_text(self) -> Option<Seq<char>> {
        match self.restart_sec {
            Some(seconds) => Some(decimal(seconds)),
            None => None,
        }
    }

    /// The `[Service]` section, with the command paths as `paths` gives
    /// them.
    pub open spec fn service_section(self, paths: ResolvedPathsView) -> Seq<Seq<char>> {
        seq![
            "[Service]"@,
            directive("Type"@, self.service_type.text()),
            directive("ExecStart"@, paths.exec_start),
        ] + optional_directive("ExecReload"@, paths.exec_reload) + optional_directive(
            "ExecStop"@,
            paths.exec_stop,
        ) + optional_directive("Restart"@, self.restart_text()) + optional_directive(
            "RestartSec"@,
            self.restart_sec_text(),
        ) + optional_directive("User"@, self.user) + optional_directive("Group"@, self.group)
    }

    /// The `[Install]` section of the service unit.
    pub open spec fn install_section(self) -> Seq<Seq<char>> {
        seq!["[Install]"@, directive("WantedBy"@, self.wanted_by)]
    }

    /// The lines of the service unit: its three sections in order, a blank
    /// line before the second and the third.
    pub open spec fn service_lines(self, paths: ResolvedPathsView) -> Seq<Seq<char>> {
        self.unit_section() + seq![blank()] + self.service_section(paths) + seq![blank()]
            + self.install_section()
    }

    /// The text of the service unit.
    pub open spec fn service_text(self, paths: ResolvedPathsView) -> Seq<char> {
        join_lines(self.service_lines(paths))
    }

    /// The `[Timer]` section of the timer unit.
    pub open spec fn timer_section(self) -> Seq<Seq<char>> {
        seq!["[Timer]"@] + optional_directive("OnCalendar"@, self.on_calendar)
            + optional_directive("OnUnitActiveSec"@, self.on_unit_active_sec)
            + optional_directive("OnUnitInactiveSec"@, self.on_unit_inactive_sec) + seq![
            directive("Persistent"@, bool_text(self.persistent)),
        ]
    }

    /// The lines of the timer unit: an empty `[Unit]` section, the
    /// `[Timer]` section, and an `[Install]` section with a fixed target.
    pub open spec fn timer_lines(self) -> Seq<Seq<char>> {
        seq!["[Unit]"@, blank()] + self.timer_section() + seq![
            blank(),
            "[Install]"@,
            directive("WantedBy"@, "timers.target"@),
        ]
    }

    /// The text of the timer unit.
    pub open spec fn timer_text(self) -> Seq<char> {
        join_lines(self.timer_lines())
    }

    /// Whether `text` is the service unit of this record for some outcome
    /// of resolving its command paths.
    pub open spec fn is_service_text(self, text: Seq<char>) -> bool {
        exists|paths: ResolvedPathsView| #[trigger]
            paths.stands_for(self) && text == self.service_text(paths)
    }
}

/// A unit under construction: the text written so far and the lines it
/// consists of.
struct Draft {
    text: String,
    lines: Ghost<Seq<Seq<char>>>,
}

impl Draft {
    spec fn wf(&self) -> bool {
        self.text@ == join_lines(self.lines@)
    }

    fn new() -> (draft: Draft)
        ensures
            draft.wf(),
            draft.lines@ == Seq::<Seq<char>>::empty(),
    {
        Draft { text: String::new(), lines: Ghost(Seq::empty()) }
    }

    fn line(&mut self, line: &str)
        requires
            old(self).wf(),
        ensures
            final(self).wf(),
            final(self).lines@ == old(self).lines@.push(line@),
    {
        self.text.append(line);
        self.text.append("\n");
        proof {
            reveal_strlit("\n");
            lemma_join_lines_push(self.lines@, line@);
            assert(self.text@ =~= join_lines(self.lines@) + line@ + seq!['\n']);
        }
        self.lines = Ghost(self.lines@.push(line@));
    }

    fn directive(&mut self, key: &str, value: &str)
        requires
            old(self).wf(),
        ensures
            final(self).wf(),
            final(self).lines@ == old(self).lines@.push(directive(key@, value@)),
    {
        self.text.append(key);
        self.text.append("=");
        self.text.append(value);
        self.text.append("\n");
        proof {
            reveal_strlit("=");
            reveal_strlit("\n");
            lemma_join_lines_push(self.lines@, directive(key@, value@));
            assert(self.text@ =~= join_lines(self.lines@) + directive(key@, value@) + seq!['\n']);
        }
        self.lines = Ghost(self.lines@.push(directive(key@, value@)));
    }

    fn optional(&mut self, key: &str, value: &Option<String>)
        requires
            old(self).wf(),
        ensures
            final(self).wf(),
            final(self).lines@ == old(self).lines@ + optional_directive(key@, option_text(*value)),
    {
        match value {
            Some(value) => {
                self.directive(key, value.as_str());
            },
            None => {},
        }
        assert(self.lines@ =~= old(self).lines@ + optional_directive(key@, option_text(*value)));
    }

    fn repeated(&mut self, key: &str, values: &Vec<String>)
        requires
            old(self).wf(),
        ensures
            final(self).wf(),
            final(self).lines@ == old(self).lines@ + repeated_directive(key@, list_text(*values)),
    {
        let ghost start = self.lines@;
        let ghost all = repeated_directive(key@, list_text(*values));
        let mut i: usize = 0;
        while i < values.len()
            invariant
                i <= values.len(),
                self.wf(),
                all == repeated_directive(key@, list_text(*values)),
                self.lines@ == start + all.take(i as int),
            decreases values.len() - i,
        {
            self.directive(key, values[i].as_str());
            proof {
                assert(all[i as int] == directive(key@, values@[i as int]@));
                assert(all.take(i + 1) =~= all.take(i as int).push(all[i as int]));
                assert(self.lines@ =~= start + all.take(i + 1));
            }
            i += 1;
        }
        assert(all.take(i as int) =~= all);
    }

    fn finish(self) -> (text: String)
        requires
            self.wf(),
        ensures
            text@ == join_lines(self.lines@),
    {
        self.text
    }
}

impl Service {
    fn write_unit_section(&self, draft: &mut Draft)
        requires
            old(draft).wf(),
        ensures
            final(draft).wf(),
            final(draft).lines@ == old(draft).lines@ + self@.unit_section(),
    {
        let ghost start = draft.lines@;
        let ghost written = seq!["[Unit]"@];
        draft.line("[Unit]");
        assert(draft.lines@ =~= start + written);

        draft.optional("Description", &self.description);
        let ghost written = written + optional_directive("Description"@, self@.description);
        assert(draft.lines@ =~= start + written);

        draft.repeated("Before", &self.before);
        let ghost written = written + repeated_directive("Before"@, self@.before);
        assert(draft.lines@ =~= start + written);

        draft.repeated("After", &self.after);
        let ghost written = written + repeated_directive("After"@, self@.after);
        assert(draft.lines@ =~= start + written);

        draft.repeated("Conflicts", &self.conflicts);
        let ghost written = written + repeated_directive("Conflicts"@, self@.conflicts);
        assert(draft.lines@ =~= start + written);

        draft.repeated("Requires", &self.requires);
        let ghost written = written + repeated_directive("Requires"@, self@.requires);
        assert(draft.lines@ =~= start + written);

        draft.optional("OnFailure", &self.on_failure);
        let ghost written = written + optional_directive("OnFailure"@, self@.on_failure);
        assert(draft.lines@ =~= start + written);
    }

    fn restart_tag(&self) -> (tag: Option<String>)
        ensures
            option_text(tag) == self@.restart_text(),
    {
        match self.restart {
            Some(policy) => Some(policy.to_string()),
            None => None,
        }
    }

    fn restart_delay(&self) -> (delay: Option<String>)
        ensures
            option_text(delay) == self@.restart_sec_text(),
    {
        match self.restart_sec {
            Some(seconds) => Some(decimal_string(seconds)),
            None => None,
        }
    }

    fn write_service_section(&self, draft: &mut Draft, paths: &ResolvedPaths)
        requires
            old(draft).wf(),
        ensures
            final(draft).wf(),
            final(draft).lines@ == old(draft).lines@ + self@.service_section(paths@),
    {
        let ghost start = draft.lines@;
        draft.line("[Service]");
        draft.directive("Type", self.service_type.as_str());
        draft.directive("ExecStart", paths.exec_start.as_str());
        let ghost written = seq![
            "[Service]"@,
            directive("Type"@, self@.service_type.text()),
            directive("ExecStart"@, paths@.exec_start),
        ];
        assert(draft.lines@ =~= start + written) by {
            assert(draft.lines@ == start.push("[Service]"@).push(
                directive("Type"@, self.service_type.text()),
            ).push(directive("ExecStart"@, paths.exec_start@)));
        }

        draft.optional("ExecReload", &paths.exec_reload);
        let ghost written = written + optional_directive("ExecReload"@, paths@.exec_reload);
        assert(draft.lines@ =~= start + written);

        draft.optional("ExecStop", &paths.exec_stop);
        let ghost written = written + optional_directive("ExecStop"@, paths@.exec_stop);
        assert(draft.lines@ =~= start + written);

        let restart = self.restart_tag();
        draft.optional("Restart", &restart);
        let ghost written = written + optional_directive("Restart"@, self@.restart_text());
        assert(draft.lines@ =~= start + written);

        let delay = self.restart_delay();
        draft.optional("RestartSec", &delay);
        let ghost written = written + optional_directive("RestartSec"@, self@.restart_sec_text());
        assert(draft.lines@ =~= start + written);

        draft.optional("User", &self.user);
        let ghost written = written + optional_directive("User"@, self@.user);
        assert(draft.lines@ =~= start + written);

        draft.optional("Group", &self.group);
        let ghost written = written + optional_directive("Group"@, self@.group);
        assert(draft.lines@ =~= start + written);
    }

    fn write_install_section(&self, draft: &mut Draft)
        requires
            old(draft).wf(),
        ensures
            final(draft).wf(),
            final(draft).lines@ == old(draft).lines@ + self@.install_section(),
    {
        draft.line("[Install]");
        draft.directive("WantedBy", self.wanted_by.as_str());
        assert(draft.lines@ =~= old(draft).lines@ + self@.install_section());
    }

    fn write_timer_section(&self, draft: &mut Draft)
        requires
            old(draft).wf(),
        ensures
            final(draft).wf(),
            final(draft).lines@ == old(draft).lines@ + self@.timer_section(),
    {
        let ghost start = draft.lines@;
        let ghost written = seq!["[Timer]"@];
        draft.line("[Timer]");
        assert(draft.lines@ =~= start + written);

        draft.optional("OnCalendar", &self.on_calendar);
        let ghost written = written + optional_directive("OnCalendar"@, self@.on_calendar);
        assert(draft.lines@ =~= start + written);

        draft.optional("OnUnitActiveSec", &self.on_unit_active_sec);
        let ghost written = written + optional_directive(
            "OnUnitActiveSec"@,
            self@.on_unit_active_sec,
        );
        assert(draft.lines@ =~= start + written);

        draft.optional("OnUnitInactiveSec", &self.on_unit_inactive_sec);
        let ghost written = written + optional_directive(
            "OnUnitInactiveSec"@,
            self@.on_unit_inactive_sec,
        );
        assert(draft.lines@ =~= start + written);

        draft.directive("Persistent", if self.persistent { "true" } else { "false" });
        let ghost written = written + seq![directive("Persistent"@, bool_text(self@.persistent))];
        assert(draft.lines@ =~= start + written);
    }

    /// Renders the service unit, with the command paths written as `paths`
    /// gives them. The result is a function of the record and of `paths`
    /// alone.
    pub fn render_service(&self, paths: &ResolvedPaths) -> (text: String)
        ensures
            text@ == self@.service_text(paths@),
            "[Unit]\n"@.is_prefix_of(text@),
            self@.service_values_begin_no_section() && paths@.begin_no_section()
                ==> section_headers(text@) == seq!["[Unit]"@, "[Service]"@, "[Install]"@],
    {
        proof {
            reveal_strlit("");
            assert(""@ =~= blank());
            lemma_service_text_opens_with_unit(self@, paths@);
            if self@.service_values_begin_no_section() && paths@.begin_no_section() {
                lemma_service_sections(self@, paths@);
            }
        }
        let mut draft = Draft::new();
        self.write_unit_section(&mut draft);
        let ghost written = self@.unit_section();
        assert(draft.lines@ =~= written);

        draft.line("");
        let ghost written = written + seq![blank()];
        assert(draft.lines@ =~= written);

        self.write_service_section(&mut draft, paths);
        let ghost written = written + self@.service_section(paths@);
        assert(draft.lines@ =~= written);

        draft.line("");
        let ghost written = written + seq![blank()];
        assert(draft.lines@ =~= written);

        self.write_install_section(&mut draft);
        let ghost written = written + self@.install_section();
        assert(draft.lines@ =~= written);
        draft.finish()
    }

    /// Renders the service unit after resolving the command paths against
    /// the file system. The paths shown depend on the file system; the rest
    /// of the text does not.
    pub fn service(&self) -> (text: String)
        ensures
            self@.is_service_text(text@),
            "[Unit]\n"@.is_prefix_of(text@),
    {
        let paths = self.resolve_paths();
        let text = self.render_service(&paths);
        assert(paths@.stands_for(self@) && text@ == self@.service_text(paths@));
        text
    }

    /// Renders the timer unit. The result is a function of the record alone.
    pub fn timer(&self) -> (text: String)
        ensures
            text@ == self@.timer_text(),
            "[Unit]\n"@.is_prefix_of(text@),
            self@.timer_values_begin_no_section() ==> section_headers(text@) == seq![
                "[Unit]"@,
                "[Timer]"@,
                "[Install]"@,
            ],
    {
        proof {
            reveal_strlit("");
            assert(""@ =~= blank());
            lemma_timer_text_opens_with_unit(self@);
            if self@.timer_values_begin_no_section() {
                lemma_timer_sections(self@);
            }
        }
        let mut draft = Draft::new();
        draft.line("[Unit]");
        draft.line("");
        let ghost written = seq!["[Unit]"@, blank()];
        assert(draft.lines@ =~= written);

        self.write_timer_section(&mut draft);
        let ghost written = written + self@.timer_section();
        assert(draft.lines@ =~= written);

        draft.line("");
        draft.line("[Install]");
        draft.directive("WantedBy", "timers.target");
        assert(draft.lines@ =~= self@.timer_lines());
        draft.finish()
    }
}

} // verus!
