//! The enumerated values of a service unit and their textual tags.

use vstd::prelude::*;

verus! {

/// How the supervisor starts and tracks the main process (`Type=`).
#[derive(Clone, Copy, Debug, PartialEq, Eq, Structural)]
pub enum ServiceType {
    Simple,
    Forking,
    Oneshot,
    Dbus,
    Notify,
    Idle,
}

/// When the supervisor restarts the service (`Restart=`).
#[derive(Clone, Copy, Debug, PartialEq, Eq, Structural)]
pub enum RestartPolicy {
    No,
    Always,
    OnSuccess,
    OnFailure,
    OnAbnormal,
    OnAbort,
    OnWatchdog,
}

/// A tag is a non-empty word of lowercase letters and hyphens.
pub open spec fn is_tag(word: Seq<char>) -> bool {
    &&& word.len() > 0
    &&& forall|i: int| 0 <= i < word.len() ==> ('a' <= #[trigger] word[i] <= 'z' || word[i] == '-')
}

impl ServiceType {
    /// The lowercase tag that stands for this variant in a unit file.
    pub open spec fn text(self) -> Seq<char> {
        match self {
            ServiceType::Simple => "simple"@,
            ServiceType::Forking => "forking"@,
            ServiceType::Oneshot => "oneshot"@,
            ServiceType::Dbus => "dbus"@,
            ServiceType::Notify => "notify"@,
            ServiceType::Idle => "idle"@,
        }
    }

    /// The tag of this variant.
    pub fn as_str(&self) -> (tag: &'static str)
        ensures
            tag@ == self.text(),
    {
        match self {
            ServiceType::Simple => "simple",
            ServiceType::Forking => "forking",
            ServiceType::Oneshot => "oneshot",
            ServiceType::Dbus => "dbus",
            ServiceType::Notify => "notify",
            ServiceType::Idle => "idle",
        }
    }

    /// The tag of this variant as an owned string.
    pub fn to_string(&self) -> (tag: String)
        ensures
            tag@ == self.text(),
    {
        self.as_str().to_owned()
    }

    /// Every tag is a word of lowercase letters.
    pub proof fn lemma_text_is_tag(self)
        ensures
            is_tag(self.text()),
    {
        reveal_strlit("simple");
        reveal_strlit("forking");
        reveal_strlit("oneshot");
        reveal_strlit("dbus");
        reveal_strlit("notify");
        reveal_strlit("idle");
    }

    /// Distinct variants have distinct tags.
    pub proof fn lemma_text_injective(self, other: ServiceType)
        requires
            self.text() == other.text(),
        ensures
            self == other,
    {
        reveal_strlit("simple");
        reveal_strlit("forking");
        reveal_strlit("oneshot");
        reveal_strlit("dbus");
        reveal_strlit("notify");
        reveal_strlit("idle");
        if self != other {
            let a = self.text();
            let b = other.text();
            assert(a.len() == b.len());
            assert(a[0] == b[0]);
            assert(a[1] == b[1]);
        }
    }
}

impl RestartPolicy {
    /// The hyphenated lowercase tag that stands for this variant in a unit
    /// file.
    pub open spec fn text(self) -> Seq<char> {
        match self {
            RestartPolicy::No => "no"@,
            RestartPolicy::Always => "always"@,
            RestartPolicy::OnSuccess => "on-success"@,
            RestartPolicy::OnFailure => "on-failure"@,
            RestartPolicy::OnAbnormal => "on-abnormal"@,
            RestartPolicy::OnAbort => "on-abort"@,
            RestartPolicy::OnWatchdog => "on-watchdog"@,
        }
    }

    /// The tag of this variant.
    pub fn as_str(&self) -> (tag: &'static str)
        ensures
            tag@ == self.text(),
    {
        match self {
            RestartPolicy::No => "no",
            RestartPolicy::Always => "always",
            RestartPolicy::OnSuccess => "on-success",
            RestartPolicy::OnFailure => "on-failure",
            RestartPolicy::OnAbnormal => "on-abnormal",
            RestartPolicy::OnAbort => "on-abort",
            RestartPolicy::OnWatchdog => "on-watchdog",
        }
    }

    /// The tag of this variant as an owned string.
    pub fn to_string(&self) -> (tag: String)
        ensures
            tag@ == self.text(),
    {
        self.as_str().to_owned()
    }

    /// Every tag is a word of lowercase letters and hyphens.
    pub proof fn lemma_text_is_tag(self)
        ensures
            is_tag(self.text()),
    {
        reveal_strlit("no");
        reveal_strlit("always");
        reveal_strlit("on-success");
        reveal_strlit("on-failure");
        reveal_strlit("on-abnormal");
        reveal_strlit("on-abort");
        reveal_strlit("on-watchdog");
    }

    /// Distinct variants have distinct tags.
    pub proof fn lemma_text_injective(self, other: RestartPolicy)
        requires
            self.text() == other.text(),
        ensures
            self == other,
    {
        reveal_strlit("no");
        reveal_strlit("always");
        reveal_strlit("on-success");
        reveal_strlit("on-failure");
        reveal_strlit("on-abnormal");
        reveal_strlit("on-abort");
        reveal_strlit("on-watchdog");
        if self != other {
            let a = self.text();
            let b = other.text();
            assert(a.len() == b.len());
            assert(a[0] == b[0]);
            assert(a[3] == b[3]);
            assert(a[5] == b[5]);
        }
    }
}

} // verus!
