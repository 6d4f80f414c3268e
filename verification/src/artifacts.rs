//! The files to write for a record: their names and contents.

use crate::options::{Service, ServiceView, ValidationError};
use crate::report::UnitKind;
use crate::resolve::{ResolvedPaths, ResolvedPathsView};
use vstd::prelude::*;
use vstd::string::*;

verus! {

/// A file to write into the output directory.
#[derive(Clone, Debug, PartialEq, Eq)]
pub struct Artifact {
    pub kind: UnitKind,
    pub file_name: String,
    pub content: String,
}

/// The mathematical value of an [`Artifact`].
pub struct ArtifactView {
    pub kind: UnitKind,
    pub file_name: Seq<char>,
    pub content: Seq<char>,
}

impl View for Artifact {
    type V = ArtifactView;

    open spec fn view(&self) -> ArtifactView {
        ArtifactView { kind: self.kind, file_name: self.file_name@, content: self.content@ }
    }
}

/// The values of a list of artifacts, in order.
pub open spec fn artifact_views(files: Vec<Artifact>) -> Seq<ArtifactView> {
    Seq::new(files@.len(), |i: int| files@[i]@)
}

impl ServiceView {
    /// `<name>.service`
    pub open spec fn service_file_name(self) -> Seq<char> {
        self.name + ".service"@
    }

    /// `<name>.timer`
    pub open spec fn timer_file_name(self) -> Seq<char> {
        self.name + ".timer"@
    }

    /// The service unit as a file.
    pub open spec fn service_artifact(self, paths: ResolvedPathsView) -> ArtifactView {
        ArtifactView {
            kind: UnitKind::Service,
            file_name: self.service_file_name(),
            content: self.service_text(paths),
        }
    }

    /// The timer unit as a file.
    pub open spec fn timer_artifact(self) -> ArtifactView {
        ArtifactView {
            kind: UnitKind::Timer,
            file_name: self.timer_file_name(),
            content: self.timer_text(),
        }
    }

    /// The files of the record in the order in which they are written: the
    /// service unit, then the timer unit if the record asks for a timer.
    pub open spec fn artifacts(self, paths: ResolvedPathsView) -> Seq<ArtifactView> {
        if self.timer_enabled {
            seq![self.service_artifact(paths), self.timer_artifact()]
        } else {
            seq![self.service_artifact(paths)]
        }
    }

    /// Whether `files` are the files of this record for some outcome of
    /// resolving its command paths.
    pub open spec fn are_artifacts(self, files: Seq<ArtifactView>) -> bool {
        exists|paths: ResolvedPathsView| #[trigger]
            paths.stands_for(self) && files == self.artifacts(paths)
    }
}

impl Service {
    /// The name of the file that holds the service unit.
    pub fn service_file_name(&self) -> (file_name: String)
        ensures
            file_name@ == self@.service_file_name(),
    {
        let mut file_name = self.name.clone();
        file_name.append(".service");
        file_name
    }

    /// The name of the file that holds the timer unit.
    pub fn timer_file_name(&self) -> (file_name: String)
        ensures
            file_name@ == self@.timer_file_name(),
    {
        let mut file_name = self.name.clone();
        file_name.append(".timer");
        file_name
    }

    /// The files to write, with the command paths shown as `paths` gives
    /// them. A record that asks for no timer yields the service unit alone.
    pub fn artifacts(&self, paths: &ResolvedPaths) -> (files: Vec<Artifact>)
        ensures
            artifact_views(files) == self@.artifacts(paths@),
            !self.timer_enabled ==> files@.len() == 1,
            self.timer_enabled ==> files@.len() == 2,
    {
        let mut files: Vec<Artifact> = Vec::new();
        files.push(
            Artifact {
                kind: UnitKind::Service,
                file_name: self.service_file_name(),
                content: self.render_service(paths),
            },
        );
        if self.timer_enabled {
            files.push(
                Artifact {
                    kind: UnitKind::Timer,
                    file_name: self.timer_file_name(),
                    content: self.timer(),
                },
            );
        }
        assert(artifact_views(files) =~= self@.artifacts(paths@));
        files
    }

    /// Checks the record and, if it passes, resolves its command paths and
    /// renders its files. A record that fails a check yields the error and
    /// nothing is resolved or rendered.
    pub fn generate(&self, exec_start_exists: bool) -> (outcome: Result<
        Vec<Artifact>,
        ValidationError,
    >)
        ensures
            match self@.validation(exec_start_exists) {
                Err(error) => outcome == Err::<Vec<Artifact>, ValidationError>(error),
                Ok(_) => outcome is Ok && self@.are_artifacts(artifact_views(outcome->Ok_0)),
            },
            outcome matches Ok(files) ==> files@.len() == (if self.timer_enabled {
                2nat
            } else {
                1nat
            }),
    {
        match self.validate(exec_start_exists) {
            Err(error) => Err(error),
            Ok(()) => {
                let paths = self.resolve_paths();
                let files = self.artifacts(&paths);
                assert(paths@.stands_for(self@) && artifact_views(files) == self@.artifacts(
                    paths@,
                ));
                Ok(files)
            },
        }
    }
}

} // verus!
