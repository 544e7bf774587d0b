//! The frame tool's editing flow: load a mesh, name the character, choose
//! its forward, right and left facings, then edit frame data.

use vstd::prelude::*;

verus! {

/// The main phase of the editor.
#[derive(Clone, Copy, Debug, PartialEq, Eq, Structural)]
pub enum EditState {
    NoMesh,
    LoadingMesh,
    PreliminarySetup,
    Main,
}

/// The step of the preliminary setup; it exists only during that phase.
#[derive(Clone, Copy, Debug, PartialEq, Eq, Structural)]
pub enum PreliminaryTask {
    SetName,
    ForwardFacing,
    RightFacing,
    LeftFacing,
}

/// What the user or the asset loader did.
#[derive(Clone, Copy, Debug, PartialEq, Eq, Structural)]
pub enum EditorEvent {
    /// A mesh file was picked and handed over.
    MeshReady,
    /// The mesh finished loading and has a bounding box.
    MeshLoaded,
    /// The name field lost focus.
    NameCommitted,
    /// The "Done" button of a facing step was clicked.
    Done,
}

impl Default for EditState {
    fn default() -> (s: Self)
        ensures
            s == EditState::NoMesh,
    {
        EditState::NoMesh
    }
}

impl Default for PreliminaryTask {
    fn default() -> (t: Self)
        ensures
            t == PreliminaryTask::SetName,
    {
        PreliminaryTask::SetName
    }
}

impl EditState {
    /// Saving is offered once a mesh is set up.
    pub open spec fn saveable(self) -> bool {
        self == EditState::PreliminarySetup || self == EditState::Main
    }

    /// Whether the project can be saved.
    pub fn can_save(&self) -> (b: bool)
        ensures
            b == self.saveable(),
    {
        matches!(self, EditState::PreliminarySetup | EditState::Main)
    }

    /// The phase name written into saved editor data.
    pub fn save_label(&self) -> (s: &'static str)
        requires
            self.saveable(),
        ensures
            *self == EditState::PreliminarySetup ==> s@ == "preliminary"@,
            *self == EditState::Main ==> s@ == "main"@,
    {
        match self {
            EditState::PreliminarySetup => "preliminary",
            _ => "main",
        }
    }
}

/// The editor's phase together with the preliminary step.
#[derive(Clone, Copy, Debug, PartialEq, Eq, Structural)]
pub struct Editor {
    pub state: EditState,
    pub task: Option<PreliminaryTask>,
}

impl Default for Editor {
    fn default() -> (e: Self)
        ensures
            e == (Editor { state: EditState::NoMesh, task: None }),
    {
        Editor { state: EditState::NoMesh, task: None }
    }
}

impl Editor {
    /// A preliminary step exists exactly during the preliminary setup.
    pub open spec fn well_formed(self) -> bool {
        self.task is Some <==> self.state == EditState::PreliminarySetup
    }

    /// The editor after `event`. An event that the current screen does not
    /// offer changes nothing.
    pub open spec fn after(self, event: EditorEvent) -> Editor {
        match event {
            EditorEvent::MeshReady => Editor { state: EditState::LoadingMesh, task: None },
            EditorEvent::MeshLoaded => if self.state == EditState::LoadingMesh {
                Editor { state: EditState::PreliminarySetup, task: Some(PreliminaryTask::SetName) }
            } else {
                self
            },
            EditorEvent::NameCommitted => if self.state == EditState::PreliminarySetup && self.task
                == Some(PreliminaryTask::SetName) {
                Editor { task: Some(PreliminaryTask::ForwardFacing), ..self }
            } else {
                self
            },
            EditorEvent::Done => if self.state != EditState::PreliminarySetup {
                self
            } else {
                match self.task {
                    Some(PreliminaryTask::ForwardFacing) => Editor {
                        task: Some(PreliminaryTask::RightFacing),
                        ..self
                    },
                    Some(PreliminaryTask::RightFacing) => Editor {
                        task: Some(PreliminaryTask::LeftFacing),
                        ..self
                    },
                    Some(PreliminaryTask::LeftFacing) => Editor { state: EditState::Main, task: None },
                    _ => self,
                }
            },
        }
    }

    /// Applies one event.
    pub fn handle(&mut self, event: EditorEvent)
        requires
            old(self).well_formed(),
        ensures
            *final(self) == old(self).after(event),
            final(self).well_formed(),
    {
        match event {
            EditorEvent::MeshReady => {
                self.state = EditState::LoadingMesh;
                self.task = None;
            },
            EditorEvent::MeshLoaded => {
                if self.state == EditState::LoadingMesh {
                    self.state = EditState::PreliminarySetup;
                    self.task = Some(PreliminaryTask::SetName);
                }
            },
            EditorEvent::NameCommitted => {
                if self.state == EditState::PreliminarySetup && self.task == Some(
                    PreliminaryTask::SetName,
                ) {
                    self.task = Some(PreliminaryTask::ForwardFacing);
                }
            },
            EditorEvent::Done => {
                if self.state == EditState::PreliminarySetup {
                    match self.task {
                        Some(PreliminaryTask::ForwardFacing) => {
                            self.task = Some(PreliminaryTask::RightFacing);
                        },
                        Some(PreliminaryTask::RightFacing) => {
                            self.task = Some(PreliminaryTask::LeftFacing);
                        },
                        Some(PreliminaryTask::LeftFacing) => {
                            self.state = EditState::Main;
                            self.task = None;
                        },
                        _ => {},
                    }
                }
            },
        }
    }
}

/// The editor only reaches its main phase by finishing the last facing step
/// of the preliminary setup.
pub proof fn lemma_main_only_after_setup(e: Editor, event: EditorEvent)
    requires
        e.well_formed(),
        e.state != EditState::Main,
        e.after(event).state == EditState::Main,
    ensures
        e.state == EditState::PreliminarySetup,
        e.task == Some(PreliminaryTask::LeftFacing),
        event == EditorEvent::Done,
{
}

/// The preliminary steps only go forward, one at a time, in the order name,
/// forward facing, right facing, left facing.
pub proof fn lemma_setup_steps_in_order(e: Editor, event: EditorEvent)
    requires
        e.well_formed(),
        e.state == EditState::PreliminarySetup,
        e.after(event).state == EditState::PreliminarySetup,
        e.after(event).task != e.task,
    ensures
        e.task == Some(PreliminaryTask::SetName) ==> e.after(event).task == Some(PreliminaryTask::ForwardFacing),
        e.task == Some(PreliminaryTask::ForwardFacing) ==> e.after(event).task == Some(PreliminaryTask::RightFacing),
        e.task == Some(PreliminaryTask::RightFacing) ==> e.after(event).task == Some(PreliminaryTask::LeftFacing),
        e.task != Some(PreliminaryTask::LeftFacing),
{
}

/// A newly picked mesh always restarts loading, from any phase, and saving
/// is not offered until it has loaded.
pub proof fn lemma_new_mesh_restarts(e: Editor)
    ensures
        e.after(EditorEvent::MeshReady) == (Editor { state: EditState::LoadingMesh, task: None }),
        !e.after(EditorEvent::MeshReady).state.saveable(),
{
}

/// The events of the editor screen itself (all but `MeshLoaded`, which the
/// loader sends) move the setup one step forward at most: a new preliminary
/// step is the successor of the current one, and the phase changes only to
/// `Main`, from the left-facing step on "Done", or to `LoadingMesh`, on a
/// new mesh.
pub proof fn lemma_screen_events(e: Editor, event: EditorEvent)
    requires
        e.well_formed(),
        event != EditorEvent::MeshLoaded,
    ensures
        e.after(event).state == e.state && e.after(event).task != e.task ==> match e.task {
            Some(PreliminaryTask::SetName) => e.after(event).task == Some(PreliminaryTask::ForwardFacing),
            Some(PreliminaryTask::ForwardFacing) => e.after(event).task == Some(PreliminaryTask::RightFacing),
            Some(PreliminaryTask::RightFacing) => e.after(event).task == Some(PreliminaryTask::LeftFacing),
            _ => false,
        },
        e.after(event).state != e.state ==> (e.after(event).state == EditState::Main && e.task == Some(
            PreliminaryTask::LeftFacing,
        ) && event == EditorEvent::Done) || (e.after(event).state == EditState::LoadingMesh && event
            == EditorEvent::MeshReady),
{
}

/// The loader's event only ends loading: it starts the setup at the naming
/// step, and changes nothing in any other phase.
pub proof fn lemma_mesh_loaded(e: Editor)
    requires
        e.well_formed(),
    ensures
        e.state == EditState::LoadingMesh ==> e.after(EditorEvent::MeshLoaded) == (Editor {
            state: EditState::PreliminarySetup,
            task: Some(PreliminaryTask::SetName),
        }),
        e.state != EditState::LoadingMesh ==> e.after(EditorEvent::MeshLoaded) == e,
{
}

} // verus!
