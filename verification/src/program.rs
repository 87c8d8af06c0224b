//! Building one shader program, step by step.
//!
//! The GPU compiles and links; this module decides what comes next and what
//! has to be deleted. The host performs the action that the current stage
//! calls for and reports back with an event:
//!
//! - `Vertex`: compile the vertex source, report the shader and its status;
//! - `Fragment`: compile the fragment source, report likewise;
//! - `Link`: create a program, attach both shaders, link, report the program
//!   and its status;
//! - `Finished`: nothing is left to do, and the stage holds the result.

use vstd::prelude::*;

verus! {

/// Where a build stands.
#[derive(Clone, Copy, Debug, PartialEq, Eq, Structural)]
pub enum BuildStage {
    /// Nothing is compiled yet.
    Vertex,
    /// The vertex shader compiled.
    Fragment { vert: u32 },
    /// Both shaders compiled.
    Link { vert: u32, frag: u32 },
    /// The build is over, with the program if it linked.
    Finished { program: Option<u32> },
}

/// What the GPU reported of the action that a stage called for.
#[derive(Clone, Copy, Debug, PartialEq, Eq, Structural)]
pub enum BuildEvent {
    /// A shader object was made and its source compiled, or not.
    Compiled { shader: u32, ok: bool },
    /// A program object was made and linked, or not.
    Linked { program: u32, ok: bool },
}

/// The stage after an event, and the objects that the event's outcome
/// leaves without use.
#[derive(Clone, Debug, PartialEq, Eq)]
pub struct BuildStep {
    pub next: BuildStage,
    /// The shader objects to delete, in this order.
    pub delete_shaders: Vec<u32>,
    /// The program object to delete.
    pub delete_program: Option<u32>,
}

impl BuildStage {
    /// The event answers the action that the stage calls for.
    pub open spec fn accepts(self, event: BuildEvent) -> bool {
        match (self, event) {
            (BuildStage::Vertex, BuildEvent::Compiled { .. }) => true,
            (BuildStage::Fragment { .. }, BuildEvent::Compiled { .. }) => true,
            (BuildStage::Link { .. }, BuildEvent::Linked { .. }) => true,
            _ => false,
        }
    }

    /// The stage that follows on an event. An event that the stage did not
    /// call for leaves the stage as it is.
    pub open spec fn after(self, event: BuildEvent) -> BuildStage {
        match (self, event) {
            (BuildStage::Vertex, BuildEvent::Compiled { shader, ok }) => if ok {
                BuildStage::Fragment { vert: shader }
            } else {
                BuildStage::Finished { program: None }
            },
            (BuildStage::Fragment { vert }, BuildEvent::Compiled { shader, ok }) => if ok {
                BuildStage::Link { vert: vert, frag: shader }
            } else {
                BuildStage::Finished { program: None }
            },
            (BuildStage::Link { .. }, BuildEvent::Linked { program, ok }) => if ok {
                BuildStage::Finished { program: Some(program) }
            } else {
                BuildStage::Finished { program: None }
            },
            _ => self,
        }
    }

    /// The shader objects to delete on an event: those at hand when the
    /// build ends, by failure or by a link, successful or not. A shader that
    /// the stage did not call for is deleted at once.
    pub open spec fn shaders_dropped(self, event: BuildEvent) -> Seq<u32> {
        match (self, event) {
            (BuildStage::Vertex, BuildEvent::Compiled { shader, ok }) => if ok {
                Seq::empty()
            } else {
                seq![shader]
            },
            (BuildStage::Fragment { vert }, BuildEvent::Compiled { shader, ok }) => if ok {
                Seq::empty()
            } else {
                seq![vert, shader]
            },
            (BuildStage::Link { vert, frag }, BuildEvent::Linked { .. }) => seq![vert, frag],
            (_, BuildEvent::Compiled { shader, .. }) => seq![shader],
            _ => Seq::empty(),
        }
    }

    /// The program object to delete on an event: the one that failed to
    /// link, or one that the stage did not call for.
    pub open spec fn program_dropped(self, event: BuildEvent) -> Option<u32> {
        match (self, event) {
            (BuildStage::Link { .. }, BuildEvent::Linked { program, ok }) => if ok {
                None
            } else {
                Some(program)
            },
            (_, BuildEvent::Linked { program, .. }) => Some(program),
            _ => None,
        }
    }

    /// The shader objects that exist at this stage and are not deleted yet.
    pub open spec fn live_shaders(self) -> Seq<u32> {
        match self {
            BuildStage::Vertex => Seq::empty(),
            BuildStage::Fragment { vert } => seq![vert],
            BuildStage::Link { vert, frag } => seq![vert, frag],
            BuildStage::Finished { .. } => Seq::empty(),
        }
    }

    /// The stage of a build that has not begun.
    pub fn start() -> (stage: BuildStage)
        ensures
            stage == BuildStage::Vertex,
    {
        BuildStage::Vertex
    }

    /// Tests whether the event answers the action that the stage calls for.
    pub fn expects(&self, event: &BuildEvent) -> (yes: bool)
        ensures
            yes == self.accepts(*event),
    {
        match (self, event) {
            (BuildStage::Vertex, BuildEvent::Compiled { .. }) => true,
            (BuildStage::Fragment { .. }, BuildEvent::Compiled { .. }) => true,
            (BuildStage::Link { .. }, BuildEvent::Linked { .. }) => true,
            _ => false,
        }
    }

    /// The program of a finished build, if it linked.
    pub fn program(&self) -> (result: Option<u32>)
        ensures
            result == match *self {
                BuildStage::Finished { program } => program,
                _ => None,
            },
    {
        match self {
            BuildStage::Finished { program } => *program,
            _ => None,
        }
    }
}

/// Takes the GPU's report and decides how the build goes on. A shader
/// that fails to compile, or a program that fails to link, ends the
/// build without a program; whatever was made until then is handed back
/// for deletion. A link that succeeds ends the build with the program,
/// and the two shaders, no longer needed, are handed back for deletion.
/// An object reported out of turn is handed back for deletion and the
/// stage stays.
pub fn create_program(stage: BuildStage, event: BuildEvent) -> (step: BuildStep)
    ensures
        step.next == stage.after(event),
        step.delete_shaders@ == stage.shaders_dropped(event),
        step.delete_program == stage.program_dropped(event),
{
    let mut delete_shaders: Vec<u32> = Vec::new();
    match (stage, event) {
        (BuildStage::Vertex, BuildEvent::Compiled { shader, ok }) => {
            if !ok {
                delete_shaders.push(shader);
                assert(delete_shaders@ =~= seq![shader]);
                return BuildStep {
                    next: BuildStage::Finished { program: None },
                    delete_shaders: delete_shaders,
                    delete_program: None,
                };
            }
            BuildStep {
                next: BuildStage::Fragment { vert: shader },
                delete_shaders: delete_shaders,
                delete_program: None,
            }
        },
        (BuildStage::Fragment { vert }, BuildEvent::Compiled { shader, ok }) => {
            if !ok {
                delete_shaders.push(vert);
                delete_shaders.push(shader);
                assert(delete_shaders@ =~= seq![vert, shader]);
                return BuildStep {
                    next: BuildStage::Finished { program: None },
                    delete_shaders: delete_shaders,
                    delete_program: None,
                };
            }
            BuildStep {
                next: BuildStage::Link { vert: vert, frag: shader },
                delete_shaders: delete_shaders,
                delete_program: None,
            }
        },
        (BuildStage::Link { vert, frag }, BuildEvent::Linked { program, ok }) => {
            delete_shaders.push(vert);
            delete_shaders.push(frag);
            assert(delete_shaders@ =~= seq![vert, frag]);
            if !ok {
                return BuildStep {
                    next: BuildStage::Finished { program: None },
                    delete_shaders: delete_shaders,
                    delete_program: Some(program),
                };
            }
            BuildStep {
                next: BuildStage::Finished { program: Some(program) },
                delete_shaders: delete_shaders,
                delete_program: None,
            }
        },
        (_, BuildEvent::Compiled { shader, .. }) => {
            delete_shaders.push(shader);
            assert(delete_shaders@ =~= seq![shader]);
            BuildStep { next: stage, delete_shaders: delete_shaders, delete_program: None }
        },
        (_, BuildEvent::Linked { program, .. }) => BuildStep {
            next: stage,
            delete_shaders: delete_shaders,
            delete_program: Some(program),
        },
    }
}

/// Reads a compile or link status as the GPU reports it: zero stands for
/// failure, anything else for success.
pub fn status_ok(status: i32) -> (ok: bool)
    ensures
        ok == (status != 0),
{
    status != 0
}

/// The bytes of text in an info log whose reported length is `len`: the
/// reported length counts the zero that ends the text.
pub fn info_log_bytes(len: i32) -> (bytes: usize)
    requires
        len >= 1,
    ensures
        bytes == len - 1,
{
    (len - 1) as usize
}

/// The shader objects that an event brings into being.
pub open spec fn shaders_made(event: BuildEvent) -> Seq<u32> {
    match event {
        BuildEvent::Compiled { shader, .. } => seq![shader],
        BuildEvent::Linked { .. } => Seq::empty(),
    }
}

/// The program object that an event brings into being.
pub open spec fn program_made(event: BuildEvent) -> Option<u32> {
    match event {
        BuildEvent::Compiled { .. } => None,
        BuildEvent::Linked { program, .. } => Some(program),
    }
}

/// Nothing leaks and nothing is deleted twice. In every step the shaders that
/// existed before, with the one the event made, are exactly those that exist
/// after, with those handed back for deletion. A program that the event made
/// is either the build's result or handed back for deletion, never both, and
/// no other program is ever handed back. A finished build has no shader
/// left.
pub proof fn lemma_build_conserves_objects(stage: BuildStage, event: BuildEvent)
    ensures
        stage.live_shaders() + shaders_made(event) == stage.after(event).live_shaders()
            + stage.shaders_dropped(event),
        stage.after(event) is Finished ==> stage.after(event).live_shaders() == Seq::<
            u32,
        >::empty(),
        stage.program_dropped(event) is Some ==> stage.program_dropped(event) == program_made(
            event,
        ),
        stage.accepts(event) && program_made(event) is Some ==> (stage.program_dropped(event)
            is Some) != (stage.after(event) == BuildStage::Finished {
            program: program_made(event),
        }),
        !stage.accepts(event) ==> stage.after(event) == stage && stage.program_dropped(event)
            == program_made(event),
{
    assert(stage.live_shaders() + shaders_made(event) =~= stage.after(event).live_shaders()
        + stage.shaders_dropped(event));
}

/// A build ends with a program exactly when both shaders compiled and the
/// program linked; then the program that was linked is the result.
pub proof fn lemma_build_result(
    vert: u32,
    vert_ok: bool,
    frag: u32,
    frag_ok: bool,
    program: u32,
    link_ok: bool,
)
    ensures
        ({
            let first = BuildStage::Vertex.after(BuildEvent::Compiled { shader: vert, ok: vert_ok });
            let second = first.after(BuildEvent::Compiled { shader: frag, ok: frag_ok });
            let third = second.after(BuildEvent::Linked { program: program, ok: link_ok });
            &&& !vert_ok ==> first == BuildStage::Finished { program: None }
            &&& vert_ok && !frag_ok ==> second == BuildStage::Finished { program: None }
            &&& vert_ok && frag_ok ==> third == BuildStage::Finished {
                program: if link_ok {
                    Some(program)
                } else {
                    None
                },
            }
        }),
{
}

} // verus!
