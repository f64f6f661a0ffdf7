use vstd::prelude::*;

use crate::device::Command;
use crate::geometry::{draw_plan, geometry_fault, release_plan, GeometryView, GraphicsObject};
use crate::shader::ShaderPipe;

verus! {

/// The frame loop's life: set up once, run, and end for good.
#[derive(PartialEq, Eq, Structural, Clone, Copy, Debug)]
pub enum LoopPhase {
    Uninitialized,
    Running,
    Terminated,
}

/// The region of the drawable surface that rendering maps onto.
#[derive(PartialEq, Eq, Structural, Clone, Copy, Debug)]
pub struct Viewport {
    pub x: i32,
    pub y: i32,
    pub width: i32,
    pub height: i32,
}

/// An input event, as far as the frame loop cares.
#[derive(PartialEq, Eq, Structural, Clone, Copy, Debug)]
pub enum Event {
    Quit,
    Resized { width: i32, height: i32 },
    /// Any other event; ignored.
    Other,
}

/// The viewport after a resize to `width` by `height`.
pub open spec fn resized(width: i32, height: i32) -> Viewport {
    Viewport { x: 0, y: 0, width, height }
}

/// Dispatches `events` in order from viewport `vp`: the viewport reached, the
/// commands issued, and whether a quit was seen. A resize sets the viewport and
/// applies it to the device; a quit stops the dispatch, and the events after it
/// are not looked at; other events are ignored.
pub open spec fn run_events(vp: Viewport, events: Seq<Event>) -> (Viewport, Seq<Command>, bool)
    decreases events.len(),
{
    if events.len() == 0 {
        (vp, seq![], false)
    } else {
        let (v, cmds, quit) = run_events(vp, events.drop_last());
        if quit {
            (v, cmds, quit)
        } else {
            match events.last() {
                Event::Quit => (v, cmds, true),
                Event::Resized { width, height } => (
                    resized(width, height),
                    cmds.push(Command::Viewport { x: 0, y: 0, width, height }),
                    false,
                ),
                Event::Other => (v, cmds, false),
            }
        }
    }
}

/// One frame: clear, activate the program, draw the object, swap buffers.
pub open spec fn render_plan(program: u32, g: GeometryView) -> Seq<Command> {
    seq![Command::ClearColor, Command::UseProgram { program }] + draw_plan(g) + seq![
        Command::SwapBuffers,
    ]
}

/// Teardown: release the program, then everything the object owns.
pub open spec fn teardown_plan(program: u32, g: GeometryView) -> Seq<Command> {
    seq![Command::DeleteProgram { program }] + release_plan(g)
}

/// How many times `c` occurs in `s`.
pub open spec fn occurrences(s: Seq<Command>, c: Command) -> nat
    decreases s.len(),
{
    if s.len() == 0 {
        0
    } else {
        occurrences(s.drop_last(), c) + if s.last() == c {
            1nat
        } else {
            0nat
        }
    }
}

proof fn lemma_occurrences_concat(a: Seq<Command>, b: Seq<Command>, c: Command)
    ensures
        occurrences(a + b, c) == occurrences(a, c) + occurrences(b, c),
    decreases b.len(),
{
    if b.len() == 0 {
        assert(a + b =~= a);
    } else {
        assert((a + b).drop_last() =~= a + b.drop_last());
        lemma_occurrences_concat(a, b.drop_last(), c);
    }
}

proof fn lemma_occurrences_absent(s: Seq<Command>, c: Command)
    requires
        forall|i: int| 0 <= i < s.len() ==> s[i] != c,
    ensures
        occurrences(s, c) == 0,
    decreases s.len(),
{
    if s.len() > 0 {
        lemma_occurrences_absent(s.drop_last(), c);
    }
}

/// Dispatch itself issues nothing but viewport changes.
proof fn lemma_dispatch_only_viewports(vp: Viewport, events: Seq<Event>)
    ensures
        forall|i: int| 0 <= i < run_events(vp, events).1.len() ==> (#[trigger] run_events(vp, events).1[i]) is Viewport,
    decreases events.len(),
{
    if events.len() > 0 {
        lemma_dispatch_only_viewports(vp, events.drop_last());
    }
}

/// Once a quit is among the events, dispatch reports it.
proof fn lemma_quit_seen(vp: Viewport, events: Seq<Event>, k: int)
    requires
        0 <= k < events.len(),
        events[k] == Event::Quit,
    ensures
        run_events(vp, events).2,
    decreases events.len(),
{
    if k < events.len() - 1 {
        lemma_quit_seen(vp, events.drop_last(), k);
    }
}

/// A resize as the last of a batch of events without a quit leaves the
/// viewport at exactly (0, 0, width, height), and applying it to the device is
/// the last command of the dispatch, so it comes before the frame is rendered.
pub proof fn lemma_resize_applied(vp: Viewport, events: Seq<Event>, width: i32, height: i32)
    requires
        events.len() > 0,
        events.last() == (Event::Resized { width, height }),
        forall|i: int| 0 <= i < events.len() ==> events[i] != Event::Quit,
    ensures
        !run_events(vp, events).2,
        run_events(vp, events).0 == (Viewport { x: 0, y: 0, width, height }),
        run_events(vp, events).1.last() == (Command::Viewport { x: 0, y: 0, width, height }),
{
    if run_events(vp, events.drop_last()).2 {
        lemma_quit_not_seen(vp, events.drop_last());
    }
}

proof fn lemma_quit_not_seen(vp: Viewport, events: Seq<Event>)
    requires
        forall|i: int| 0 <= i < events.len() ==> events[i] != Event::Quit,
    ensures
        !run_events(vp, events).2,
    decreases events.len(),
{
    if events.len() > 0 {
        lemma_quit_not_seen(vp, events.drop_last());
    }
}

/// A quit anywhere in a batch ends the loop: what the iteration issues after
/// dispatch is the teardown, with no draw and no buffer swap, and it releases
/// the program, the vertex array, both buffers and the texture exactly once
/// each.
pub proof fn lemma_quit_releases_once(vp: Viewport, events: Seq<Event>, program: u32, g: GeometryView, k: int)
    requires
        0 <= k < events.len(),
        events[k] == Event::Quit,
        geometry_fault(g.vertices, g.indices, g.stride, g.attributes, g.vao, g.vbo, g.ebo) is None,
    ensures
        run_events(vp, events).2,
        ({
            let issued = run_events(vp, events).1 + teardown_plan(program, g);
            &&& forall|i: int| 0 <= i < issued.len() ==> !((#[trigger] issued[i]) is DrawTriangles)
                && !(issued[i] is SwapBuffers)
            &&& occurrences(issued, Command::DeleteProgram { program }) == 1
            &&& occurrences(issued, Command::DeleteVertexArray { array: g.vao }) == 1
            &&& occurrences(issued, Command::DeleteBuffer { buffer: g.vbo }) == 1
            &&& occurrences(issued, Command::DeleteBuffer { buffer: g.ebo }) == 1
            &&& g.texture matches Some(t) ==> occurrences(issued, Command::DeleteTexture { texture: t.handle }) == 1
        }),
{
    lemma_quit_seen(vp, events, k);
    lemma_dispatch_only_viewports(vp, events);
    let dispatched = run_events(vp, events).1;
    let teardown = teardown_plan(program, g);
    let issued = dispatched + teardown;
    assert forall|i: int| 0 <= i < issued.len() implies !((#[trigger] issued[i]) is DrawTriangles) && !(issued[i] is SwapBuffers) by {
        if i < dispatched.len() {
            assert(dispatched[i] is Viewport);
        }
    }
    let deletes = seq![
        Command::DeleteProgram { program },
        Command::DeleteVertexArray { array: g.vao },
        Command::DeleteBuffer { buffer: g.vbo },
        Command::DeleteBuffer { buffer: g.ebo },
    ];
    let tex = match g.texture {
        Some(t) => seq![Command::DeleteTexture { texture: t.handle }],
        None => Seq::<Command>::empty(),
    };
    assert(teardown =~= deletes + tex);
    lemma_count_after_dispatch(dispatched, deletes, tex, Command::DeleteProgram { program });
    lemma_count_after_dispatch(dispatched, deletes, tex, Command::DeleteVertexArray { array: g.vao });
    lemma_count_after_dispatch(dispatched, deletes, tex, Command::DeleteBuffer { buffer: g.vbo });
    lemma_count_after_dispatch(dispatched, deletes, tex, Command::DeleteBuffer { buffer: g.ebo });
    reveal_with_fuel(occurrences, 5);
    if let Some(t) = g.texture {
        lemma_count_after_dispatch(dispatched, deletes, tex, Command::DeleteTexture { texture: t.handle });
    }
}

proof fn lemma_count_after_dispatch(dispatched: Seq<Command>, deletes: Seq<Command>, tex: Seq<Command>, c: Command)
    requires
        forall|i: int| 0 <= i < dispatched.len() ==> (#[trigger] dispatched[i]) is Viewport,
        !(c is Viewport),
    ensures
        occurrences(dispatched + (deletes + tex), c) == occurrences(deletes, c) + occurrences(tex, c),
{
    lemma_occurrences_concat(dispatched, deletes + tex, c);
    lemma_occurrences_concat(deletes, tex, c);
    lemma_occurrences_absent(dispatched, c);
}

/// What the frame loop is: its phase, viewport and the resources it owns.
pub struct GameView {
    pub phase: LoopPhase,
    pub viewport: Viewport,
    pub program: u32,
    pub geometry: GeometryView,
}

/// The frame loop: it owns one program and one graphics object while running.
pub struct Game {
    phase: LoopPhase,
    viewport: Viewport,
    rend: Option<ShaderPipe>,
    object: Option<GraphicsObject>,
}

impl View for Game {
    type V = GameView;

    closed spec fn view(&self) -> GameView {
        GameView {
            phase: self.phase,
            viewport: self.viewport,
            program: match self.rend {
                Some(p) => p@,
                None => 0,
            },
            geometry: self.object->Some_0@,
        }
    }
}

impl Game {
    #[verifier::type_invariant]
    spec fn wf(&self) -> bool {
        (self.phase == LoopPhase::Running) == (self.rend is Some && self.object is Some)
            && (self.phase != LoopPhase::Running ==> self.rend is None && self.object is None)
    }

    /// A loop not yet set up, for a drawable surface of `width` by `height`.
    pub fn new(width: i32, height: i32) -> (r: Game)
        ensures
            r@.phase == LoopPhase::Uninitialized,
            r@.viewport == resized(width, height),
    {
        Game { phase: LoopPhase::Uninitialized, viewport: Viewport { x: 0, y: 0, width, height }, rend: None, object: None }
    }

    pub fn phase(&self) -> (r: LoopPhase)
        ensures
            r == self@.phase,
    {
        self.phase
    }

    pub fn viewport(&self) -> (r: Viewport)
        ensures
            r == self@.viewport,
    {
        self.viewport
    }

    /// Takes the set-up program and object and starts running.
    pub fn begin(&mut self, rend: ShaderPipe, object: GraphicsObject)
        requires
            old(self)@.phase == LoopPhase::Uninitialized,
        ensures
            final(self)@ == (GameView {
                phase: LoopPhase::Running,
                viewport: old(self)@.viewport,
                program: rend@,
                geometry: object@,
            }),
    {
        *self = Game { phase: LoopPhase::Running, viewport: self.viewport, rend: Some(rend), object: Some(object) };
    }

    /// The object being drawn, while running.
    pub fn object(&self) -> (r: Option<&GraphicsObject>)
        ensures
            r is Some <==> self@.phase == LoopPhase::Running,
            r matches Some(g) ==> g@ == self@.geometry,
    {
        proof {
            use_type_invariant(self);
        }
        self.object.as_ref()
    }

    /// One iteration of the loop: dispatches the drained `events`, then either
    /// renders one frame or, if a quit came, renders nothing, ends the loop and
    /// releases every resource once.
    pub fn tick(&mut self, events: &Vec<Event>) -> (r: Vec<Command>)
        requires
            old(self)@.phase == LoopPhase::Running,
        ensures
            ({
                let (vp, cmds, quit) = run_events(old(self)@.viewport, events@);
                &&& final(self)@.viewport == vp
                &&& final(self)@.phase == if quit {
                    LoopPhase::Terminated
                } else {
                    LoopPhase::Running
                }
                &&& !quit ==> final(self)@.program == old(self)@.program && final(self)@.geometry
                    == old(self)@.geometry
                &&& r@ == cmds + if quit {
                    teardown_plan(old(self)@.program, old(self)@.geometry)
                } else {
                    render_plan(old(self)@.program, old(self)@.geometry)
                }
            }),
    {
        proof {
            use_type_invariant(&*self);
        }
        let mut cmds: Vec<Command> = Vec::new();
        let mut quit = false;
        let mut i: usize = 0;
        while i < events.len()
            invariant
                0 <= i <= events.len(),
                (self.viewport, cmds@, quit) == run_events(old(self)@.viewport, events@.take(i as int)),
                self.phase == old(self).phase,
                self.rend == old(self).rend,
                self.object == old(self).object,
            decreases events.len() - i,
        {
            proof {
                use_type_invariant(&*self);
            }
            assert(events@.take(i + 1).drop_last() =~= events@.take(i as int));
            if !quit {
                match events[i] {
                    Event::Quit => {
                        quit = true;
                    },
                    Event::Resized { width, height } => {
                        self.viewport = Viewport { x: 0, y: 0, width, height };
                        cmds.push(Command::Viewport { x: 0, y: 0, width, height });
                    },
                    Event::Other => {},
                }
            }
            i = i + 1;
        }
        assert(events@.take(i as int) =~= events@);
        let ghost head = cmds@;
        let (rend, object) = match (&self.rend, &self.object) {
            (Some(rend), Some(object)) => (rend, object),
            _ => {
                return cmds;
            },
        };
        if quit {
            cmds.push(rend.release());
            let mut released = object.release();
            cmds.append(&mut released);
            assert(cmds@ =~= head + teardown_plan(rend@, object@));
            *self = Game { phase: LoopPhase::Terminated, viewport: self.viewport, rend: None, object: None };
        } else {
            cmds.push(Command::ClearColor);
            cmds.push(rend.activate());
            let mut drawn = object.draw();
            cmds.append(&mut drawn);
            cmds.push(Command::SwapBuffers);
            assert(cmds@ =~= head + render_plan(rend@, object@));
        }
        cmds
    }
}

} // verus!
