//! What is bound where.
//!
//! The driver keeps a current program, a current vertex array, a buffer for
//! each buffer target and a 2D texture for each texture unit. This module
//! follows the calls that change them, so that one can say what a list of
//! calls leaves bound.
use crate::gpu::{
    views, Command, CommandView, ARRAY_BUFFER, ELEMENT_ARRAY_BUFFER, TEXTURE0, TEXTURE_2D,
    TEXTURE_UNITS,
};
use vstd::prelude::*;

verus! {

/// The binding points that the scenes use. `0` means that nothing is bound.
#[derive(Debug, PartialEq, Eq)]
pub struct Bindings {
    pub program: u32,
    pub vertex_array: u32,
    pub array_buffer: u32,
    pub element_array_buffer: u32,
    /// The texture unit that texture calls act on, counted from 0.
    pub active_unit: u32,
    /// The 2D texture of each unit.
    pub textures: Vec<u32>,
}

/// [`Bindings`] as a mathematical value.
pub struct BindingsView {
    pub program: u32,
    pub vertex_array: u32,
    pub array_buffer: u32,
    pub element_array_buffer: u32,
    pub active_unit: u32,
    pub textures: Seq<u32>,
}

impl View for Bindings {
    type V = BindingsView;

    open spec fn view(&self) -> BindingsView {
        BindingsView {
            program: self.program,
            vertex_array: self.vertex_array,
            array_buffer: self.array_buffer,
            element_array_buffer: self.element_array_buffer,
            active_unit: self.active_unit,
            textures: self.textures@,
        }
    }
}

impl BindingsView {
    /// There is one texture binding for each unit, and the active unit is
    /// one of them.
    pub open spec fn wf(self) -> bool {
        self.textures.len() == TEXTURE_UNITS && self.active_unit < TEXTURE_UNITS
    }

    /// Nothing bound anywhere, unit 0 active: a context that was just made.
    pub open spec fn unbound() -> BindingsView {
        BindingsView {
            program: 0,
            vertex_array: 0,
            array_buffer: 0,
            element_array_buffer: 0,
            active_unit: 0,
            textures: Seq::new(TEXTURE_UNITS as nat, |i: int| 0u32),
        }
    }

    /// The bindings after one call. A call that binds nothing, or that the
    /// driver would refuse (a unit that does not exist), changes nothing.
    pub open spec fn apply(self, command: CommandView) -> BindingsView {
        match command {
            CommandView::UseProgram { program } => BindingsView { program, ..self },
            CommandView::BindVertexArray { array } => BindingsView { vertex_array: array, ..self },
            CommandView::BindBuffer { target, buffer } => if target == ARRAY_BUFFER {
                BindingsView { array_buffer: buffer, ..self }
            } else if target == ELEMENT_ARRAY_BUFFER {
                BindingsView { element_array_buffer: buffer, ..self }
            } else {
                self
            },
            CommandView::ActiveTexture { texture } => if TEXTURE0 <= texture < TEXTURE0
                + TEXTURE_UNITS {
                BindingsView { active_unit: (texture - TEXTURE0) as u32, ..self }
            } else {
                self
            },
            CommandView::BindTexture { target, texture } => if target == TEXTURE_2D {
                BindingsView {
                    textures: self.textures.update(self.active_unit as int, texture),
                    ..self
                }
            } else {
                self
            },
            _ => self,
        }
    }

    /// The bindings after a list of calls, made in order.
    pub open spec fn apply_all(self, commands: Seq<CommandView>) -> BindingsView
        decreases commands.len(),
    {
        if commands.len() == 0 {
            self
        } else {
            self.apply_all(commands.drop_last()).apply(commands.last())
        }
    }
}

/// Calls made one list after another act as the two lists joined.
pub proof fn lemma_apply_all_add(
    bindings: BindingsView,
    first: Seq<CommandView>,
    second: Seq<CommandView>,
)
    ensures
        bindings.apply_all(first + second) == bindings.apply_all(first).apply_all(second),
    decreases second.len(),
{
    if second.len() == 0 {
        assert(first + second =~= first);
    } else {
        lemma_apply_all_add(bindings, first, second.drop_last());
        assert((first + second).drop_last() =~= first + second.drop_last());
    }
}

impl Bindings {
    /// Nothing bound anywhere, unit 0 active.
    pub fn new() -> (bindings: Bindings)
        ensures
            bindings@ == BindingsView::unbound(),
            bindings@.wf(),
    {
        let mut textures: Vec<u32> = Vec::new();
        let mut unit: u32 = 0;
        while unit < TEXTURE_UNITS
            invariant
                unit <= TEXTURE_UNITS,
                textures@.len() == unit,
                forall|i: int| 0 <= i < unit ==> textures@[i] == 0,
            decreases TEXTURE_UNITS - unit,
        {
            textures.push(0);
            unit = unit + 1;
        }
        let bindings = Bindings {
            program: 0,
            vertex_array: 0,
            array_buffer: 0,
            element_array_buffer: 0,
            active_unit: 0,
            textures,
        };
        assert(bindings@.textures =~= BindingsView::unbound().textures);
        bindings
    }

    /// Follows one call.
    pub fn apply(&mut self, command: &Command)
        requires
            old(self)@.wf(),
        ensures
            final(self)@ == old(self)@.apply(command@),
            final(self)@.wf(),
    {
        match command {
            Command::UseProgram { program } => {
                self.program = *program;
            },
            Command::BindVertexArray { array } => {
                self.vertex_array = *array;
            },
            Command::BindBuffer { target, buffer } => {
                if *target == ARRAY_BUFFER {
                    self.array_buffer = *buffer;
                } else if *target == ELEMENT_ARRAY_BUFFER {
                    self.element_array_buffer = *buffer;
                }
            },
            Command::ActiveTexture { texture } => {
                if TEXTURE0 <= *texture && *texture < TEXTURE0 + TEXTURE_UNITS {
                    self.active_unit = *texture - TEXTURE0;
                }
            },
            Command::BindTexture { target, texture } => {
                if *target == TEXTURE_2D {
                    self.textures.set(self.active_unit as usize, *texture);
                }
            },
            _ => {},
        }
    }

    /// Follows a list of calls, in order.
    pub fn apply_all(&mut self, commands: &Vec<Command>)
        requires
            old(self)@.wf(),
        ensures
            final(self)@ == old(self)@.apply_all(views(commands@)),
            final(self)@.wf(),
    {
        let mut done: usize = 0;
        while done < commands.len()
            invariant
                done <= commands.len(),
                self@.wf(),
                self@ == old(self)@.apply_all(views(commands@).take(done as int)),
            decreases commands.len() - done,
        {
            self.apply(&commands[done]);
            proof {
                let all = views(commands@);
                assert(all.take(done + 1).drop_last() =~= all.take(done as int));
            }
            done = done + 1;
        }
        assert(views(commands@).take(done as int) =~= views(commands@));
    }
}

} // verus!
