//! The renderer: one scene, from the moment it is built to the moment its
//! context goes away.
use crate::construction::Construction;
use crate::error::{Error, ErrorView};
use crate::gpu::{views, Command, CommandView};
use crate::samples::SampleProps;
use vstd::prelude::*;

verus! {

/// Holds the one scene of a rendering session. The scene is live and
/// well-formed until the renderer is torn down; after that every operation
/// makes no call at all.
pub struct Renderer {
    sample: SampleProps,
}

impl Renderer {
    #[verifier::type_invariant]
    spec fn inv(self) -> bool {
        self.sample.wf()
    }

    /// The scene that the renderer holds; `Destroyed` once it is torn down.
    pub closed spec fn sample(self) -> SampleProps {
        self.sample
    }

    /// The calls that set the viewport to a window of this size.
    pub open spec fn resize_commands(width: i32, height: i32) -> Seq<CommandView> {
        seq![CommandView::Viewport { x: 0, y: 0, width, height }]
    }

    /// Takes over the scene of a construction that has ended. Gives back
    /// the error if the construction was given up, and nothing while it
    /// has a request open.
    pub fn new(construction: Construction) -> (r: Option<Result<Renderer, Error>>)
        ensures
            match r {
                Some(Ok(renderer)) => construction@.outcome() == Some(
                    Ok::<SampleProps, ErrorView>(renderer.sample()),
                ),
                Some(Err(error)) => construction@.outcome() == Some(
                    Err::<SampleProps, ErrorView>(error@),
                ),
                None => construction@.outcome() is None,
            },
    {
        match construction.finish() {
            Some(Ok(sample)) => Some(Ok(Renderer { sample })),
            Some(Err(error)) => Some(Err(error)),
            None => None,
        }
    }

    /// Whether the scene still exists.
    pub fn is_live(&self) -> (live: bool)
        ensures
            live == self.sample().is_live(),
    {
        match self.sample {
            SampleProps::Destroyed => false,
            _ => true,
        }
    }

    /// The calls that draw a frame.
    pub fn draw(&self) -> (commands: Vec<Command>)
        ensures
            views(commands@) == self.sample().draw_commands(),
    {
        if self.is_live() {
            self.sample.draw()
        } else {
            let commands: Vec<Command> = Vec::new();
            assert(views(commands@) =~= self.sample().draw_commands());
            commands
        }
    }

    /// Moves the scene on by one frame. Gives back whether a frame has to
    /// be drawn, and the calls to make.
    pub fn snapshot(&mut self) -> (r: (bool, Vec<Command>))
        ensures
            r.0 == (old(self).sample() is SimpleSquare),
            views(r.1@) == old(self).sample().snapshot_commands(),
            final(self).sample() == old(self).sample().after_snapshot(),
    {
        proof {
            use_type_invariant(&*self);
        }
        if self.is_live() {
            let mut sample = SampleProps::Destroyed;
            std::mem::swap(&mut self.sample, &mut sample);
            let r = sample.snapshot();
            self.sample = sample;
            r
        } else {
            let commands: Vec<Command> = Vec::new();
            assert(views(commands@) =~= old(self).sample().snapshot_commands());
            (false, commands)
        }
    }

    /// The calls that fit the viewport to a window of this size.
    pub fn resize(&self, width: i32, height: i32) -> (commands: Vec<Command>)
        ensures
            views(commands@) == Renderer::resize_commands(width, height),
    {
        let commands = vec![Command::Viewport { x: 0, y: 0, width, height }];
        assert(views(commands@) =~= Renderer::resize_commands(width, height));
        commands
    }

    /// Tears the renderer down: the calls that delete what the scene owns.
    /// A second time there is nothing left to delete.
    pub fn drop(&mut self) -> (commands: Vec<Command>)
        ensures
            views(commands@) == old(self).sample().drop_commands(),
            final(self).sample() == SampleProps::Destroyed,
    {
        if self.is_live() {
            let mut sample = SampleProps::Destroyed;
            std::mem::swap(&mut self.sample, &mut sample);
            sample.drop()
        } else {
            let commands: Vec<Command> = Vec::new();
            assert(views(commands@) =~= old(self).sample().drop_commands());
            commands
        }
    }
}

} // verus!
