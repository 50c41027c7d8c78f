//! The draws of one frame, as the passes see them: which image each pass
//! reads, which it renders to, and what its semantics resolve against.

use vstd::prelude::*;
use crate::filter_pass::{default_matrix, Bindings, FilterPass, RenderTarget, Viewport};
use crate::framebuffer::{bound_after, Command, Gl3Framebuffer, GlImage, Texture};
use crate::uniforms::{ring_slot_of, Blocks};

verus! {

/// A chain at the moment its passes are drawn: every image has the size of
/// this frame, and the views of feedback and history are taken.
pub struct Stage {
    pub passes: Seq<FilterPass>,
    /// The number of passes that are drawn; at least 1.
    pub enabled: nat,
    /// The target of each pass but the last.
    pub targets: Seq<Gl3Framebuffer>,
    /// The views of the outputs as the frame before left them.
    pub outputs: Seq<Texture>,
    /// The views of the outputs of the frame before.
    pub feedback: Seq<Texture>,
    /// The views of the inputs of earlier frames, most recent first.
    pub history: Seq<Texture>,
    pub luts: Map<usize, Texture>,
    pub parameters: Map<Seq<char>, u32>,
    /// The caller's frame counter.
    pub count: u64,
    pub direction: i32,
    pub viewport: Viewport,
    pub input: GlImage,
}

impl Stage {
    /// The frame's input, sampled as the first pass says.
    pub open spec fn original(self) -> Texture {
        Texture {
            image: self.input,
            filter: self.passes[0].config.filter,
            mip_filter: self.passes[0].config.filter,
            wrap_mode: self.passes[0].config.wrap_mode,
        }
    }

    /// The output of pass `i`, sampled as that pass says.
    pub open spec fn output_view(self, i: int) -> Texture {
        self.targets[i].sampled(self.passes[i].config.filter, self.passes[i].config.wrap_mode)
    }

    /// Whether pass `i` is the one that renders into the caller's viewport.
    pub open spec fn is_last(self, i: int) -> bool {
        i + 1 == self.enabled
    }

    /// What pass `i` reads as its source: the frame's input for the first pass,
    /// else the output of the pass before; the last pass filters it as it
    /// says itself.
    pub open spec fn source(self, i: int) -> Texture {
        let plain = if i == 0 {
            self.original()
        } else {
            self.output_view(i - 1)
        };
        if self.is_last(i) {
            Texture {
                image: plain.image,
                filter: self.passes[i].config.filter,
                mip_filter: self.passes[i].config.filter,
                wrap_mode: plain.wrap_mode,
            }
        } else {
            plain
        }
    }

    /// Where pass `i` renders to: its own output image, or the caller's
    /// viewport for the last pass.
    pub open spec fn target(self, i: int) -> RenderTarget {
        if self.is_last(i) {
            RenderTarget {
                framebuffer: self.viewport.output,
                mvp: self.viewport.mvp,
                x: self.viewport.x,
                y: self.viewport.y,
            }
        } else {
            RenderTarget { framebuffer: self.targets[i], mvp: None, x: 0, y: 0 }
        }
    }

    /// The outputs of this frame that pass `i` can see: those of the passes
    /// before it.
    pub open spec fn visible(self, i: int) -> Seq<Texture> {
        Seq::new(i as nat, |j: int| self.output_view(j))
    }

    /// What the semantics of pass `i` resolve against.
    pub open spec fn bindings(self, i: int) -> Bindings {
        Bindings {
            index: i as nat,
            frame_count: self.passes[i].frame_count_for(self.count),
            frame_direction: self.direction,
            mvp: match self.target(i).mvp {
                Some(matrix) => matrix@,
                None => default_matrix(self.target(i).framebuffer == self.viewport.output),
            },
            output: self.target(i).framebuffer.size,
            final_viewport: self.viewport.output.size,
            original: self.original(),
            source: self.source(i),
            history: self.history,
            outputs: self.visible(i),
            feedback: self.feedback,
            luts: self.luts,
            parameters: self.parameters,
        }
    }

    /// The commands that draw pass `i`.
    pub open spec fn commands(self, i: int) -> Seq<Command> {
        self.passes[i].draw_commands(
            i as usize,
            ring_slot_of(self.count) as usize,
            &self.viewport,
            self.target(i),
            self.bindings(i),
        )
    }

    /// The commands that draw the first `upto` passes, one after the other.
    pub open spec fn draws(self, upto: nat) -> Seq<Command>
        decreases upto,
    {
        if upto == 0 {
            Seq::<Command>::empty()
        } else {
            self.draws((upto - 1) as nat) + self.commands(upto - 1)
        }
    }

    /// The uniform blocks of pass `i` once it is drawn.
    pub open spec fn storage(self, i: int) -> Blocks {
        self.passes[i].uniform_storage@.apply(self.passes[i].uniform_writes(self.bindings(i)))
    }

    /// The views of the outputs once the passes are drawn: those of this
    /// frame for every pass but the last, and the earlier ones for the rest.
    pub open spec fn outputs_after(self) -> Seq<Texture> {
        Seq::new(
            self.outputs.len(),
            |j: int|
                if j + 1 < self.enabled {
                    self.output_view(j)
                } else {
                    self.outputs[j]
                },
        )
    }
}

/// Running one sequence of commands after another binds what the second
/// binds, starting from what the first left bound.
pub proof fn lemma_bound_after_concat(first: Seq<Command>, second: Seq<Command>, bound: u32)
    ensures
        bound_after(first + second, bound) == bound_after(second, bound_after(first, bound)),
    decreases second.len(),
{
    if second.len() == 0 {
        assert(first + second =~= first);
    } else {
        assert((first + second).drop_last() =~= first + second.drop_last());
        assert((first + second).last() == second.last());
        lemma_bound_after_concat(first, second.drop_last(), bound);
    }
}

} // verus!
