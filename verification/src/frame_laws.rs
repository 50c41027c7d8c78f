//! What holds of every frame of a chain, proved from the contract of
//! [`FilterChain::frame`](crate::filter_chain::FilterChain::frame).

use vstd::prelude::*;
use crate::common::Size;
use crate::filter_chain::FilterChain;
use crate::filter_pass::{bindings_of, Bindings, FilterPass, RenderTarget, Viewport};
use crate::framebuffer::{at_least_one, bound_after, Allocation, Command, GlImage};
use crate::scaling::Scale2D;
use crate::semantics::TextureSemantics;
use crate::stage::lemma_bound_after_concat;
use crate::uniforms::UniformWrite;

verus! {

/// A resolved size has no empty side.
pub proof fn lemma_resolved_is_positive(scaling: Scale2D, source: Size, viewport: Size, original: Size)
    ensures
        scaling.resolved(source, viewport, original).width >= 1,
        scaling.resolved(source, viewport, original).height >= 1,
        at_least_one(scaling.resolved(source, viewport, original)) == scaling.resolved(source, viewport, original),
{
}

/// Once a frame has resized them with an answer to every request, the
/// output image and the feedback image of every enabled pass have the size
/// that the pass's scale rule resolves to, where the source of a pass is
/// the resized output of the pass before it, and the frame's input for the
/// first pass.
pub proof fn lemma_size_agreement(
    chain: FilterChain,
    i: nat,
    viewport: Size,
    input: Size,
    allocations: Seq<Allocation>,
)
    requires
        chain.wf(),
        i < chain.enabled(),
        chain.resize_requests(chain.enabled(), viewport, input).len() <= allocations.len(),
    ensures
        chain.sized_output(i, viewport, input, allocations).size == chain.passes@[i as int].config.scaling.resolved(
            if i == 0 {
                input
            } else {
                chain.sized_output((i - 1) as nat, viewport, input, allocations).size
            },
            viewport,
            input,
        ),
        chain.sized_feedback(i, viewport, input, allocations).size == chain.sized_output(
            i,
            viewport,
            input,
            allocations,
        ).size,
{
    lemma_sized_to_output_size(chain, i, viewport, input, allocations);
    if i > 0 {
        lemma_sized_to_output_size(chain, (i - 1) as nat, viewport, input, allocations);
        assert(chain.output_size((i - 1) as nat, viewport, input) == chain.source_size(i, viewport, input));
    }
    assert(chain.output_size(i, viewport, input) == chain.passes@[i as int].config.scaling.resolved(
        chain.source_size(i, viewport, input),
        viewport,
        input,
    ));
}

/// The resized images of a pass have the output size of the pass.
pub proof fn lemma_sized_to_output_size(
    chain: FilterChain,
    i: nat,
    viewport: Size,
    input: Size,
    allocations: Seq<Allocation>,
)
    requires
        chain.wf(),
        i < chain.enabled(),
        chain.resize_requests(chain.enabled(), viewport, input).len() <= allocations.len(),
    ensures
        chain.sized_output(i, viewport, input, allocations).size == chain.output_size(i, viewport, input),
        chain.sized_feedback(i, viewport, input, allocations).size == chain.output_size(i, viewport, input),
{
    lemma_resolved_is_positive(
        chain.passes@[i as int].config.scaling,
        chain.source_size(i, viewport, input),
        viewport,
        input,
    );
    chain.lemma_requests_grow(i, chain.enabled(), viewport, input);
    assert(!chain.output_framebuffers@[i as int].is_raw);
    assert(!chain.feedback_framebuffers@[i as int].is_raw);
}

/// After a frame the output and the feedback image of every enabled pass
/// have the size that the frame resolved for the pass.
pub proof fn lemma_sizes_after_frame(
    before: FilterChain,
    after: FilterChain,
    count: u64,
    viewport: Viewport,
    input: GlImage,
    direction: i32,
    allocations: Seq<Allocation>,
    i: nat,
)
    requires
        before.wf(),
        i < before.enabled(),
        allocations.len() == before.requests(viewport.output.size, input).len(),
        before.frame_result(&after, count, viewport, input, direction, allocations),
    ensures
        after.output_framebuffers@[i as int].size == before.output_size(i, viewport.output.size, input.size),
        after.feedback_framebuffers@[i as int].size == before.output_size(i, viewport.output.size, input.size),
{
    lemma_sized_to_output_size(before, i, viewport.output.size, input.size, allocations);
}

/// A feedback image that a frame makes is cleared by the frame before any
/// pass is drawn, so that it reads as black until a pass has rendered into
/// it: the commands that clear the feedback images hold the commands that
/// clear this one, from the position that comes back.
pub proof fn lemma_fresh_feedback_is_cleared(
    chain: FilterChain,
    upto: nat,
    viewport: Size,
    input: Size,
    allocations: Seq<Allocation>,
    i: nat,
) -> (at: int)
    requires
        i < upto,
        chain.feedback_answer(i, viewport, input, allocations) is Some,
    ensures
        0 <= at,
        at + 3 <= chain.feedback_clears(upto, viewport, input, allocations).len(),
        chain.feedback_clears(upto, viewport, input, allocations).subrange(at, at + 3) == chain.sized_feedback(
            i,
            viewport,
            input,
            allocations,
        ).clear_commands(true),
    decreases upto,
{
    let last = (upto - 1) as nat;
    let earlier = chain.feedback_clears(last, viewport, input, allocations);
    let clears = chain.feedback_clears(upto, viewport, input, allocations);
    if i == last {
        assert(clears.subrange(earlier.len() as int, earlier.len() as int + 3) =~= chain.sized_feedback(
            i,
            viewport,
            input,
            allocations,
        ).clear_commands(true));
        earlier.len() as int
    } else {
        let at = lemma_fresh_feedback_is_cleared(chain, last, viewport, input, allocations, i);
        assert(clears.subrange(at, at + 3) =~= earlier.subrange(at, at + 3));
        at
    }
}

/// A pass that is not the last renders into its resized output image.
pub proof fn lemma_target_is_sized_output(
    chain: FilterChain,
    count: u64,
    viewport: Viewport,
    input: GlImage,
    direction: i32,
    allocations: Seq<Allocation>,
    i: int,
)
    requires
        chain.wf(),
        0 <= i,
        i + 1 < chain.enabled(),
    ensures
        chain.frame_stage(count, direction, viewport, input, allocations).target(i).framebuffer
            == chain.sized_output(i as nat, viewport.output.size, input.size, allocations),
{
}

/// After a frame the feedback image of an enabled pass is the output image
/// that the frame resized for the pass.
pub proof fn lemma_feedback_is_last_output(
    before: FilterChain,
    after: FilterChain,
    count: u64,
    viewport: Viewport,
    input: GlImage,
    direction: i32,
    allocations: Seq<Allocation>,
    i: int,
)
    requires
        before.wf(),
        before.frame_result(&after, count, viewport, input, direction, allocations),
        0 <= i < before.enabled(),
    ensures
        after.enabled() == before.enabled(),
        after.feedback_framebuffers@[i] == before.sized_output(
            i as nat,
            viewport.output.size,
            input.size,
            allocations,
        ),
{
}

/// In the frame after a frame, the view that the passes sample as the
/// feedback of pass `i` is of the image that pass `i` rendered into in the
/// frame before, provided that pass rendered into an image of the chain and
/// that the image keeps its size and format.
pub proof fn lemma_feedback_lag(
    before: FilterChain,
    after: FilterChain,
    count: u64,
    viewport: Viewport,
    input: GlImage,
    direction: i32,
    allocations: Seq<Allocation>,
    next_count: u64,
    next_viewport: Viewport,
    next_input: GlImage,
    next_direction: i32,
    next_allocations: Seq<Allocation>,
    i: int,
    reader: int,
)
    requires
        before.wf(),
        after.wf(),
        before.frame_result(&after, count, viewport, input, direction, allocations),
        0 <= i,
        i + 1 < before.enabled(),
        0 <= reader < before.enabled(),
        !after.feedback_needs(i as nat, next_viewport.output.size, next_input.size),
    ensures
        after.frame_stage(next_count, next_direction, next_viewport, next_input, next_allocations).bindings(
            reader,
        ).texture(TextureSemantics::PassFeedback, i as nat).image.handle == before.frame_stage(
            count,
            direction,
            viewport,
            input,
            allocations,
        ).target(i).framebuffer.image,
{
    lemma_target_is_sized_output(before, count, viewport, input, direction, allocations, i);
    lemma_feedback_is_last_output(before, after, count, viewport, input, direction, allocations, i);
    lemma_bound_images_are_current(
        after,
        next_count,
        next_viewport,
        next_input,
        next_direction,
        next_allocations,
        reader,
        i,
    );
    assert(after.sized_feedback(i as nat, next_viewport.output.size, next_input.size, next_allocations)
        == after.feedback_framebuffers@[i]);
}

/// What a pass binds for an image of the chain is the image as the frame's
/// resize left it, never one that the resize released: the feedback of a
/// pass is its resized feedback image, the output of an earlier pass is that
/// pass's resized output image, and so is the source of every pass but the
/// first.
pub proof fn lemma_bound_images_are_current(
    chain: FilterChain,
    count: u64,
    viewport: Viewport,
    input: GlImage,
    direction: i32,
    allocations: Seq<Allocation>,
    reader: int,
    i: int,
)
    requires
        chain.wf(),
        0 <= reader < chain.enabled(),
        0 <= i < chain.enabled(),
    ensures
        chain.frame_stage(count, direction, viewport, input, allocations).bindings(reader).texture(
            TextureSemantics::PassFeedback,
            i as nat,
        ).image.handle == chain.sized_feedback(i as nat, viewport.output.size, input.size, allocations).image,
        i < reader ==> chain.frame_stage(count, direction, viewport, input, allocations).bindings(reader).texture(
            TextureSemantics::PassOutput,
            i as nat,
        ).image.handle == chain.sized_output(i as nat, viewport.output.size, input.size, allocations).image,
        reader > 0 ==> chain.frame_stage(count, direction, viewport, input, allocations).bindings(reader).texture(
            TextureSemantics::Source,
            0,
        ).image.handle == chain.sized_output((reader - 1) as nat, viewport.output.size, input.size, allocations).image,
        reader == 0 ==> chain.frame_stage(count, direction, viewport, input, allocations).bindings(reader).texture(
            TextureSemantics::Source,
            0,
        ).image == input,
{
    let stage = chain.frame_stage(count, direction, viewport, input, allocations);
    assert(stage.bindings(reader).feedback == stage.feedback);
    assert(stage.bindings(reader).source_of(TextureSemantics::PassFeedback, i as nat) == Some(stage.feedback[i]));
    if i < reader {
        assert(stage.bindings(reader).outputs[i] == stage.output_view(i));
        assert(stage.bindings(reader).source_of(TextureSemantics::PassOutput, i as nat) == Some(
            stage.output_view(i),
        ));
    }
    assert(stage.bindings(reader).source_of(TextureSemantics::Source, 0) == Some(stage.source(reader)));
}

/// A frame leaves the copy of its input as the most recent history image,
/// with the input's size and format, and moves every other history image
/// one place back; the oldest makes room.
pub proof fn lemma_history_rotation(
    before: FilterChain,
    after: FilterChain,
    count: u64,
    viewport: Viewport,
    input: GlImage,
    direction: i32,
    allocations: Seq<Allocation>,
)
    requires
        before.wf(),
        before.enabled() >= 1,
        before.history_framebuffers@.len() > 0,
        allocations.len() == before.requests(viewport.output.size, input).len(),
        before.frame_result(&after, count, viewport, input, direction, allocations),
    ensures
        after.history_framebuffers@.len() == before.history_framebuffers@.len(),
        after.history_framebuffers@[0].size == at_least_one(input.size),
        after.history_framebuffers@[0].has_format(input.format),
        before.frame_commands(count, viewport, input, false, direction, allocations).contains(
            Command::CopyImage {
                source: input.handle,
                target: after.history_framebuffers@[0].image,
                size: at_least_one(input.size),
            },
        ),
        forall|k: int|
            1 <= k < before.history_framebuffers@.len() ==> #[trigger] after.history_framebuffers@[k]
                == before.history_framebuffers@[k - 1],
{
    let kept = before.sized_history(viewport.output.size, input, allocations);
    let oldest = before.history_framebuffers@.last();
    assert(!oldest.is_raw);
    assert(after.history_framebuffers@[0] == kept);
    let commands = before.frame_commands(count, viewport, input, false, direction, allocations);
    let copy = kept.copy_commands(input);
    let stage = before.frame_stage(count, direction, viewport, input, allocations);
    let head = seq![Command::BindVertices] + Seq::<Command>::empty() + before.feedback_clears(
        before.enabled(),
        viewport.output.size,
        input.size,
        allocations,
    ) + stage.draws(before.enabled());
    assert(commands == head + copy + seq![Command::UnbindVertices]);
    assert(commands[head.len() as int + 1] == copy[1]);
}

/// The passes of a chain resolve to the same sizes after a frame as before
/// it: a frame changes no pass's scale rule.
pub proof fn lemma_sizes_are_kept(
    before: FilterChain,
    after: FilterChain,
    count: u64,
    viewport: Viewport,
    input: GlImage,
    direction: i32,
    allocations: Seq<Allocation>,
    next_viewport: Size,
    next_input: Size,
    i: nat,
)
    requires
        before.wf(),
        before.frame_result(&after, count, viewport, input, direction, allocations),
        i <= before.enabled(),
    ensures
        after.source_size(i, next_viewport, next_input) == before.source_size(i, next_viewport, next_input),
    decreases i,
{
    if i > 0 {
        lemma_sizes_are_kept(
            before,
            after,
            count,
            viewport,
            input,
            direction,
            allocations,
            next_viewport,
            next_input,
            (i - 1) as nat,
        );
        assert(before.passes@[i - 1].same_program(&after.passes@[i - 1]));
    }
}

/// A frame that follows a frame with the same viewport size and input size
/// asks for no output and no feedback image to be allocated: resizing to
/// the size and format that an image has changes nothing.
pub proof fn lemma_steady_frames_allocate_nothing(
    before: FilterChain,
    after: FilterChain,
    count: u64,
    viewport: Viewport,
    input: GlImage,
    direction: i32,
    allocations: Seq<Allocation>,
    upto: nat,
)
    requires
        before.wf(),
        before.answered(viewport.output.size, input, allocations),
        before.frame_result(&after, count, viewport, input, direction, allocations),
        upto <= before.enabled(),
    ensures
        after.resize_requests(upto, viewport.output.size, input.size) == Seq::<
            crate::framebuffer::TextureRequest,
        >::empty(),
    decreases upto,
{
    if upto > 0 {
        let i = (upto - 1) as nat;
        let size = viewport.output.size;
        lemma_steady_frames_allocate_nothing(before, after, count, viewport, input, direction, allocations, i);
        lemma_sizes_are_kept(before, after, count, viewport, input, direction, allocations, size, input.size, upto);
        lemma_sized_to_output_size(before, i, size, input.size, allocations);
        before.lemma_requests_grow(i, before.enabled(), size, input.size);
        assert(before.passes@[i as int].same_program(&after.passes@[i as int]));
        assert(after.output_framebuffers@[i as int] == before.sized_feedback(i, size, input.size, allocations));
        assert(after.feedback_framebuffers@[i as int] == before.sized_output(i, size, input.size, allocations));
        assert(!before.output_framebuffers@[i as int].is_raw);
        assert(!before.feedback_framebuffers@[i as int].is_raw);
        assert(!after.output_needs(i, size, input.size));
        assert(!after.feedback_needs(i, size, input.size));
        assert(after.pass_requests(i, size, input.size) =~= Seq::<crate::framebuffer::TextureRequest>::empty());
    }
}

/// The number of quads that a sequence of commands draws.
pub open spec fn quads_drawn(commands: Seq<Command>) -> nat
    decreases commands.len(),
{
    if commands.len() == 0 {
        0
    } else {
        quads_drawn(commands.drop_last()) + (if commands.last() is DrawQuad {
            1nat
        } else {
            0nat
        })
    }
}

/// One sequence of commands after another draws the quads of both.
pub proof fn lemma_quads_drawn_concat(first: Seq<Command>, second: Seq<Command>)
    ensures
        quads_drawn(first + second) == quads_drawn(first) + quads_drawn(second),
    decreases second.len(),
{
    if second.len() == 0 {
        assert(first + second =~= first);
    } else {
        assert((first + second).drop_last() =~= first + second.drop_last());
        assert((first + second).last() == second.last());
        lemma_quads_drawn_concat(first, second.drop_last());
    }
}

/// Commands of which none draws a quad draw none.
pub proof fn lemma_no_quads_drawn(commands: Seq<Command>)
    requires
        forall|k: int| 0 <= k < commands.len() ==> !(#[trigger] commands[k] is DrawQuad),
    ensures
        quads_drawn(commands) == 0,
    decreases commands.len(),
{
    if commands.len() > 0 {
        lemma_no_quads_drawn(commands.drop_last());
    }
}

/// The draw of a pass draws one quad.
pub proof fn lemma_draw_draws_one(
    pass: FilterPass,
    index: usize,
    ring_slot: usize,
    viewport: &Viewport,
    target: RenderTarget,
    bindings: Bindings,
)
    ensures
        quads_drawn(pass.draw_commands(index, ring_slot, viewport, target, bindings)) == 1,
{
    let binds = seq![Command::UseProgram { pass: index }] + pass.texture_commands(bindings);
    let rest = pass.target_commands(index, ring_slot, viewport, target);
    let upload = match pass.reflection.ubo {
        Some(ubo) => seq![
            Command::UploadUniforms { pass: index, buffer: pass.ubo_ring@[ring_slot as int], binding: ubo.binding },
        ],
        None => Seq::<Command>::empty(),
    };
    let push = if pass.reflection.push_constant is Some {
        seq![Command::PushConstants { pass: index }]
    } else {
        Seq::<Command>::empty()
    };
    let head = upload + push;
    let quad = rest[head.len() as int + 2];
    let tail = rest.skip(head.len() as int + 3);
    let front = binds + head + rest.subrange(head.len() as int, head.len() as int + 2);
    assert(pass.draw_commands(index, ring_slot, viewport, target, bindings) =~= front + seq![quad] + tail);
    lemma_no_quads_drawn(front);
    lemma_no_quads_drawn(tail);
    lemma_quads_drawn_concat(front + seq![quad], tail);
    lemma_quads_drawn_concat(front, seq![quad]);
    assert(seq![quad].drop_last() =~= Seq::<Command>::empty());
    reveal_with_fuel(quads_drawn, 2);
}

/// The draws of the first passes of a stage draw one quad for each pass.
pub proof fn lemma_draws_draw_one_each(stage: crate::stage::Stage, upto: nat)
    ensures
        quads_drawn(stage.draws(upto)) == upto,
    decreases upto,
{
    if upto > 0 {
        lemma_draws_draw_one_each(stage, (upto - 1) as nat);
        lemma_quads_drawn_concat(stage.draws((upto - 1) as nat), stage.commands(upto - 1));
        lemma_draw_draws_one(
            stage.passes[upto - 1],
            (upto - 1) as usize,
            crate::uniforms::ring_slot_of(stage.count) as usize,
            &stage.viewport,
            stage.target(upto - 1),
            stage.bindings(upto - 1),
        );
    }
}

/// The commands that clear history draw no quad.
pub proof fn lemma_clearing_draws_nothing(history: Seq<crate::framebuffer::Gl3Framebuffer>, upto: nat)
    ensures
        quads_drawn(FilterChain::clear_commands(history, upto)) == 0,
    decreases upto,
{
    if upto > 0 {
        lemma_clearing_draws_nothing(history, (upto - 1) as nat);
        let rest = if history[upto - 1].image != 0 {
            history[upto - 1].clear_commands(true)
        } else {
            Seq::<Command>::empty()
        };
        lemma_no_quads_drawn(rest);
        lemma_quads_drawn_concat(FilterChain::clear_commands(history, (upto - 1) as nat), rest);
    }
}

/// A frame draws exactly one quad for each enabled pass.
pub proof fn lemma_frame_draws_enabled_passes(
    chain: FilterChain,
    count: u64,
    viewport: Viewport,
    input: GlImage,
    clear: bool,
    direction: i32,
    allocations: Seq<Allocation>,
)
    ensures
        quads_drawn(chain.frame_commands(count, viewport, input, clear, direction, allocations)) == chain.enabled(),
{
    let stage = chain.frame_stage(count, direction, viewport, input, allocations);
    let start = seq![Command::BindVertices];
    let cleared = if clear {
        FilterChain::clear_commands(chain.history_framebuffers@, chain.history_framebuffers@.len())
    } else {
        Seq::<Command>::empty()
    };
    let fresh = chain.feedback_clears(chain.enabled(), viewport.output.size, input.size, allocations);
    let draws = stage.draws(chain.enabled());
    let history = chain.history_commands(viewport.output.size, input, allocations);
    let end = seq![Command::UnbindVertices];
    lemma_fresh_clears_draw_nothing(chain, chain.enabled(), viewport.output.size, input.size, allocations);
    lemma_no_quads_drawn(start);
    lemma_no_quads_drawn(end);
    lemma_no_quads_drawn(history);
    if clear {
        lemma_clearing_draws_nothing(chain.history_framebuffers@, chain.history_framebuffers@.len());
    } else {
        lemma_no_quads_drawn(cleared);
    }
    lemma_draws_draw_one_each(stage, chain.enabled());
    lemma_quads_drawn_concat(start, cleared);
    lemma_quads_drawn_concat(start + cleared, fresh);
    lemma_quads_drawn_concat(start + cleared + fresh, draws);
    lemma_quads_drawn_concat(start + cleared + fresh + draws, history);
    lemma_quads_drawn_concat(start + cleared + fresh + draws + history, end);
}

/// The commands that clear the feedback images that a frame has made draw
/// no quad.
pub proof fn lemma_fresh_clears_draw_nothing(
    chain: FilterChain,
    upto: nat,
    viewport: Size,
    input: Size,
    allocations: Seq<Allocation>,
)
    ensures
        quads_drawn(chain.feedback_clears(upto, viewport, input, allocations)) == 0,
    decreases upto,
{
    if upto > 0 {
        let i = (upto - 1) as nat;
        lemma_fresh_clears_draw_nothing(chain, i, viewport, input, allocations);
        let rest = if chain.feedback_answer(i, viewport, input, allocations) is Some {
            chain.sized_feedback(i, viewport, input, allocations).clear_commands(true)
        } else {
            Seq::<Command>::empty()
        };
        lemma_no_quads_drawn(rest);
        lemma_quads_drawn_concat(chain.feedback_clears(i, viewport, input, allocations), rest);
    }
}

/// The draw of a pass ends with the default framebuffer bound.
pub proof fn lemma_draw_unbinds(
    pass: FilterPass,
    index: usize,
    ring_slot: usize,
    viewport: &Viewport,
    target: RenderTarget,
    bindings: Bindings,
    bound: u32,
)
    ensures
        bound_after(pass.draw_commands(index, ring_slot, viewport, target, bindings), bound) == 0,
{
    let commands = pass.draw_commands(index, ring_slot, viewport, target, bindings);
    assert(commands.last() == (Command::BindFramebuffer { handle: 0 }));
}

/// When a frame of a chain with enabled passes is over, none of the chain's
/// render targets is bound: the default framebuffer is.
pub proof fn lemma_frame_leaves_default_bound(
    chain: FilterChain,
    count: u64,
    viewport: Viewport,
    input: GlImage,
    clear: bool,
    direction: i32,
    allocations: Seq<Allocation>,
    bound: u32,
)
    requires
        chain.wf(),
        chain.enabled() >= 1,
    ensures
        bound_after(chain.frame_commands(count, viewport, input, clear, direction, allocations), bound) == 0,
{
    let stage = chain.frame_stage(count, direction, viewport, input, allocations);
    let first = seq![Command::BindVertices] + (if clear {
        FilterChain::clear_commands(chain.history_framebuffers@, chain.history_framebuffers@.len())
    } else {
        Seq::<Command>::empty()
    }) + chain.feedback_clears(chain.enabled(), viewport.output.size, input.size, allocations);
    let earlier = stage.draws((chain.enabled() - 1) as nat);
    let last = stage.commands(chain.enabled() - 1);
    let history = chain.history_commands(viewport.output.size, input, allocations);
    let tail = seq![Command::UnbindVertices];
    let commands = chain.frame_commands(count, viewport, input, clear, direction, allocations);
    assert(stage.draws(chain.enabled()) == earlier + last);
    assert(commands =~= (first + earlier) + last + history + tail);
    lemma_bound_after_concat((first + earlier) + last + history, tail, bound);
    assert(bound_after(tail, bound_after((first + earlier) + last + history, bound)) == bound_after(
        (first + earlier) + last + history,
        bound,
    )) by {
        assert(tail.drop_last() =~= Seq::<Command>::empty());
        reveal_with_fuel(bound_after, 2);
    }
    lemma_bound_after_concat((first + earlier) + last, history, bound);
    lemma_bound_after_concat(first + earlier, last, bound);
    lemma_draw_unbinds(
        stage.passes[chain.enabled() - 1],
        (chain.enabled() - 1) as usize,
        crate::uniforms::ring_slot_of(count) as usize,
        &viewport,
        stage.target(chain.enabled() - 1),
        stage.bindings(chain.enabled() - 1),
        bound_after(first + earlier, bound),
    );
    if chain.history_framebuffers@.len() > 0 {
        assert(history.last() == (Command::BindFramebuffer { handle: 0 }));
    } else {
        assert(history =~= Seq::<Command>::empty());
    }
}

/// A draw binds a texture to every binding point that reflection declares
/// and uploads the uniform blocks that it declares, before it draws its one
/// quad; and it writes every uniform member that reflection declares: the
/// built-in values, then the texture sizes, then the user parameters, each
/// at its offset.
pub proof fn lemma_draw_is_complete(
    pass: FilterPass,
    index: usize,
    ring_slot: usize,
    viewport: &Viewport,
    target: RenderTarget,
    bindings: Bindings,
)
    requires
        pass.wf(),
    ensures
        forall|k: int|
            0 <= k < pass.reflection.meta.texture_meta@.len() ==> #[trigger] pass.draw_commands(
                index,
                ring_slot,
                viewport,
                target,
                bindings,
            )[1 + k] == (Command::BindTexture {
                binding: pass.reflection.meta.texture_meta@[k].binding,
                texture: bindings.texture(
                    pass.reflection.meta.texture_meta@[k].semantics,
                    pass.reflection.meta.texture_meta@[k].index as nat,
                ),
            }),
        forall|n: int|
            0 <= n < pass.draw_commands(index, ring_slot, viewport, target, bindings).len()
                && #[trigger] pass.draw_commands(index, ring_slot, viewport, target, bindings)[n] is DrawQuad ==> n
                == pass.draw_position(),
        pass.draw_commands(index, ring_slot, viewport, target, bindings)[pass.draw_position()] is DrawQuad,
        pass.draw_position() > pass.reflection.meta.texture_meta@.len(),
        pass.reflection.ubo is Some ==> pass.draw_commands(
            index,
            ring_slot,
            viewport,
            target,
            bindings,
        )[1 + pass.reflection.meta.texture_meta@.len() as int] is UploadUniforms,
        pass.reflection.push_constant is Some ==> pass.draw_commands(
            index,
            ring_slot,
            viewport,
            target,
            bindings,
        )[pass.draw_position() - 3] is PushConstants,
        pass.uniform_writes(bindings).len() == pass.reflection.meta.variable_meta@.len()
            + pass.reflection.meta.texture_size_meta@.len() + pass.reflection.meta.parameter_meta@.len(),
        forall|k: int|
            0 <= k < pass.reflection.meta.variable_meta@.len() ==> (#[trigger] pass.uniform_writes(bindings)[k])
                == (UniformWrite {
                offset: pass.reflection.meta.variable_meta@[k].offset,
                words: bindings.variable(pass.reflection.meta.variable_meta@[k].semantics),
            }),
        forall|k: int|
            0 <= k < pass.reflection.meta.texture_size_meta@.len() ==> (#[trigger] pass.uniform_writes(
                bindings,
            )[pass.reflection.meta.variable_meta@.len() + k]) == (UniformWrite {
                offset: pass.reflection.meta.texture_size_meta@[k].offset,
                words: bindings.texture_size(
                    pass.reflection.meta.texture_size_meta@[k].semantics,
                    pass.reflection.meta.texture_size_meta@[k].index as nat,
                ),
            }),
        forall|k: int|
            0 <= k < pass.reflection.meta.parameter_meta@.len() ==> (#[trigger] pass.uniform_writes(
                bindings,
            )[pass.reflection.meta.variable_meta@.len() + pass.reflection.meta.texture_size_meta@.len() + k])
                == (UniformWrite {
                offset: pass.reflection.meta.parameter_meta@[k].offset,
                words: bindings.parameter(pass.reflection.meta.parameter_meta@[k]),
            }),
{
    reveal(FilterPass::wf);
    let commands = pass.draw_commands(index, ring_slot, viewport, target, bindings);
    let textures = pass.reflection.meta.texture_meta@.len();
    let binds = pass.texture_commands(bindings);
    let rest = pass.target_commands(index, ring_slot, viewport, target);
    assert(commands == seq![Command::UseProgram { pass: index }] + binds + rest);
    assert forall|n: int| 0 <= n < commands.len() && #[trigger] commands[n] is DrawQuad implies n
        == pass.draw_position() by {
        if n >= 1 + textures {
            assert(commands[n] == rest[n - 1 - textures]);
        } else if n >= 1 {
            assert(commands[n] == binds[n - 1]);
        }
    }
    assert(commands[pass.draw_position()] == rest[pass.draw_position() - 1 - textures]);
    assert(commands[1 + textures as int] == rest[0]);
    if pass.reflection.push_constant is Some {
        assert(commands[pass.draw_position() - 3] == rest[pass.draw_position() - 4 - textures]);
    }
    let variables = pass.reflection.meta.variable_meta@.len();
    let sizes = pass.reflection.meta.texture_size_meta@.len();
    assert forall|k: int| 0 <= k < pass.reflection.meta.parameter_meta@.len() implies (#[trigger] pass.uniform_writes(
        bindings,
    )[variables + sizes + k]) == (UniformWrite {
        offset: pass.reflection.meta.parameter_meta@[k].offset,
        words: bindings.parameter(pass.reflection.meta.parameter_meta@[k]),
    }) by {
        assert(pass.reflection.meta.parameter_meta.len() == pass.reflection.meta.parameter_meta@.len());
        assert(bindings_of(pass.reflection)[variables + sizes + k].binding
            == crate::filter_pass::UniformBinding::Parameter(k as usize));
    }
}

} // verus!
