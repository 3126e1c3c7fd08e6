//! The command buffer: an ordered record of draw-related commands, and their
//! replay into the calls that the context is to be given.

use vstd::prelude::*;
use crate::buffer::OpenGlBuffer;
use crate::context::GlCall;
use crate::glenum;
use crate::layout::{ascending_list, OpenGlDescriptorSet, OpenGlPipelineLayout};
use crate::pipeline::{ExecuteError, OpenGlPipeline, PipelineView};

verus! {

/// A colour: red, green, blue and alpha, each as the bit pattern of a
/// single-precision value.
pub type Color = (u32, u32, u32, u32);

/// One recorded command.
#[derive(Debug)]
pub enum OpenGlCommand {
    /// Make the pipeline the active one. The command owns its pipeline,
    /// caches included, in the state it was in when the command was recorded.
    PreparePipeline(OpenGlPipeline),
    /// Bind the buffer to the vertex binding.
    BindVertexBuffer(u32, OpenGlBuffer),
    BindIndexBuffer(OpenGlBuffer),
    /// Attach these descriptor bindings to their uniform blocks.
    BindDescriptorSet(Vec<u32>),
    /// Draw `count` indices, starting `offset` bytes into the index buffer.
    DrawIndexed(u32, u32),
    /// As `DrawIndexed`, for the given number of instances.
    DrawIndexedInstanced(u32, u32, u32),
    /// Clear colour and depth.
    ClearScreen(Color),
}

/// A command as contracts see it.
pub enum CommandView {
    PreparePipeline(PipelineView),
    BindVertexBuffer(u32, OpenGlBuffer),
    BindIndexBuffer(OpenGlBuffer),
    BindDescriptorSet(Seq<u32>),
    DrawIndexed(u32, u32),
    DrawIndexedInstanced(u32, u32, u32),
    ClearScreen(Color),
}

impl View for OpenGlCommand {
    type V = CommandView;

    open spec fn view(&self) -> CommandView {
        match *self {
            OpenGlCommand::PreparePipeline(pipeline) => CommandView::PreparePipeline(pipeline@),
            OpenGlCommand::BindVertexBuffer(binding, buffer) => CommandView::BindVertexBuffer(
                binding,
                buffer,
            ),
            OpenGlCommand::BindIndexBuffer(buffer) => CommandView::BindIndexBuffer(buffer),
            OpenGlCommand::BindDescriptorSet(bindings) => CommandView::BindDescriptorSet(
                bindings@,
            ),
            OpenGlCommand::DrawIndexed(count, offset) => CommandView::DrawIndexed(count, offset),
            OpenGlCommand::DrawIndexedInstanced(count, offset, instances) =>
                CommandView::DrawIndexedInstanced(count, offset, instances),
            OpenGlCommand::ClearScreen(color) => CommandView::ClearScreen(color),
        }
    }
}

/// Where a replay stands: the calls made so far and the pipeline that was
/// prepared last, in the state the binds since have left it in.
pub struct Replay {
    pub calls: Seq<GlCall>,
    pub active: Option<PipelineView>,
}

/// The mask that clears colour and depth.
pub open spec fn clear_mask() -> u32 {
    glenum::COLOR_BUFFER_BIT | glenum::DEPTH_BUFFER_BIT
}

/// The mask that clears colour and depth, as a number.
pub proof fn lemma_clear_mask()
    ensures
        clear_mask() == 0x4100,
{
    assert(0x0000_4000u32 | 0x0000_0100u32 == 0x4100u32) by (bit_vector);
}

/// The calls of a clear to `color`.
pub open spec fn clear_calls(color: Color) -> Seq<GlCall> {
    seq![
        GlCall::ClearColor { red: color.0, green: color.1, blue: color.2, alpha: color.3 },
        GlCall::Clear { mask: clear_mask() },
    ]
}

/// Whether the command acts on the active pipeline.
pub open spec fn needs_pipeline(cmd: CommandView) -> bool {
    !(cmd is PreparePipeline || cmd is ClearScreen)
}

/// The effect of one command on a pipeline that is active: the calls it
/// takes and the pipeline afterwards, or the reason it is refused.
pub open spec fn step_on(pipeline: PipelineView, cmd: CommandView) -> Result<Replay, ExecuteError> {
    match cmd {
        CommandView::PreparePipeline(next) => Ok(
            Replay { calls: next.prepare_calls(), active: Some(next) },
        ),
        CommandView::ClearScreen(color) => Ok(
            Replay { calls: clear_calls(color), active: Some(pipeline) },
        ),
        CommandView::BindVertexBuffer(binding, buffer) => if pipeline.layout.contains_key(
            binding,
        ) {
            Ok(
                Replay {
                    calls: pipeline.vertex_calls(binding, buffer),
                    active: Some(pipeline.with_vertex(binding, buffer)),
                },
            )
        } else {
            Err(ExecuteError::UnknownBinding(binding))
        },
        CommandView::BindIndexBuffer(buffer) => Ok(
            Replay { calls: pipeline.index_calls(buffer), active: Some(pipeline.with_index(buffer)) },
        ),
        CommandView::BindDescriptorSet(bindings) => match pipeline.unresolved(bindings) {
            Some(binding) => Err(ExecuteError::UnresolvedDescriptor(binding)),
            None => Ok(
                Replay { calls: pipeline.descriptor_calls(bindings), active: Some(pipeline) },
            ),
        },
        CommandView::DrawIndexed(count, offset) => Ok(
            Replay {
                calls: seq![
                    GlCall::DrawElements {
                        mode: pipeline.primitive,
                        count,
                        index_type: glenum::UNSIGNED_INT,
                        offset,
                    },
                ],
                active: Some(pipeline),
            },
        ),
        CommandView::DrawIndexedInstanced(count, offset, instances) => Ok(
            Replay {
                calls: seq![
                    GlCall::DrawElementsInstanced {
                        mode: pipeline.primitive,
                        count,
                        index_type: glenum::UNSIGNED_INT,
                        offset,
                        instances,
                    },
                ],
                active: Some(pipeline),
            },
        ),
    }
}

/// The effect of one command: the calls it takes and the active pipeline
/// afterwards. A command that acts on the active pipeline is refused while
/// there is none.
pub open spec fn step(active: Option<PipelineView>, cmd: CommandView) -> Result<Replay, ExecuteError> {
    match active {
        Some(pipeline) => step_on(pipeline, cmd),
        None => match cmd {
            CommandView::PreparePipeline(next) => Ok(
                Replay { calls: next.prepare_calls(), active: Some(next) },
            ),
            CommandView::ClearScreen(color) => Ok(
                Replay { calls: clear_calls(color), active: None },
            ),
            _ => Err(ExecuteError::NoPipeline),
        },
    }
}

/// Replays `cmds` in their order, starting with `active` as the active
/// pipeline: the calls of each command follow those of the commands before
/// it, and the first command that is refused ends the replay with its error.
pub open spec fn replay_from(active: Option<PipelineView>, cmds: Seq<CommandView>) -> Result<
    Replay,
    ExecuteError,
>
    decreases cmds.len(),
{
    if cmds.len() == 0 {
        Ok(Replay { calls: Seq::empty(), active })
    } else {
        match replay_from(active, cmds.drop_last()) {
            Err(e) => Err(e),
            Ok(before) => match step(before.active, cmds.last()) {
                Err(e) => Err(e),
                Ok(this) => Ok(Replay { calls: before.calls + this.calls, active: this.active }),
            },
        }
    }
}

/// Replays `cmds` with no pipeline active at the start.
pub open spec fn replay(cmds: Seq<CommandView>) -> Result<Replay, ExecuteError> {
    replay_from(None, cmds)
}

/// An error among the first `n` commands is the error of the whole replay.
pub proof fn lemma_replay_error_stays(
    active: Option<PipelineView>,
    cmds: Seq<CommandView>,
    n: int,
)
    requires
        0 <= n <= cmds.len(),
        replay_from(active, cmds.take(n)) is Err,
    ensures
        replay_from(active, cmds) == replay_from(active, cmds.take(n)),
    decreases cmds.len() - n,
{
    if n == cmds.len() {
        assert(cmds.take(n) =~= cmds);
    } else {
        assert(cmds.take(n + 1).drop_last() =~= cmds.take(n));
        lemma_replay_error_stays(active, cmds, n + 1);
    }
}

/// Replaying is done in the recorded order: the replay of one list of
/// commands followed by another is the replay of the first, then the replay
/// of the second from where the first left the active pipeline, and the calls
/// of the first come before those of the second.
pub proof fn lemma_replay_concat(
    active: Option<PipelineView>,
    first: Seq<CommandView>,
    second: Seq<CommandView>,
)
    ensures
        replay_from(active, first + second) == match replay_from(active, first) {
            Err(e) => Err::<Replay, ExecuteError>(e),
            Ok(head) => match replay_from(head.active, second) {
                Err(e) => Err::<Replay, ExecuteError>(e),
                Ok(tail) => Ok::<Replay, ExecuteError>(
                    Replay { calls: head.calls + tail.calls, active: tail.active },
                ),
            },
        },
    decreases second.len(),
{
    if second.len() == 0 {
        assert(first + second =~= first);
        if let Ok(head) = replay_from(active, first) {
            assert(head.calls + Seq::<GlCall>::empty() =~= head.calls);
        }
    } else {
        lemma_replay_concat(active, first, second.drop_last());
        assert((first + second).drop_last() =~= first + second.drop_last());
        assert((first + second).last() == second.last());
        if let Ok(head) = replay_from(active, first) {
            if let Ok(mid) = replay_from(head.active, second.drop_last()) {
                if let Ok(this) = step(mid.active, second.last()) {
                    assert((head.calls + mid.calls) + this.calls =~= head.calls + (mid.calls
                        + this.calls));
                }
            }
        }
    }
}

/// The calls of a replay are those of the commands in their recorded order:
/// what the commands up to any point take comes first, unchanged by what is
/// recorded after that point.
pub proof fn lemma_replay_extends(cmds: Seq<CommandView>, n: int)
    requires
        0 <= n <= cmds.len(),
        replay(cmds) is Ok,
    ensures
        replay(cmds.take(n)) is Ok,
        replay(cmds.take(n))->Ok_0.calls.is_prefix_of(replay(cmds)->Ok_0.calls),
{
    assert(cmds =~= cmds.take(n) + cmds.skip(n));
    lemma_replay_concat(None, cmds.take(n), cmds.skip(n));
}

/// `n` binds of `buffer` to `binding`, one after the other.
pub open spec fn repeated_bind(binding: u32, buffer: OpenGlBuffer, n: nat) -> Seq<CommandView> {
    Seq::new(n, |i: int| CommandView::BindVertexBuffer(binding, buffer))
}

/// Once a binding is set up, binding a buffer to it again takes no call and
/// changes nothing, whatever buffer is given.
pub proof fn lemma_rebind_takes_no_call(
    pipeline: PipelineView,
    binding: u32,
    first: OpenGlBuffer,
    again: OpenGlBuffer,
)
    ensures
        pipeline.with_vertex(binding, first).vertex_calls(binding, again) == Seq::<GlCall>::empty(),
        pipeline.with_vertex(binding, first).with_vertex(binding, again) == pipeline.with_vertex(
            binding,
            first,
        ),
{
}

/// Any number of binds of the same buffer to the same binding, one after the
/// other, takes the calls of the first of them and no more.
pub proof fn lemma_repeated_bind(pipeline: PipelineView, binding: u32, buffer: OpenGlBuffer, n: nat)
    requires
        n >= 1,
        pipeline.layout.contains_key(binding),
    ensures
        replay_from(Some(pipeline), repeated_bind(binding, buffer, n)) == Ok::<Replay, ExecuteError>(
            Replay {
                calls: pipeline.vertex_calls(binding, buffer),
                active: Some(pipeline.with_vertex(binding, buffer)),
            },
        ),
    decreases n,
{
    let cmds = repeated_bind(binding, buffer, n);
    assert(cmds.last() == CommandView::BindVertexBuffer(binding, buffer));
    assert(cmds.drop_last() =~= repeated_bind(binding, buffer, (n - 1) as nat));
    if n == 1 {
        assert(Seq::<GlCall>::empty() + pipeline.vertex_calls(binding, buffer)
            =~= pipeline.vertex_calls(binding, buffer));
    } else {
        lemma_repeated_bind(pipeline, binding, buffer, (n - 1) as nat);
        lemma_rebind_takes_no_call(pipeline, binding, buffer, buffer);
        assert(pipeline.vertex_calls(binding, buffer) + Seq::<GlCall>::empty()
            =~= pipeline.vertex_calls(binding, buffer));
    }
}

/// Whether a pipeline is prepared somewhere in `cmds`.
pub open spec fn prepared(cmds: Seq<CommandView>) -> bool {
    exists|i: int| 0 <= i < cmds.len() && #[trigger] cmds[i] is PreparePipeline
}

/// Whether every command that acts on the active pipeline comes after a
/// command that prepares one.
pub open spec fn well_ordered(cmds: Seq<CommandView>) -> bool {
    forall|i: int| 0 <= i < cmds.len() && needs_pipeline(#[trigger] cmds[i]) ==> prepared(cmds.take(i))
}

/// After a replay a pipeline is active exactly if one was prepared.
pub proof fn lemma_replay_active(cmds: Seq<CommandView>)
    requires
        replay(cmds) is Ok,
    ensures
        replay(cmds)->Ok_0.active is Some <==> prepared(cmds),
    decreases cmds.len(),
{
    if cmds.len() > 0 {
        let before = cmds.drop_last();
        lemma_replay_active(before);
        if prepared(cmds) {
            let i = choose|i: int| 0 <= i < cmds.len() && #[trigger] cmds[i] is PreparePipeline;
            if i < before.len() {
                assert(before[i] is PreparePipeline);
            }
        }
        if prepared(before) {
            let i = choose|i: int| 0 <= i < before.len() && #[trigger] before[i] is PreparePipeline;
            assert(cmds[i] is PreparePipeline);
        }
        if cmds.last() is PreparePipeline {
            assert(cmds[cmds.len() - 1] is PreparePipeline);
        }
    }
}

/// The ordering rule of recording is what the replay enforces: a record in
/// which every bind and draw comes after a prepared pipeline is never refused
/// for want of a pipeline, and any other record is refused.
pub proof fn lemma_ordering_rule(cmds: Seq<CommandView>)
    ensures
        well_ordered(cmds) ==> replay(cmds) != Err::<Replay, ExecuteError>(ExecuteError::NoPipeline),
        !well_ordered(cmds) ==> replay(cmds) is Err,
    decreases cmds.len(),
{
    if cmds.len() > 0 {
        let before = cmds.drop_last();
        lemma_ordering_rule(before);
        if well_ordered(cmds) {
            assert forall|i: int|
                0 <= i < before.len() && needs_pipeline(#[trigger] before[i]) implies prepared(
                before.take(i),
            ) by {
                assert(before[i] == cmds[i]);
                assert(before.take(i) =~= cmds.take(i));
            }
            if let Ok(sofar) = replay(before) {
                lemma_replay_active(before);
                if needs_pipeline(cmds.last()) {
                    assert(cmds[cmds.len() - 1] == cmds.last());
                    assert(cmds.take(cmds.len() - 1) =~= before);
                }
            }
        } else {
            let i = choose|i: int|
                0 <= i < cmds.len() && needs_pipeline(#[trigger] cmds[i]) && !prepared(
                    cmds.take(i),
                );
            if i < before.len() {
                assert(before[i] == cmds[i]);
                assert(before.take(i) =~= cmds.take(i));
                assert(!well_ordered(before));
            } else {
                assert(cmds.take(i) =~= before);
                if let Ok(sofar) = replay(before) {
                    lemma_replay_active(before);
                }
            }
        }
    }
}

/// Where recording stands with respect to the ordering rule.
#[derive(Debug, Clone, Copy, PartialEq, Eq, Structural)]
pub enum Phase {
    /// No pipeline has been prepared: only a clear or a pipeline may follow.
    NoPipeline,
    /// A pipeline has been prepared: binds and draws may follow.
    PipelineActive,
}

/// The active pipeline of a replay as contracts see it.
pub open spec fn active_view(pipeline: Option<OpenGlPipeline>) -> Option<PipelineView> {
    match pipeline {
        Some(pipeline) => Some(pipeline@),
        None => None,
    }
}

/// Replays one command: appends the calls it takes to `calls` and leaves
/// `pipeline` as the active pipeline afterwards.
fn apply(cmd: OpenGlCommand, pipeline: &mut Option<OpenGlPipeline>, calls: &mut Vec<GlCall>) -> (res:
    Result<(), ExecuteError>)
    ensures
        match step(active_view(*old(pipeline)), cmd@) {
            Ok(this) => res is Ok && final(calls)@ == old(calls)@ + this.calls && active_view(
                *final(pipeline),
            ) == this.active,
            Err(e) => res == Err::<(), ExecuteError>(e),
        },
{
    match cmd {
        OpenGlCommand::PreparePipeline(next) => {
            let mut more = next.prepare();
            calls.append(&mut more);
            *pipeline = Some(next);
            Ok(())
        },
        OpenGlCommand::ClearScreen(color) => {
            calls.push(
                GlCall::ClearColor { red: color.0, green: color.1, blue: color.2, alpha: color.3 },
            );
            calls.push(GlCall::Clear { mask: glenum::COLOR_BUFFER_BIT | glenum::DEPTH_BUFFER_BIT });
            proof {
                assert(calls@ =~= old(calls)@ + clear_calls(color));
            }
            Ok(())
        },
        OpenGlCommand::BindVertexBuffer(binding, buffer) => match pipeline {
            Some(active) => match active.bind_buffer(binding, &buffer) {
                Ok(mut more) => {
                    calls.append(&mut more);
                    Ok(())
                },
                Err(e) => Err(e),
            },
            None => Err(ExecuteError::NoPipeline),
        },
        OpenGlCommand::BindIndexBuffer(buffer) => match pipeline {
            Some(active) => {
                let mut more = active.bind_index(&buffer);
                calls.append(&mut more);
                Ok(())
            },
            None => Err(ExecuteError::NoPipeline),
        },
        OpenGlCommand::BindDescriptorSet(bindings) => match pipeline {
            Some(active) => match active.bind_descriptors(&bindings) {
                Ok(mut more) => {
                    calls.append(&mut more);
                    Ok(())
                },
                Err(e) => Err(e),
            },
            None => Err(ExecuteError::NoPipeline),
        },
        OpenGlCommand::DrawIndexed(count, offset) => match pipeline {
            Some(active) => {
                calls.push(
                    GlCall::DrawElements {
                        mode: active.primitive(),
                        count,
                        index_type: glenum::UNSIGNED_INT,
                        offset,
                    },
                );
                proof {
                    assert(calls@ =~= old(calls)@ + step(
                        active_view(*old(pipeline)),
                        cmd@,
                    )->Ok_0.calls);
                }
                Ok(())
            },
            None => Err(ExecuteError::NoPipeline),
        },
        OpenGlCommand::DrawIndexedInstanced(count, offset, instances) => match pipeline {
            Some(active) => {
                calls.push(
                    GlCall::DrawElementsInstanced {
                        mode: active.primitive(),
                        count,
                        index_type: glenum::UNSIGNED_INT,
                        offset,
                        instances,
                    },
                );
                proof {
                    assert(calls@ =~= old(calls)@ + step(
                        active_view(*old(pipeline)),
                        cmd@,
                    )->Ok_0.calls);
                }
                Ok(())
            },
            None => Err(ExecuteError::NoPipeline),
        },
    }
}

/// A command buffer: commands are appended while it is recorded, and it is
/// used up when it is executed.
#[derive(Debug)]
pub struct OpenGlCommandBuffer {
    cmds: Vec<OpenGlCommand>,
}

impl View for OpenGlCommandBuffer {
    type V = Seq<CommandView>;

    closed spec fn view(&self) -> Seq<CommandView> {
        Seq::new(self.cmds@.len(), |i: int| self.cmds@[i]@)
    }
}

impl OpenGlCommandBuffer {
    /// An empty command buffer.
    pub fn new() -> (buffer: Self)
        ensures
            buffer@ == Seq::<CommandView>::empty(),
    {
        let buffer = OpenGlCommandBuffer { cmds: Vec::new() };
        proof {
            assert(buffer@ =~= Seq::<CommandView>::empty());
        }
        buffer
    }

    /// The commands recorded so far, in their order.
    pub fn commands(&self) -> (cmds: &Vec<OpenGlCommand>)
        ensures
            cmds@.len() == self@.len(),
            forall|i: int| 0 <= i < cmds@.len() ==> (#[trigger] cmds@[i])@ == self@[i],
    {
        &self.cmds
    }

    fn record(&mut self, cmd: OpenGlCommand)
        ensures
            final(self)@ == old(self)@.push(cmd@),
    {
        self.cmds.push(cmd);
        proof {
            assert(self@ =~= old(self)@.push(cmd@));
        }
    }

    /// Records that `pipeline` becomes the active one. The command takes a
    /// copy of the pipeline as it is now.
    pub fn prepare_pipeline(&mut self, pipeline: &OpenGlPipeline)
        ensures
            final(self)@ == old(self)@.push(CommandView::PreparePipeline(pipeline@)),
    {
        self.record(OpenGlCommand::PreparePipeline(pipeline.clone()));
    }

    /// Records a bind of `buffer` to the vertex binding `binding`.
    pub fn bind_vertex_buffer(&mut self, binding: u32, buffer: &OpenGlBuffer)
        ensures
            final(self)@ == old(self)@.push(CommandView::BindVertexBuffer(binding, *buffer)),
    {
        self.record(OpenGlCommand::BindVertexBuffer(binding, *buffer));
    }

    /// Records a bind of `buffer` as the index buffer.
    pub fn bind_index_buffer(&mut self, buffer: &OpenGlBuffer)
        ensures
            final(self)@ == old(self)@.push(CommandView::BindIndexBuffer(*buffer)),
    {
        self.record(OpenGlCommand::BindIndexBuffer(*buffer));
    }

    /// Records a draw of `count` indices, starting `offset` bytes into the
    /// index buffer. More than one instance makes it an instanced draw of
    /// `number` instances; otherwise it is a plain draw.
    pub fn draw_indexed(&mut self, count: u32, offset: u32, number: u32)
        ensures
            number > 1 ==> final(self)@ == old(self)@.push(
                CommandView::DrawIndexedInstanced(count, offset, number),
            ),
            number <= 1 ==> final(self)@ == old(self)@.push(CommandView::DrawIndexed(count, offset)),
    {
        if number > 1 {
            self.record(OpenGlCommand::DrawIndexedInstanced(count, offset, number));
        } else {
            self.record(OpenGlCommand::DrawIndexed(count, offset));
        }
    }

    /// Records that the binding points of `pipeline_layout` are attached to
    /// their uniform blocks. The command carries the binding points, each
    /// once, in ascending order; the descriptor set itself carries nothing.
    pub fn bind_descriptor_set(
        &mut self,
        pipeline_layout: &OpenGlPipelineLayout,
        desc_set: &OpenGlDescriptorSet,
    )
        ensures
            final(self)@ == old(self)@.push(
                CommandView::BindDescriptorSet(ascending_list(pipeline_layout@.dom())),
            ),
    {
        let bindings = pipeline_layout.bindings();
        self.record(OpenGlCommand::BindDescriptorSet(bindings));
    }

    /// Where recording stands: whether a pipeline has been prepared, so that
    /// binds and draws may be recorded.
    pub fn phase(&self) -> (phase: Phase)
        ensures
            phase == Phase::PipelineActive <==> prepared(self@),
    {
        let mut i: usize = 0;
        while i < self.cmds.len()
            invariant
                i <= self.cmds.len(),
                self@.len() == self.cmds@.len(),
                forall|j: int| 0 <= j < self.cmds@.len() ==> self@[j] == (#[trigger] self.cmds@[j])@,
                forall|j: int| 0 <= j < i ==> !(#[trigger] self@[j] is PreparePipeline),
            decreases self.cmds.len() - i,
        {
            if let OpenGlCommand::PreparePipeline(_) = &self.cmds[i] {
                proof {
                    assert(self@[i as int] is PreparePipeline);
                }
                return Phase::PipelineActive;
            }
            i += 1;
        }
        Phase::NoPipeline
    }

    /// Replays the recorded commands in their order and returns the calls
    /// that the context is to be given, in the order they are to be made. The
    /// buffer is used up. Where a command is refused nothing is to be given
    /// to the context, and the error of the first such command is returned.
    pub fn execute(self) -> (res: Result<Vec<GlCall>, ExecuteError>)
        ensures
            match replay(self@) {
                Ok(done) => res is Ok && res->Ok_0@ == done.calls,
                Err(e) => res == Err::<Vec<GlCall>, ExecuteError>(e),
            },
    {
        let ghost all = self@;
        let mut calls: Vec<GlCall> = Vec::new();
        let mut pipeline: Option<OpenGlPipeline> = None;
        let cmds = self.cmds;
        for cmd in it: cmds
            invariant
                all == self@,
                it.seq().len() == all.len(),
                forall|i: int| 0 <= i < all.len() ==> (#[trigger] it.seq()[i])@ == all[i],
                replay(all.take(it.index() as int)) == Ok::<Replay, ExecuteError>(
                    Replay { calls: calls@, active: active_view(pipeline) },
                ),
        {
            proof {
                assert(all.take(it.index() + 1).drop_last() =~= all.take(it.index() as int));
                assert(all.take(it.index() + 1).last() == cmd@);
            }
            match apply(cmd, &mut pipeline, &mut calls) {
                Ok(_) => {},
                Err(e) => {
                    proof {
                        assert(replay_from(None, all.take(it.index() + 1)) == Err::<
                            Replay,
                            ExecuteError,
                        >(e));
                        lemma_replay_error_stays(None, all, it.index() + 1);
                        assert(replay(all) == Err::<Replay, ExecuteError>(e));
                    }
                    return Err(e);
                },
            }
        }
        proof {
            assert(all.take(all.len() as int) =~= all);
        }
        Ok(calls)
    }

    /// Records a clear of colour and depth to `color`.
    pub fn clear_screen(&mut self, color: Color)
        ensures
            final(self)@ == old(self)@.push(CommandView::ClearScreen(color)),
    {
        self.record(OpenGlCommand::ClearScreen(color));
    }
}

} // verus!
