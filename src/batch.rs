use vstd::prelude::*;
use crate::state::{DrawState, spec_alpha_state};

verus! {

/// A draw or clear handed to the GPU, in the order it must be issued.
///
/// `Colored` draws the first `positions.len()` vertices of the shared
/// position and color streams; the textured variants draw with the textured
/// pipelines; `ClearColor` and `ClearStencil` clear the bound targets.
pub enum Command<P, C, U> {
    Colored { state: DrawState, positions: Vec<P>, colors: Vec<C> },
    Textured { state: DrawState, color: C, positions: Vec<P>, uvs: Vec<U> },
    TexturedColor { state: DrawState, positions: Vec<P>, uvs: Vec<U>, colors: Vec<C> },
    ClearColor { color: C },
    ClearStencil { value: u8 },
}

/// The value of a `Command`, with its vertex streams as sequences.
pub enum CommandModel<P, C, U> {
    Colored { state: DrawState, positions: Seq<P>, colors: Seq<C> },
    Textured { state: DrawState, color: C, positions: Seq<P>, uvs: Seq<U> },
    TexturedColor { state: DrawState, positions: Seq<P>, uvs: Seq<U>, colors: Seq<C> },
    ClearColor { color: C },
    ClearStencil { value: u8 },
}

impl<P, C, U> View for Command<P, C, U> {
    type V = CommandModel<P, C, U>;

    open spec fn view(&self) -> CommandModel<P, C, U> {
        match self {
            Command::Colored { state, positions, colors } => CommandModel::Colored {
                state: *state,
                positions: positions@,
                colors: colors@,
            },
            Command::Textured { state, color, positions, uvs } => CommandModel::Textured {
                state: *state,
                color: *color,
                positions: positions@,
                uvs: uvs@,
            },
            Command::TexturedColor { state, positions, uvs, colors } => CommandModel::TexturedColor {
                state: *state,
                positions: positions@,
                uvs: uvs@,
                colors: colors@,
            },
            Command::ClearColor { color } => CommandModel::ClearColor { color: *color },
            Command::ClearStencil { value } => CommandModel::ClearStencil { value: *value },
        }
    }
}

/// The values of a sequence of commands.
pub open spec fn models<P, C, U>(v: Seq<Command<P, C, U>>) -> Seq<CommandModel<P, C, U>> {
    v.map_values(|c: Command<P, C, U>| c@)
}

/// The state of the colored batch: the two buffer sizes, the draw state of
/// the pending batch, and the vertices written since the last flush.
pub struct BatchModel<P, C> {
    pub chunk: nat,
    pub capacity: nat,
    pub state: DrawState,
    pub positions: Seq<P>,
    pub colors: Seq<C>,
}

/// The batch with nothing pending.
pub open spec fn flushed<P, C>(m: BatchModel<P, C>) -> BatchModel<P, C> {
    BatchModel { positions: Seq::empty(), colors: Seq::empty(), ..m }
}

/// What a flush issues: nothing when no vertex is pending, else one colored
/// draw of all pending vertices with the batch's draw state.
pub open spec fn pending_draw<P, C, U>(m: BatchModel<P, C>) -> Seq<CommandModel<P, C, U>> {
    if m.positions.len() == 0 {
        Seq::empty()
    } else {
        seq![CommandModel::Colored { state: m.state, positions: m.positions, colors: m.colors }]
    }
}

/// The effect of a flush: the batch emptied, and what it issues.
pub open spec fn flush_step<P, C, U>(m: BatchModel<P, C>) -> (BatchModel<P, C>, Seq<
    CommandModel<P, C, U>,
>) {
    (flushed(m), pending_draw(m))
}

/// The effect of one submission on the batch, and the commands it issues.
///
/// A colored submission first flushes when its draw state differs from the
/// batch's and adopts its state; it then flushes when its vertices do not fit
/// behind the pending ones; then it appends its vertices. Any other
/// submission flushes the pending batch and is issued at once after it.
pub open spec fn step<P, C, U>(m: BatchModel<P, C>, c: CommandModel<P, C, U>) -> (BatchModel<
    P,
    C,
>, Seq<CommandModel<P, C, U>>) {
    match c {
        CommandModel::Colored { state, positions, colors } => {
            let m1 = if m.state != state {
                BatchModel { state, ..flushed(m) }
            } else {
                m
            };
            let o1: Seq<CommandModel<P, C, U>> = if m.state != state {
                pending_draw(m)
            } else {
                Seq::empty()
            };
            let fits = m1.positions.len() + positions.len() <= m1.capacity;
            let m2 = if fits {
                m1
            } else {
                flushed(m1)
            };
            let o2: Seq<CommandModel<P, C, U>> = if fits {
                Seq::empty()
            } else {
                pending_draw(m1)
            };
            (BatchModel { positions: m2.positions + positions, colors: m2.colors + colors, ..m2 }, o1 + o2)
        },
        _ => (flushed(m), pending_draw(m).push(c)),
    }
}

/// The effect of a sequence of submissions, made in order, and every
/// command they issue.
pub open spec fn run<P, C, U>(m: BatchModel<P, C>, calls: Seq<CommandModel<P, C, U>>) -> (BatchModel<
    P,
    C,
>, Seq<CommandModel<P, C, U>>)
    decreases calls.len(),
{
    if calls.len() == 0 {
        (m, Seq::empty())
    } else {
        let (m1, o1) = run(m, calls.drop_last());
        let (m2, o2) = step(m1, calls.last());
        (m2, o1 + o2)
    }
}

/// The positions of the colored commands, concatenated in order.
pub open spec fn colored_positions<P, C, U>(cs: Seq<CommandModel<P, C, U>>) -> Seq<P>
    decreases cs.len(),
{
    if cs.len() == 0 {
        Seq::empty()
    } else {
        colored_positions(cs.drop_last()) + match cs.last() {
            CommandModel::Colored { positions, .. } => positions,
            _ => Seq::empty(),
        }
    }
}

/// The colors of the colored commands, concatenated in order.
pub open spec fn colored_colors<P, C, U>(cs: Seq<CommandModel<P, C, U>>) -> Seq<C>
    decreases cs.len(),
{
    if cs.len() == 0 {
        Seq::empty()
    } else {
        colored_colors(cs.drop_last()) + match cs.last() {
            CommandModel::Colored { colors, .. } => colors,
            _ => Seq::empty(),
        }
    }
}

/// The batch is consistent: one color per pending vertex, within capacity.
pub open spec fn model_wf<P, C>(m: BatchModel<P, C>) -> bool {
    &&& 0 < m.chunk
    &&& 0 < m.capacity
    &&& m.positions.len() == m.colors.len()
    &&& m.positions.len() <= m.capacity
}

/// A submission the batch can take: parallel streams of equal length, no
/// longer than the colored store (colored) or one chunk (textured).
pub open spec fn valid_call<P, C, U>(m: BatchModel<P, C>, c: CommandModel<P, C, U>) -> bool {
    match c {
        CommandModel::Colored { positions, colors, .. } => positions.len() == colors.len()
            && positions.len() <= m.capacity,
        CommandModel::Textured { positions, uvs, .. } => positions.len() == uvs.len()
            && positions.len() <= m.chunk,
        CommandModel::TexturedColor { positions, uvs, colors, .. } => positions.len() == uvs.len()
            && positions.len() == colors.len() && positions.len() <= m.chunk,
        _ => true,
    }
}

/// Accumulates colored triangles that share a draw state and decides when
/// they are drawn.
///
/// The pending vertices are those written to the shared vertex store since
/// the last flush; the store holds `capacity` vertices, and a textured draw
/// at most `chunk`.
pub struct Batcher<P, C, U> {
    chunk: usize,
    capacity: usize,
    state: DrawState,
    positions: Vec<P>,
    colors: Vec<C>,
    /// Names the texture-coordinate type of the commands; holds no data.
    uv_type: Ghost<Seq<U>>,
}

impl<P, C, U> View for Batcher<P, C, U> {
    type V = BatchModel<P, C>;

    closed spec fn view(&self) -> BatchModel<P, C> {
        BatchModel {
            chunk: self.chunk as nat,
            capacity: self.capacity as nat,
            state: self.state,
            positions: self.positions@,
            colors: self.colors@,
        }
    }
}

impl<P, C, U> Batcher<P, C, U> {
    pub open spec fn wf(&self) -> bool {
        model_wf(self@)
    }

    /// An empty batch for a store of `chunks` chunks of `chunk` vertices
    /// each, with the default draw state (alpha blending).
    pub fn new(chunk: usize, chunks: usize) -> (r: Self)
        requires
            0 < chunk,
            0 < chunks,
            chunk * chunks <= usize::MAX,
        ensures
            r.wf(),
            r@ == (BatchModel::<P, C> {
                chunk: chunk as nat,
                capacity: (chunk * chunks) as nat,
                state: spec_alpha_state(),
                positions: Seq::empty(),
                colors: Seq::empty(),
            }),
    {
        assert(chunk * chunks >= chunk) by (nonlinear_arith)
            requires
                0 < chunks,
        ;
        Batcher {
            chunk,
            capacity: chunk * chunks,
            state: DrawState::new_alpha(),
            positions: Vec::new(),
            colors: Vec::new(),
            uv_type: Ghost(Seq::empty()),
        }
    }

    /// Number of vertices a textured draw may hold.
    pub fn chunk(&self) -> (r: usize)
        ensures
            r == self@.chunk,
    {
        self.chunk
    }

    /// Number of vertices the colored store holds.
    pub fn capacity(&self) -> (r: usize)
        ensures
            r == self@.capacity,
    {
        self.capacity
    }

    /// Number of colored vertices written since the last flush.
    pub fn pending(&self) -> (r: usize)
        ensures
            r == self@.positions.len(),
    {
        self.positions.len()
    }

    /// Draw state of the pending batch.
    pub fn draw_state(&self) -> (r: DrawState)
        ensures
            r == self@.state,
    {
        self.state
    }

    fn flush_into(&mut self, out: &mut Vec<Command<P, C, U>>)
        requires
            old(self).wf(),
        ensures
            final(self).wf(),
            final(self)@ == flushed(old(self)@),
            models(final(out)@) == models(old(out)@) + pending_draw::<P, C, U>(old(self)@),
    {
        let ghost before = out@;
        if self.positions.len() > 0 {
            let mut positions = Vec::new();
            let mut colors = Vec::new();
            std::mem::swap(&mut self.positions, &mut positions);
            std::mem::swap(&mut self.colors, &mut colors);
            out.push(Command::Colored { state: self.state, positions, colors });
            assert(models(out@) =~= models(before) + pending_draw::<P, C, U>(old(self)@));
        } else {
            assert(self.positions@ =~= Seq::<P>::empty());
            assert(self.colors@ =~= Seq::<C>::empty());
            assert(models(out@) =~= models(before) + pending_draw::<P, C, U>(old(self)@));
        }
        assert(self@ =~= flushed(old(self)@));
    }

    /// Issues the pending colored batch, if any vertex is pending.
    pub fn flush(&mut self) -> (r: Vec<Command<P, C, U>>)
        requires
            old(self).wf(),
        ensures
            final(self).wf(),
            (final(self)@, models(r@)) == flush_step::<P, C, U>(old(self)@),
    {
        let mut out = Vec::new();
        self.flush_into(&mut out);
        assert(models(out@) =~= pending_draw::<P, C, U>(old(self)@));
        out
    }

    /// Submits colored triangles with one color per vertex.
    pub fn tri_list_c(&mut self, state: DrawState, positions: Vec<P>, colors: Vec<C>) -> (r: Vec<
        Command<P, C, U>,
    >)
        requires
            old(self).wf(),
            positions.len() == colors.len(),
            positions.len() <= old(self)@.capacity,
        ensures
            final(self).wf(),
            (final(self)@, models(r@)) == step(
                old(self)@,
                CommandModel::<P, C, U>::Colored { state, positions: positions@, colors: colors@ },
            ),
    {
        let mut out = Vec::new();
        let ghost m0 = self@;
        if self.state != state {
            self.flush_into(&mut out);
            self.state = state;
        }
        let ghost m1 = self@;
        let ghost o1 = models(out@);
        if positions.len() > self.capacity - self.positions.len() {
            self.flush_into(&mut out);
        }
        let ghost o2 = models(out@).subrange(o1.len() as int, models(out@).len() as int);
        assert(models(out@) =~= o1 + o2);
        let mut positions = positions;
        let mut colors = colors;
        self.positions.append(&mut positions);
        self.colors.append(&mut colors);
        out
    }

    fn flush_then(&mut self, c: Command<P, C, U>) -> (r: Vec<Command<P, C, U>>)
        requires
            old(self).wf(),
            !(c matches Command::Colored { .. }),
        ensures
            final(self).wf(),
            (final(self)@, models(r@)) == step(old(self)@, c@),
    {
        let ghost cm = c@;
        let mut out = Vec::new();
        self.flush_into(&mut out);
        let ghost o1 = models(out@);
        out.push(c);
        assert(models(out@) =~= o1.push(cm));
        out
    }

    /// Draws textured triangles that all take the color `color`. The pending
    /// colored batch is issued first, so that draws keep their order.
    pub fn tri_list_uv(&mut self, state: DrawState, color: C, positions: Vec<P>, uvs: Vec<U>) -> (r:
        Vec<Command<P, C, U>>)
        requires
            old(self).wf(),
            positions.len() == uvs.len(),
            positions.len() <= old(self)@.chunk,
        ensures
            final(self).wf(),
            (final(self)@, models(r@)) == step(
                old(self)@,
                CommandModel::<P, C, U>::Textured { state, color, positions: positions@, uvs: uvs@ },
            ),
    {
        self.flush_then(Command::Textured { state, color, positions, uvs })
    }

    /// Draws textured triangles with one color per vertex. The pending
    /// colored batch is issued first.
    pub fn tri_list_uv_c(
        &mut self,
        state: DrawState,
        positions: Vec<P>,
        uvs: Vec<U>,
        colors: Vec<C>,
    ) -> (r: Vec<Command<P, C, U>>)
        requires
            old(self).wf(),
            positions.len() == uvs.len(),
            positions.len() == colors.len(),
            positions.len() <= old(self)@.chunk,
        ensures
            final(self).wf(),
            (final(self)@, models(r@)) == step(
                old(self)@,
                CommandModel::<P, C, U>::TexturedColor {
                    state,
                    positions: positions@,
                    uvs: uvs@,
                    colors: colors@,
                },
            ),
    {
        self.flush_then(Command::TexturedColor { state, positions, uvs, colors })
    }

    /// Clears the color target. The pending colored batch is issued first.
    pub fn clear_color(&mut self, color: C) -> (r: Vec<Command<P, C, U>>)
        requires
            old(self).wf(),
        ensures
            final(self).wf(),
            (final(self)@, models(r@)) == step(old(self)@, CommandModel::<P, C, U>::ClearColor { color }),
    {
        self.flush_then(Command::ClearColor { color })
    }

    /// Clears the stencil target to `value`. The pending colored batch is
    /// issued first.
    pub fn clear_stencil(&mut self, value: u8) -> (r: Vec<Command<P, C, U>>)
        requires
            old(self).wf(),
        ensures
            final(self).wf(),
            (final(self)@, models(r@)) == step(old(self)@, CommandModel::<P, C, U>::ClearStencil { value }),
    {
        self.flush_then(Command::ClearStencil { value })
    }
}

impl<P, C: Copy, U> Batcher<P, C, U> {
    /// Submits colored triangles that all take the color `color`.
    pub fn tri_list(&mut self, state: DrawState, color: C, positions: Vec<P>) -> (r: Vec<
        Command<P, C, U>,
    >)
        requires
            old(self).wf(),
            positions.len() <= old(self)@.capacity,
        ensures
            final(self).wf(),
            (final(self)@, models(r@)) == step(
                old(self)@,
                CommandModel::<P, C, U>::Colored {
                    state,
                    positions: positions@,
                    colors: Seq::new(positions.len() as nat, |i: int| color),
                },
            ),
    {
        let n = positions.len();
        let mut colors: Vec<C> = Vec::new();
        let mut i: usize = 0;
        while i < n
            invariant
                i <= n,
                colors@ == Seq::new(i as nat, |j: int| color),
            decreases n - i,
        {
            colors.push(color);
            i = i + 1;
            assert(colors@ =~= Seq::new(i as nat, |j: int| color));
        }
        self.tri_list_c(state, positions, colors)
    }
}

} // verus!
