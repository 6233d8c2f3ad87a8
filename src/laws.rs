use vstd::prelude::*;
use crate::state::DrawState;
use crate::batch::{
    BatchModel, CommandModel, colored_colors, colored_positions, flushed, model_wf, pending_draw, run,
    step, valid_call,
};

verus! {

/// Every colored command holds at least one and at most `capacity`
/// vertices, with one color per vertex.
pub open spec fn draws_bounded<P, C, U>(cs: Seq<CommandModel<P, C, U>>, capacity: nat) -> bool {
    forall|i: int|
        0 <= i < cs.len() ==> match #[trigger] cs[i] {
            CommandModel::Colored { positions, colors, .. } => 0 < positions.len() <= capacity
                && positions.len() == colors.len(),
            _ => true,
        }
}

/// Every submission of the sequence is one the batch can take.
pub open spec fn all_valid<P, C, U>(m: BatchModel<P, C>, calls: Seq<CommandModel<P, C, U>>) -> bool {
    forall|i: int| 0 <= i < calls.len() ==> valid_call(m, #[trigger] calls[i])
}

proof fn lemma_colored_concat<P, C, U>(a: Seq<CommandModel<P, C, U>>, b: Seq<CommandModel<P, C, U>>)
    ensures
        colored_positions(a + b) == colored_positions(a) + colored_positions(b),
        colored_colors(a + b) == colored_colors(a) + colored_colors(b),
    decreases b.len(),
{
    if b.len() == 0 {
        assert(a + b =~= a);
        assert(colored_positions(a) + colored_positions(b) =~= colored_positions(a));
        assert(colored_colors(a) + colored_colors(b) =~= colored_colors(a));
    } else {
        lemma_colored_concat(a, b.drop_last());
        assert((a + b).drop_last() =~= a + b.drop_last());
        assert((a + b).last() == b.last());
        assert(colored_positions(a + b) =~= colored_positions(a) + colored_positions(b));
        assert(colored_colors(a + b) =~= colored_colors(a) + colored_colors(b));
    }
}

proof fn lemma_single<P, C, U>(c: CommandModel<P, C, U>)
    ensures
        colored_positions(seq![c]) == match c {
            CommandModel::Colored { positions, .. } => positions,
            _ => Seq::empty(),
        },
        colored_colors(seq![c]) == match c {
            CommandModel::Colored { colors, .. } => colors,
            _ => Seq::empty(),
        },
{
    let e = Seq::<CommandModel<P, C, U>>::empty();
    assert(seq![c].drop_last() =~= e);
    assert(colored_positions(e) == Seq::<P>::empty());
    assert(colored_colors(e) == Seq::<C>::empty());
    assert(seq![c].last() == c);
    match c {
        CommandModel::Colored { positions, colors, .. } => {
            assert(colored_positions(seq![c]) =~= positions);
            assert(colored_colors(seq![c]) =~= colors);
        },
        _ => {
            assert(colored_positions(seq![c]) =~= Seq::<P>::empty());
            assert(colored_colors(seq![c]) =~= Seq::<C>::empty());
        },
    }
}

proof fn lemma_pending_draw<P, C, U>(m: BatchModel<P, C>)
    requires
        model_wf(m),
    ensures
        colored_positions(pending_draw::<P, C, U>(m)) == m.positions,
        colored_colors(pending_draw::<P, C, U>(m)) == m.colors,
        draws_bounded(pending_draw::<P, C, U>(m), m.capacity),
        pending_draw::<P, C, U>(m).len() <= 1,
{
    if m.positions.len() == 0 {
        assert(m.positions =~= Seq::empty());
        assert(m.colors =~= Seq::empty());
    } else {
        lemma_single(CommandModel::<P, C, U>::Colored { state: m.state, positions: m.positions, colors: m.colors });
    }
}

proof fn lemma_bounded_concat<P, C, U>(a: Seq<CommandModel<P, C, U>>, b: Seq<CommandModel<P, C, U>>, capacity: nat)
    requires
        draws_bounded(a, capacity),
        draws_bounded(b, capacity),
    ensures
        draws_bounded(a + b, capacity),
{
    assert forall|i: int| 0 <= i < (a + b).len() implies match #[trigger] (a + b)[i] {
        CommandModel::Colored { positions, colors, .. } => 0 < positions.len() <= capacity
            && positions.len() == colors.len(),
        _ => true,
    } by {
        if i < a.len() {
            assert((a + b)[i] == a[i]);
        } else {
            assert((a + b)[i] == b[i - a.len()]);
        }
    }
}

/// One submission keeps the batch consistent and loses no vertex: the
/// vertices it draws, then those left pending, are the vertices that were
/// pending, then those it submits.
pub proof fn lemma_step<P, C, U>(m: BatchModel<P, C>, c: CommandModel<P, C, U>)
    requires
        model_wf(m),
        valid_call(m, c),
    ensures
        model_wf(step(m, c).0),
        step(m, c).0.chunk == m.chunk,
        step(m, c).0.capacity == m.capacity,
        colored_positions(step(m, c).1) + step(m, c).0.positions == m.positions + colored_positions(seq![c]),
        colored_colors(step(m, c).1) + step(m, c).0.colors == m.colors + colored_colors(seq![c]),
        draws_bounded(step(m, c).1, m.capacity),
{
    lemma_single(c);
    lemma_pending_draw::<P, C, U>(m);
    match c {
        CommandModel::Colored { state, positions, colors } => {
            let m1 = if m.state != state {
                BatchModel { state, ..flushed(m) }
            } else {
                m
            };
            let o1: Seq<CommandModel<P, C, U>> = if m.state != state {
                pending_draw(m)
            } else {
                Seq::empty()
            };
            lemma_pending_draw::<P, C, U>(m1);
            let fits = m1.positions.len() + positions.len() <= m1.capacity;
            let m2 = if fits {
                m1
            } else {
                flushed(m1)
            };
            let o2: Seq<CommandModel<P, C, U>> = if fits {
                Seq::empty()
            } else {
                pending_draw(m1)
            };
            assert(colored_positions(o1) + m1.positions =~= m.positions);
            assert(colored_colors(o1) + m1.colors =~= m.colors);
            assert(colored_positions(o2) + m2.positions =~= m1.positions);
            assert(colored_colors(o2) + m2.colors =~= m1.colors);
            lemma_colored_concat(o1, o2);
            lemma_bounded_concat(o1, o2, m.capacity);
            assert(colored_positions(o1 + o2) + (m2.positions + positions) =~= m.positions + positions);
            assert(colored_colors(o1 + o2) + (m2.colors + colors) =~= m.colors + colors);
        },
        _ => {
            let o = pending_draw::<P, C, U>(m);
            lemma_colored_concat(o, seq![c]);
            assert(o.push(c) =~= o + seq![c]);
            assert(colored_positions(o.push(c)) + flushed(m).positions =~= m.positions + colored_positions(seq![c]));
            assert(colored_colors(o.push(c)) + flushed(m).colors =~= m.colors + colored_colors(seq![c]));
            assert(draws_bounded(seq![c], m.capacity));
            lemma_bounded_concat(o, seq![c], m.capacity);
        },
    }
}

/// A sequence of submissions keeps the batch consistent and loses no vertex.
pub proof fn lemma_run<P, C, U>(m: BatchModel<P, C>, calls: Seq<CommandModel<P, C, U>>)
    requires
        model_wf(m),
        all_valid(m, calls),
    ensures
        model_wf(run(m, calls).0),
        run(m, calls).0.chunk == m.chunk,
        run(m, calls).0.capacity == m.capacity,
        colored_positions(run(m, calls).1) + run(m, calls).0.positions == m.positions + colored_positions(calls),
        colored_colors(run(m, calls).1) + run(m, calls).0.colors == m.colors + colored_colors(calls),
        draws_bounded(run(m, calls).1, m.capacity),
    decreases calls.len(),
{
    if calls.len() == 0 {
        assert(m.positions + colored_positions(calls) =~= m.positions);
        assert(m.colors + colored_colors(calls) =~= m.colors);
        assert(colored_positions(Seq::<CommandModel<P, C, U>>::empty()) + m.positions =~= m.positions);
        assert(colored_colors(Seq::<CommandModel<P, C, U>>::empty()) + m.colors =~= m.colors);
    } else {
        let init = calls.drop_last();
        let c = calls.last();
        assert forall|i: int| 0 <= i < init.len() implies valid_call(m, #[trigger] init[i]) by {
            assert(valid_call(m, calls[i]));
        }
        lemma_run(m, init);
        let m1 = run(m, init).0;
        let o1 = run(m, init).1;
        assert(valid_call(m, calls[calls.len() - 1]));
        lemma_step(m1, c);
        let o2 = step(m1, c).1;
        lemma_colored_concat(o1, o2);
        lemma_bounded_concat(o1, o2, m.capacity);
        lemma_colored_concat(init, seq![c]);
        assert(init + seq![c] =~= calls);
        assert(colored_positions(calls) == colored_positions(init) + colored_positions(seq![c]));
        assert(colored_colors(calls) == colored_colors(init) + colored_colors(seq![c]));
        assert(run(m, calls).0 == step(m1, c).0);
        assert(run(m, calls).1 == o1 + o2);
        let m2 = step(m1, c).0;
        let (pa, pb, pc) = (colored_positions(o1), colored_positions(o2), colored_positions(seq![c]));
        assert((pa + pb) + m2.positions =~= pa + (pb + m2.positions));
        assert(pa + (m1.positions + pc) =~= (pa + m1.positions) + pc);
        assert((m.positions + colored_positions(init)) + pc =~= m.positions + (colored_positions(init) + pc));
        let (k1, k2, kc) = (colored_colors(o1), colored_colors(o2), colored_colors(seq![c]));
        assert((k1 + k2) + m2.colors =~= k1 + (k2 + m2.colors));
        assert(k1 + (m1.colors + kc) =~= (k1 + m1.colors) + kc);
        assert((m.colors + colored_colors(init)) + kc =~= m.colors + (colored_colors(init) + kc));
    }
}

/// Once the batch is flushed at the end, the colored draws hold exactly the
/// submitted colored vertices and colors, in submission order, and none holds
/// more than the store's capacity: a submission that does not fit forces a
/// flush, and no vertex is dropped or wrapped around.
pub proof fn lemma_capacity_flush<P, C, U>(m: BatchModel<P, C>, calls: Seq<CommandModel<P, C, U>>)
    requires
        model_wf(m),
        m.positions.len() == 0,
        all_valid(m, calls),
    ensures
        colored_positions(run(m, calls).1 + pending_draw(run(m, calls).0)) == colored_positions(calls),
        colored_colors(run(m, calls).1 + pending_draw(run(m, calls).0)) == colored_colors(calls),
        draws_bounded(run(m, calls).1 + pending_draw(run(m, calls).0), m.capacity),
        flushed(run(m, calls).0).positions.len() == 0,
{
    lemma_run(m, calls);
    let (m1, out) = run(m, calls);
    lemma_pending_draw::<P, C, U>(m1);
    lemma_colored_concat(out, pending_draw::<P, C, U>(m1));
    lemma_bounded_concat(out, pending_draw::<P, C, U>(m1), m.capacity);
    assert(m.positions =~= Seq::<P>::empty());
    assert(m.colors =~= Seq::<C>::empty());
    assert(m.positions + colored_positions(calls) =~= colored_positions(calls));
    assert(m.colors + colored_colors(calls) =~= colored_colors(calls));
}

/// Every submission is colored, with draw state `s`.
pub open spec fn all_colored_with<P, C, U>(calls: Seq<CommandModel<P, C, U>>, s: DrawState) -> bool {
    forall|i: int|
        0 <= i < calls.len() ==> (#[trigger] calls[i] matches CommandModel::Colored { state, .. } && state
            == s)
}

proof fn lemma_coalesce_run<P, C, U>(m: BatchModel<P, C>, calls: Seq<CommandModel<P, C, U>>, s: DrawState)
    requires
        model_wf(m),
        m.positions.len() == 0,
        all_valid(m, calls),
        all_colored_with(calls, s),
        colored_positions(calls).len() <= m.capacity,
    ensures
        run(m, calls).1 == Seq::<CommandModel<P, C, U>>::empty(),
        run(m, calls).0.positions == colored_positions(calls),
        run(m, calls).0.colors == colored_colors(calls),
        calls.len() > 0 ==> run(m, calls).0.state == s,
        run(m, calls).0.capacity == m.capacity,
        run(m, calls).0.chunk == m.chunk,
    decreases calls.len(),
{
    if calls.len() == 0 {
        assert(m.positions =~= colored_positions(calls));
        assert(m.colors =~= colored_colors(calls));
    } else {
        let init = calls.drop_last();
        let c = calls.last();
        assert forall|i: int| 0 <= i < init.len() implies valid_call(m, #[trigger] init[i]) by {
            assert(valid_call(m, calls[i]));
        }
        assert forall|i: int| 0 <= i < init.len() implies (#[trigger] init[i] matches CommandModel::Colored {
            state,
            ..
        } && state == s) by {
            assert(calls[i] matches CommandModel::Colored { state, .. } && state == s);
        }
        lemma_colored_concat(init, seq![c]);
        assert(init + seq![c] =~= calls);
        lemma_single(c);
        lemma_coalesce_run(m, init, s);
        lemma_run(m, init);
        assert(valid_call(m, calls[calls.len() - 1]));
        assert(calls[calls.len() - 1] matches CommandModel::Colored { state, .. } && state == s);
        let m1 = run(m, init).0;
        lemma_pending_draw::<P, C, U>(m1);
        if init.len() == 0 {
            assert(m1.positions =~= Seq::<P>::empty());
        }
        assert(step(m1, c).1 =~= Seq::<CommandModel<P, C, U>>::empty());
        assert(run(m, calls).1 =~= Seq::<CommandModel<P, C, U>>::empty());
    }
}

/// Colored submissions that share one draw state and together fit in the
/// store are drawn by a single draw call, issued at the flush, whose
/// vertices and colors are the submitted ones concatenated in order.
pub proof fn lemma_batch_coalescing<P, C, U>(
    m: BatchModel<P, C>,
    calls: Seq<CommandModel<P, C, U>>,
    s: DrawState,
)
    requires
        model_wf(m),
        m.positions.len() == 0,
        all_valid(m, calls),
        all_colored_with(calls, s),
        0 < colored_positions(calls).len() <= m.capacity,
    ensures
        run(m, calls).1 + pending_draw(run(m, calls).0) == seq![
            CommandModel::<P, C, U>::Colored {
                state: s,
                positions: colored_positions(calls),
                colors: colored_colors(calls),
            },
        ],
{
    lemma_coalesce_run(m, calls, s);
    if calls.len() == 0 {
        assert(colored_positions(calls) == Seq::<P>::empty());
    }
    assert(run(m, calls).1 + pending_draw(run(m, calls).0) =~= pending_draw::<P, C, U>(run(m, calls).0));
}

/// Two flat-color submissions with the same draw state that are batched
/// together keep their own colors: the first call's vertices carry its
/// color and the second call's vertices carry its color.
pub proof fn lemma_flat_colors_kept<P, C, U>(
    m: BatchModel<P, C>,
    s: DrawState,
    c1: C,
    pa: Seq<P>,
    c2: C,
    pb: Seq<P>,
)
    requires
        model_wf(m),
        m.positions.len() == 0,
        0 < pa.len() + pb.len() <= m.capacity,
    ensures
        ({
            let k1 = Seq::new(pa.len(), |i: int| c1);
            let k2 = Seq::new(pb.len(), |i: int| c2);
            let calls = seq![
                CommandModel::<P, C, U>::Colored { state: s, positions: pa, colors: k1 },
                CommandModel::<P, C, U>::Colored { state: s, positions: pb, colors: k2 },
            ];
            &&& run(m, calls).1 + pending_draw(run(m, calls).0) == seq![
                CommandModel::<P, C, U>::Colored { state: s, positions: pa + pb, colors: k1 + k2 },
            ]
            &&& forall|i: int| 0 <= i < pa.len() ==> #[trigger] (k1 + k2)[i] == c1
            &&& forall|i: int| pa.len() <= i < pa.len() + pb.len() ==> #[trigger] (k1 + k2)[i] == c2
        }),
{
    let k1 = Seq::new(pa.len(), |i: int| c1);
    let k2 = Seq::new(pb.len(), |i: int| c2);
    let a = CommandModel::<P, C, U>::Colored { state: s, positions: pa, colors: k1 };
    let b = CommandModel::<P, C, U>::Colored { state: s, positions: pb, colors: k2 };
    let calls = seq![a, b];
    lemma_single(a);
    lemma_single(b);
    assert(seq![a] + seq![b] =~= calls);
    lemma_colored_concat(seq![a], seq![b]);
    assert(all_valid(m, calls)) by {
        assert forall|i: int| 0 <= i < calls.len() implies valid_call(m, #[trigger] calls[i]) by {
            if i == 0 {
                assert(calls[i] == a);
            } else {
                assert(calls[i] == b);
            }
        }
    }
    assert(all_colored_with(calls, s)) by {
        assert forall|i: int| 0 <= i < calls.len() implies (#[trigger] calls[i] matches CommandModel::Colored {
            state,
            ..
        } && state == s) by {
            if i == 0 {
                assert(calls[i] == a);
            } else {
                assert(calls[i] == b);
            }
        }
    }
    lemma_batch_coalescing(m, calls, s);
}

/// A draw state change issues the pending batch: two colored submissions
/// with different draw states give two draw calls, the first with the first
/// state and its vertices, the second with the second state and its
/// vertices.
pub proof fn lemma_state_change_flush<P, C, U>(
    m: BatchModel<P, C>,
    a: CommandModel<P, C, U>,
    b: CommandModel<P, C, U>,
)
    requires
        model_wf(m),
        m.positions.len() == 0,
        valid_call(m, a),
        valid_call(m, b),
        a matches CommandModel::Colored { positions, .. } && positions.len() > 0,
        b matches CommandModel::Colored { positions, .. } && positions.len() > 0,
        a->Colored_state != b->Colored_state,
    ensures
        run(m, seq![a, b]).1 + pending_draw(run(m, seq![a, b]).0) == seq![a, b],
{
    let calls = seq![a, b];
    assert(calls.drop_last() =~= seq![a]);
    assert(seq![a].drop_last() =~= Seq::<CommandModel<P, C, U>>::empty());
    let m1 = step(m, a).0;
    let e = Seq::<CommandModel<P, C, U>>::empty();
    assert(run(m, e) == (m, e));
    assert(seq![a].last() == a);
    assert(run(m, seq![a]) == (m1, Seq::<CommandModel<P, C, U>>::empty() + step(m, a).1));
    assert(m.positions =~= Seq::<P>::empty());
    assert(m.colors =~= Seq::<C>::empty());
    assert(step(m, a).1 =~= Seq::<CommandModel<P, C, U>>::empty());
    assert(m1.positions =~= a->Colored_positions);
    assert(m1.colors =~= a->Colored_colors);
    assert(step(m1, b).1 =~= seq![a]);
    assert(step(m1, b).0.positions =~= b->Colored_positions);
    assert(step(m1, b).0.colors =~= b->Colored_colors);
    assert(run(m, calls).1 + pending_draw(run(m, calls).0) =~= seq![a, b]);
}

/// The submission alternates: colored submissions with at least one vertex
/// at even positions, other submissions at odd positions, in pairs.
pub open spec fn alternating<P, C, U>(calls: Seq<CommandModel<P, C, U>>) -> bool {
    &&& calls.len() % 2 == 0
    &&& forall|i: int| 0 <= i < calls.len() ==> fits_slot(#[trigger] calls[i], i % 2 == 0)
}

/// A colored submission with at least one vertex at an even slot, any other
/// submission at an odd one.
pub open spec fn fits_slot<P, C, U>(c: CommandModel<P, C, U>, even: bool) -> bool {
    if even {
        c matches CommandModel::Colored { positions, .. } && positions.len() > 0
    } else {
        !(c matches CommandModel::Colored { .. })
    }
}

/// Colored and other submissions that alternate are issued in exactly the
/// order they were submitted: each colored submission becomes one draw just
/// before the submission that follows it.
pub proof fn lemma_draw_order<P, C, U>(m: BatchModel<P, C>, calls: Seq<CommandModel<P, C, U>>)
    requires
        model_wf(m),
        m.positions.len() == 0,
        all_valid(m, calls),
        alternating(calls),
    ensures
        run(m, calls).1 == calls,
        run(m, calls).0.positions.len() == 0,
    decreases calls.len(),
{
    if calls.len() == 0 {
        assert(run(m, calls).1 =~= calls);
    } else {
        let n = calls.len();
        let init = calls.subrange(0, n - 2);
        let a = calls[n - 2];
        let b = calls[n - 1];
        assert(calls.drop_last() =~= init.push(a));
        assert(init.push(a).drop_last() =~= init);
        assert forall|i: int| 0 <= i < init.len() implies valid_call(m, #[trigger] init[i]) by {
            assert(valid_call(m, calls[i]));
        }
        assert forall|i: int| 0 <= i < init.len() implies fits_slot(#[trigger] init[i], i % 2 == 0) by {
            assert(fits_slot(calls[i], i % 2 == 0));
        }
        lemma_draw_order(m, init);
        lemma_run(m, init);
        assert((n - 2) % 2 == 0);
        assert(fits_slot(calls[n - 2], (n - 2) % 2 == 0));
        assert(fits_slot(calls[n - 1], (n - 1) % 2 == 0));
        assert(a matches CommandModel::Colored { positions, .. } && positions.len() > 0);
        assert(!(b matches CommandModel::Colored { .. }));
        assert(valid_call(m, a));
        assert(valid_call(m, b));
        let m1 = run(m, init).0;
        assert(m1.positions =~= Seq::<P>::empty());
        assert(m1.colors =~= Seq::<C>::empty());
        let m2 = step(m1, a).0;
        assert(step(m1, a).1 =~= Seq::<CommandModel<P, C, U>>::empty());
        assert(m2.positions =~= a->Colored_positions);
        assert(m2.colors =~= a->Colored_colors);
        assert(step(m2, b).1 =~= seq![a, b]);
        let d = calls.drop_last();
        assert(d.last() == a);
        assert(d.drop_last() == init);
        assert(run(m, d).0 == m2);
        assert(run(m, d).1 == run(m, init).1 + step(m1, a).1);
        assert(run(m, d).1 =~= init);
        assert(calls.last() == b);
        assert(run(m, calls).1 == run(m, d).1 + step(m2, b).1);
        assert(run(m, calls).1 =~= calls);
    }
}

/// A scope whose last submission is colored ends with a draw: the flush at
/// the end of the scope issues the pending batch, with that submission's
/// draw state, and leaves nothing pending.
pub proof fn lemma_scope_exit_flush<P, C, U>(m: BatchModel<P, C>, calls: Seq<CommandModel<P, C, U>>)
    requires
        model_wf(m),
        all_valid(m, calls),
        calls.len() > 0,
        calls.last() matches CommandModel::Colored { positions, .. } && positions.len() > 0,
    ensures
        pending_draw::<P, C, U>(run(m, calls).0) == seq![
            CommandModel::<P, C, U>::Colored {
                state: calls.last()->Colored_state,
                positions: run(m, calls).0.positions,
                colors: run(m, calls).0.colors,
            },
        ],
        run(m, calls).0.positions.len() > 0,
        flushed(run(m, calls).0).positions.len() == 0,
{
    let init = calls.drop_last();
    assert forall|i: int| 0 <= i < init.len() implies valid_call(m, #[trigger] init[i]) by {
        assert(valid_call(m, calls[i]));
    }
    lemma_run(m, init);
}

} // verus!
