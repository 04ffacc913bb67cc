//! Mathematical models of the array forms.
//!
//! A vector is modelled by the sequence of its components, a matrix by the
//! sequence of its fields, each of them the sequence of its own components.
//! This module says what it means to lay such a sequence of lines out flat,
//! to cut a flat sequence back into lines, and to swap the roles of lines
//! and positions, and proves that none of these loses anything.
use vstd::arithmetic::div_mod::{
    lemma_div_multiples_vanish, lemma_fundamental_div_mod, lemma_fundamental_div_mod_converse,
};
use vstd::prelude::*;

verus! {

/// The lines of a nested array, outermost first, each as the sequence of
/// its entries.
pub open spec fn grid<T, const I: usize, const O: usize>(a: [[T; I]; O]) -> Seq<Seq<T>> {
    Seq::new(O as nat, |i: int| a@[i]@)
}

/// `g` has `outer` lines of `inner` entries each.
pub open spec fn is_grid<T>(g: Seq<Seq<T>>, outer: nat, inner: nat) -> bool {
    &&& g.len() == outer
    &&& forall|i: int| 0 <= i < outer ==> (#[trigger] g[i]).len() == inner
}

/// The length of the first line of `g`, which in a grid is the length of
/// every line.
pub open spec fn line_len<T>(g: Seq<Seq<T>>) -> nat {
    if g.len() == 0 {
        0
    } else {
        g[0].len()
    }
}

/// The entries of `g` line after line: entry `j` of line `i` stands at
/// position `i * line_len(g) + j`.
pub open spec fn flat<T>(g: Seq<Seq<T>>) -> Seq<T> {
    let inner = line_len(g) as int;
    Seq::new(g.len() * line_len(g), |k: int| g[k / inner][k % inner])
}

/// The sequence `s` cut into consecutive lines of `inner` entries.
pub open spec fn lines<T>(s: Seq<T>, inner: nat) -> Seq<Seq<T>> {
    Seq::new(s.len() / inner, |i: int| Seq::new(inner, |j: int| s[i * inner + j]))
}

/// The grid whose line `j` holds entry `j` of every line of `g`, in the
/// order of the lines of `g`.
pub open spec fn transpose<T>(g: Seq<Seq<T>>) -> Seq<Seq<T>> {
    Seq::new(line_len(g), |j: int| Seq::new(g.len(), |i: int| g[i][j]))
}

/// Transposing a grid swaps its two dimensions and moves entry `(i, j)` to
/// `(j, i)`.
pub proof fn lemma_transpose_entries<T>(g: Seq<Seq<T>>, outer: nat, inner: nat)
    requires
        is_grid(g, outer, inner),
        outer > 0,
    ensures
        is_grid(transpose(g), inner, outer),
        forall|i: int, j: int|
            0 <= i < outer && 0 <= j < inner ==> #[trigger] transpose(g)[j][i] == g[i][j],
{
}

/// Transposing a grid twice gives the grid back.
pub proof fn lemma_transpose_involution<T>(g: Seq<Seq<T>>, outer: nat, inner: nat)
    requires
        is_grid(g, outer, inner),
        outer > 0 ==> inner > 0,
    ensures
        transpose(transpose(g)) == g,
{
    let t = transpose(g);
    if outer > 0 {
        lemma_transpose_entries(g, outer, inner);
        assert(line_len(t) == outer);
    }
    assert(transpose(t) =~~= g);
}

/// Laying a grid out flat keeps every entry: the flat form has
/// `outer * inner` entries, and entry `(i, j)` of the grid stands at
/// position `i * inner + j`.
pub proof fn lemma_flat_entries<T>(g: Seq<Seq<T>>, outer: nat, inner: nat)
    requires
        is_grid(g, outer, inner),
    ensures
        flat(g).len() == outer * inner,
        forall|i: int, j: int|
            0 <= i < outer && 0 <= j < inner ==> #[trigger] flat(g)[i * inner + j] == g[i][j],
{
    if outer == 0 {
        assert(outer * inner == 0 && g.len() * line_len(g) == 0) by (nonlinear_arith)
            requires
                outer == 0,
                g.len() == 0,
        ;
    }
    assert forall|i: int, j: int| 0 <= i < outer && 0 <= j < inner implies #[trigger] flat(g)[i
        * inner + j] == g[i][j] by {
        lemma_position_in_range(i, j, outer as int, inner as int);
        lemma_fundamental_div_mod_converse(i * inner + j, inner as int, i, j);
    }
}

/// Cutting the flat form of a grid into lines of the grid's line length
/// gives the grid back.
pub proof fn lemma_lines_of_flat<T>(g: Seq<Seq<T>>, outer: nat, inner: nat)
    requires
        is_grid(g, outer, inner),
        inner > 0,
    ensures
        lines(flat(g), inner) == g,
{
    lemma_flat_entries(g, outer, inner);
    lemma_div_multiples_vanish(outer as int, inner as int);
    assert((outer * inner) / inner == outer) by {
        assert(outer * inner == inner * outer) by (nonlinear_arith);
    }
    let l = lines(flat(g), inner);
    assert(l.len() == outer);
    assert forall|i: int| 0 <= i < outer implies #[trigger] l[i] =~= g[i] by {
        assert forall|j: int| 0 <= j < inner implies l[i][j] == g[i][j] by {
            assert(flat(g)[i * inner + j] == g[i][j]);
        }
    }
    assert(l =~= g);
}

/// Laying out flat the lines cut from a sequence gives the sequence back,
/// where the lines use the sequence up.
pub proof fn lemma_flat_of_lines<T>(s: Seq<T>, inner: nat)
    requires
        inner > 0,
        s.len() % inner == 0,
    ensures
        is_grid(lines(s, inner), s.len() / inner, inner),
        flat(lines(s, inner)) == s,
{
    let l = lines(s, inner);
    let outer = s.len() / inner;
    lemma_fundamental_div_mod(s.len() as int, inner as int);
    assert(s.len() == inner * outer);
    assert(is_grid(l, outer, inner));
    assert(outer * inner == inner * outer) by (nonlinear_arith);
    assert(outer > 0 ==> line_len(l) == inner);
    assert(flat(l).len() == s.len()) by {
        if outer == 0 {
            assert(inner * outer == 0) by (nonlinear_arith)
                requires
                    outer == 0,
            ;
        }
    }
    assert forall|k: int| 0 <= k < s.len() implies flat(l)[k] == s[k] by {
        lemma_fundamental_div_mod(k, inner as int);
        let i = k / (inner as int);
        let j = k % (inner as int);
        assert(0 <= i < outer) by (nonlinear_arith)
            requires
                k == inner * i + j,
                0 <= j < inner,
                0 <= k < inner * outer,
        ;
        assert(inner * i == i * inner) by (nonlinear_arith);
        assert(l[i][j] == s[i * inner + j]);
    }
    assert(flat(l) =~= s);
}

/// Two grids of one shape with the same flat form are the same grid.
pub proof fn lemma_flat_injective<T>(g: Seq<Seq<T>>, h: Seq<Seq<T>>, outer: nat, inner: nat)
    requires
        is_grid(g, outer, inner),
        is_grid(h, outer, inner),
        flat(g) == flat(h),
    ensures
        g == h,
{
    lemma_flat_entries(g, outer, inner);
    lemma_flat_entries(h, outer, inner);
    assert forall|i: int| 0 <= i < outer implies #[trigger] g[i] =~= h[i] by {
        assert forall|j: int| 0 <= j < inner implies g[i][j] == h[i][j] by {
            assert(flat(g)[i * inner + j] == g[i][j]);
            assert(flat(h)[i * inner + j] == h[i][j]);
        }
    }
    assert(g =~= h);
}

/// Position `i * inner + j` lies inside a flat form of `outer * inner`
/// entries.
proof fn lemma_position_in_range(i: int, j: int, outer: int, inner: int)
    requires
        0 <= i < outer,
        0 <= j < inner,
    ensures
        0 <= i * inner + j < outer * inner,
{
    assert(0 <= i * inner + j < outer * inner) by (nonlinear_arith)
        requires
            0 <= i < outer,
            0 <= j < inner,
    ;
}

} // verus!
