//! One configuration of the experiment grid, and the grid itself.

use vstd::prelude::*;

use crate::decimal::{decimal_chars, push_decimal};

verus! {

/// One cell of the experiment grid: vector dimensionality, the number of
/// bootstrap ticks before predictions start, and the size that garbage
/// collection trims each database to.
#[derive(Clone, Debug)]
pub struct Config {
    pub dim: usize,
    pub window: usize,
    pub gc_threshold: usize,
    pub label: String,
}

/// The label of a configuration: `d=<dim> w=<window> gc=<gc_threshold>`,
/// each number in decimal.
pub open spec fn config_label(dim: nat, window: nat, gc_threshold: nat) -> Seq<char> {
    seq!['d', '='] + decimal_chars(dim) + seq![' ', 'w', '='] + decimal_chars(window) + seq![
        ' ',
        'g',
        'c',
        '=',
    ] + decimal_chars(gc_threshold)
}

impl Config {
    /// Whether this configuration holds the given parameters and the label
    /// they determine.
    pub open spec fn describes(self, dim: nat, window: nat, gc_threshold: nat) -> bool {
        &&& self.dim == dim
        &&& self.window == window
        &&& self.gc_threshold == gc_threshold
        &&& self.label@ == config_label(dim, window, gc_threshold)
    }

    /// Builds a configuration and its label.
    pub fn new(dim: usize, window: usize, gc_threshold: usize) -> (c: Self)
        ensures
            c.describes(dim as nat, window as nat, gc_threshold as nat),
    {
        proof {
            reveal_strlit("d=");
            reveal_strlit(" w=");
            reveal_strlit(" gc=");
            assert("d="@ =~= seq!['d', '=']);
            assert(" w="@ =~= seq![' ', 'w', '=']);
            assert(" gc="@ =~= seq![' ', 'g', 'c', '=']);
        }
        let mut label = String::new();
        label.append("d=");
        push_decimal(&mut label, dim);
        label.append(" w=");
        push_decimal(&mut label, window);
        label.append(" gc=");
        push_decimal(&mut label, gc_threshold);
        Config { dim, window, gc_threshold, label }
    }
}

/// The dimensionalities of the grid.
pub open spec fn grid_dims() -> Seq<usize> {
    seq![4usize, 8usize, 16usize]
}

/// The bootstrap windows of the grid.
pub open spec fn grid_windows() -> Seq<usize> {
    seq![50usize, 200usize, 500usize]
}

/// The garbage-collection thresholds of the grid.
pub open spec fn grid_gc_thresholds() -> Seq<usize> {
    seq![100usize, 500usize]
}

/// The number of cells in the grid.
pub open spec fn grid_len() -> nat {
    grid_dims().len() * grid_windows().len() * grid_gc_thresholds().len()
}

/// Position `k` of the grid in its enumeration order: dimensionality
/// outermost, then window, then threshold.
pub open spec fn grid_cell(k: int) -> (usize, usize, usize) {
    (grid_dims()[k / 6], grid_windows()[(k / 2) % 3], grid_gc_thresholds()[k % 2])
}

/// The configuration at position `k` matches the grid cell at `k`.
pub open spec fn is_grid_entry(c: Config, k: int) -> bool {
    let (d, w, g) = grid_cell(k);
    c.describes(d as nat, w as nat, g as nat)
}

/// Every combination of dimensionality, window and threshold, each exactly
/// once, in the order dimensionality, window, threshold.
pub fn all_configs() -> (configs: Vec<Config>)
    ensures
        configs.len() == grid_len(),
        configs.len() == 18,
        forall|k: int| 0 <= k < configs.len() ==> #[trigger] is_grid_entry(configs@[k], k),
        forall|a: int, b: int, c: int|
            0 <= a < 3 && 0 <= b < 3 && 0 <= c < 2 ==> (#[trigger] configs@[6 * a + 2 * b
                + c]).describes(
                grid_dims()[a] as nat,
                grid_windows()[b] as nat,
                grid_gc_thresholds()[c] as nat,
            ),
        forall|i: int, j: int|
            0 <= i < j < configs.len() ==> !(#[trigger] configs@[i].dim == #[trigger] configs@[j].dim
                && configs@[i].window == configs@[j].window && configs@[i].gc_threshold
                == configs@[j].gc_threshold),
{
    let dims: [usize; 3] = [4, 8, 16];
    let windows: [usize; 3] = [50, 200, 500];
    let gc_thresholds: [usize; 2] = [100, 500];
    assert(dims@ == grid_dims());
    assert(windows@ == grid_windows());
    assert(gc_thresholds@ == grid_gc_thresholds());
    let mut configs: Vec<Config> = Vec::new();
    for a in 0..3usize
        invariant
            dims@ == grid_dims(),
            windows@ == grid_windows(),
            gc_thresholds@ == grid_gc_thresholds(),
            configs.len() == 6 * a,
            forall|k: int| 0 <= k < configs.len() ==> #[trigger] is_grid_entry(configs@[k], k),
    {
        for b in 0..3usize
            invariant
                a < 3,
                dims@ == grid_dims(),
                windows@ == grid_windows(),
                gc_thresholds@ == grid_gc_thresholds(),
                configs.len() == 6 * a + 2 * b,
                forall|k: int| 0 <= k < configs.len() ==> #[trigger] is_grid_entry(configs@[k], k),
        {
            for c in 0..2usize
                invariant
                    a < 3,
                    b < 3,
                    dims@ == grid_dims(),
                    windows@ == grid_windows(),
                    gc_thresholds@ == grid_gc_thresholds(),
                    configs.len() == 6 * a + 2 * b + c,
                    forall|k: int|
                        0 <= k < configs.len() ==> #[trigger] is_grid_entry(configs@[k], k),
            {
                let cfg = Config::new(dims[a], windows[b], gc_thresholds[c]);
                let ghost k = 6 * a + 2 * b + c;
                assert(k / 6 == a && (k / 2) % 3 == b && k % 2 == c);
                configs.push(cfg);
            }
        }
    }
    proof {
        assert forall|a: int, b: int, c: int|
            0 <= a < 3 && 0 <= b < 3 && 0 <= c < 2 implies (#[trigger] configs@[6 * a + 2 * b
            + c]).describes(
            grid_dims()[a] as nat,
            grid_windows()[b] as nat,
            grid_gc_thresholds()[c] as nat,
        ) by {
            let k = 6 * a + 2 * b + c;
            assert(k / 6 == a && (k / 2) % 3 == b && k % 2 == c);
            assert(is_grid_entry(configs@[k], k));
        }
        assert forall|i: int, j: int| 0 <= i < j < configs.len() implies !(
        #[trigger] configs@[i].dim == #[trigger] configs@[j].dim && configs@[i].window
            == configs@[j].window && configs@[i].gc_threshold == configs@[j].gc_threshold) by {
            assert(is_grid_entry(configs@[i], i));
            assert(is_grid_entry(configs@[j], j));
        }
    }
    configs
}

} // verus!
