use vstd::prelude::*;
use vstd::arithmetic::div_mod::lemma_fundamental_div_mod_converse;

verus! {

/// The column and row of the `k`-th pixel of a row-major scan over an image
/// `width` pixels wide: rows top to bottom, each row left to right.
pub open spec fn scan_position(width: nat, k: nat) -> (nat, nat) {
    (k % width, k / width)
}

/// The place of pixel (`column`, `row`) in a row-major scan over an image
/// `width` pixels wide.
pub open spec fn scan_index(width: int, column: int, row: int) -> int {
    row * width + column
}

/// Every pixel of a `width` × `height` image as `(column, row)`, in the
/// order in which the image is rendered and written: row `0` first, and
/// within a row, column `0` first.
pub fn scan_order(width: u32, height: u32) -> (r: Vec<(u32, u32)>)
    requires
        width as int * height as int <= usize::MAX,
    ensures
        r@.len() == width as int * height as int,
        forall|k: int|
            0 <= k < r@.len() ==> {
                let (i, j) = #[trigger] r@[k];
                (i as nat, j as nat) == scan_position(width as nat, k as nat)
            },
        forall|i: int, j: int|
            0 <= i < width && 0 <= j < height ==> #[trigger] r@[scan_index(width as int, i, j)]
                == (i as u32, j as u32),
{
    let mut r: Vec<(u32, u32)> = Vec::new();
    let mut j: u32 = 0;
    while j < height
        invariant
            j <= height,
            width as int * height as int <= usize::MAX,
            r@.len() == j as int * width as int,
            forall|k: int|
                0 <= k < r@.len() ==> {
                    let (i, j) = #[trigger] r@[k];
                    (i as nat, j as nat) == scan_position(width as nat, k as nat)
                },
        decreases height - j,
    {
        let mut i: u32 = 0;
        while i < width
            invariant
                i <= width,
                j < height,
                width as int * height as int <= usize::MAX,
                r@.len() == j as int * width as int + i as int,
                forall|k: int|
                    0 <= k < r@.len() ==> {
                        let (i, j) = #[trigger] r@[k];
                        (i as nat, j as nat) == scan_position(width as nat, k as nat)
                    },
            decreases width - i,
        {
            proof {
                let k = j as int * width as int + i as int;
                lemma_fundamental_div_mod_converse(k, width as int, j as int, i as int);
                assert(k < width as int * height as int) by (nonlinear_arith)
                    requires
                        i < width,
                        j < height,
                        k == j as int * width as int + i as int,
                ;
            }
            r.push((i, j));
            i += 1;
        }
        proof {
            assert((j + 1) as int * width as int == j as int * width as int + width as int)
                by (nonlinear_arith);
        }
        j += 1;
    }
    assert(j as int * width as int == width as int * height as int) by (nonlinear_arith)
        requires
            j == height,
    ;
    assert forall|i: int, j: int| 0 <= i < width && 0 <= j < height implies #[trigger] r@[scan_index(
        width as int,
        i,
        j,
    )] == (i as u32, j as u32) by {
        let k = scan_index(width as int, i, j);
        lemma_fundamental_div_mod_converse(k, width as int, j, i);
        assert(k < width as int * height as int) by (nonlinear_arith)
            requires
                0 <= i < width,
                0 <= j < height,
                k == j * width + i,
        ;
    }
    r
}

} // verus!
