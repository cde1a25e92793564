use vstd::prelude::*;
use crate::kernel::Kernel;
use crate::rect::Rect;

verus! {

/// Whether `kernel` may be run on `rect`: the precondition of the code that
/// stands for it.
pub open spec fn accepts<T, S, V>(kernel: Kernel, scalar: S, vectorized: V, rect: Rect<T>) -> bool
    where
        S: Fn(Rect<T>) -> Rect<T>,
        V: Fn(Rect<T>) -> Rect<T>,
{
    match kernel {
        Kernel::Scalar => scalar.requires((rect,)),
        Kernel::Vectorized => vectorized.requires((rect,)),
    }
}

/// Whether `after` is what rotating `before` alone with `kernel` can give.
pub open spec fn rotated_alone<T, S, V>(
    kernel: Kernel,
    scalar: S,
    vectorized: V,
    before: Rect<T>,
    after: Rect<T>,
) -> bool
    where
        S: Fn(Rect<T>) -> Rect<T>,
        V: Fn(Rect<T>) -> Rect<T>,
{
    match kernel {
        Kernel::Scalar => scalar.ensures((before,), after),
        Kernel::Vectorized => vectorized.ensures((before,), after),
    }
}

/// Replaces every rectangle by what `rotate` makes of it, front to back.
fn rotate_each<T, F>(rects: &mut Vec<Rect<T>>, rotate: F)
    where
        T: Copy,
        F: Fn(Rect<T>) -> Rect<T>,
    requires
        forall|i: int| 0 <= i < old(rects).len() ==> rotate.requires((#[trigger] old(rects)[i],)),
    ensures
        final(rects).len() == old(rects).len(),
        forall|i: int|
            0 <= i < old(rects).len() ==> rotate.ensures(
                (old(rects)[i],),
                #[trigger] final(rects)[i],
            ),
{
    let count = rects.len();
    let mut done: usize = 0;
    while done < count
        invariant
            done <= count,
            rects.len() == count,
            old(rects).len() == count,
            forall|i: int| 0 <= i < count ==> rotate.requires((#[trigger] old(rects)[i],)),
            forall|i: int| 0 <= i < done ==> rotate.ensures((old(rects)[i],), #[trigger] rects[i]),
            forall|i: int| done <= i < count ==> #[trigger] rects[i] == old(rects)[i],
        decreases count - done,
    {
        let turned = rotate(rects[done]);
        rects[done] = turned;
        done += 1;
    }
}

/// Rotates every rectangle of `rects` in place, all with the same kernel.
///
/// The kernel is chosen once, from `vector_supported`: the vectorized one
/// where the processor has the vector extension, the scalar one otherwise.
/// `scalar` and `vectorized` are the two kernels, each for one rectangle and
/// with the angle already in it; only the chosen one is run. Returns the
/// kernel that ran.
///
/// Each element ends as what the chosen kernel gives for that element alone,
/// and the sequence keeps its length and order.
pub fn rotate_all<T, S, V>(
    rects: &mut Vec<Rect<T>>,
    vector_supported: bool,
    scalar: S,
    vectorized: V,
) -> (kernel: Kernel)
    where
        T: Copy,
        S: Fn(Rect<T>) -> Rect<T>,
        V: Fn(Rect<T>) -> Rect<T>,
    requires
        forall|i: int|
            0 <= i < old(rects).len() ==> accepts(
                Kernel::chosen(vector_supported),
                scalar,
                vectorized,
                #[trigger] old(rects)[i],
            ),
    ensures
        kernel == Kernel::chosen(vector_supported),
        final(rects).len() == old(rects).len(),
        forall|i: int|
            0 <= i < old(rects).len() ==> rotated_alone(
                kernel,
                scalar,
                vectorized,
                old(rects)[i],
                #[trigger] final(rects)[i],
            ),
{
    let kernel = Kernel::select(vector_supported);
    match kernel {
        Kernel::Scalar => {
            assert forall|i: int| 0 <= i < rects.len() implies scalar.requires(
                (#[trigger] rects[i],),
            ) by {
                assert(accepts(kernel, scalar, vectorized, rects[i]));
            }
            rotate_each(rects, scalar);
        },
        Kernel::Vectorized => {
            assert forall|i: int| 0 <= i < rects.len() implies vectorized.requires(
                (#[trigger] rects[i],),
            ) by {
                assert(accepts(kernel, scalar, vectorized, rects[i]));
            }
            rotate_each(rects, vectorized);
        },
    }
    kernel
}

} // verus!
