//! Elementwise operators on signals: sum, difference, product, scaling and
//! moving average.
//!
//! Each operator builds a new signal and leaves its inputs as they are. Two
//! signals of different lengths are combined over their common prefix: the
//! result is as long as the shorter one, with no padding and no error.
//!
//! The sample type `T` brings its own `+`, `-`, `*` and `/`. What these do is
//! kept apart from what the operators do with them: `is_sum`, `is_difference`,
//! `is_product` and `is_quotient` name the outcomes of one operation, and the
//! contract of an operator says which operation on which samples gave each
//! sample of its result. An operator may be called where every operation it
//! performs is defined, as all of them are on floating-point samples.
use crate::signal::SignalError;
use core::ops::{Add, Div, Mul, Sub};
use vstd::prelude::*;
use vstd::slice::slice_subrange;

verus! {

/// `total` is an outcome of `x + y` in the sample type.
pub open spec fn is_sum<T: Add<Output = T>>(x: T, y: T, total: T) -> bool {
    call_ensures(<T as Add>::add, (x, y), total)
}

/// `rest` is an outcome of `x - y` in the sample type.
pub open spec fn is_difference<T: Sub<Output = T>>(x: T, y: T, rest: T) -> bool {
    call_ensures(<T as Sub>::sub, (x, y), rest)
}

/// `product` is an outcome of `x * y` in the sample type.
pub open spec fn is_product<T: Mul<Output = T>>(x: T, y: T, product: T) -> bool {
    call_ensures(<T as Mul>::mul, (x, y), product)
}

/// `ratio` is an outcome of `x / y` in the sample type.
pub open spec fn is_quotient<T: Div<Output = T>>(x: T, y: T, ratio: T) -> bool {
    call_ensures(<T as Div>::div, (x, y), ratio)
}

/// Length of the common prefix of two signals: that of the shorter one.
pub open spec fn common_len<T>(a: Seq<T>, b: Seq<T>) -> nat {
    if a.len() < b.len() {
        a.len()
    } else {
        b.len()
    }
}

/// `out` is the elementwise sum of `a` and `b` over their common prefix.
pub open spec fn is_sum_signal<T: Add<Output = T>>(a: Seq<T>, b: Seq<T>, out: Seq<T>) -> bool {
    &&& out.len() == common_len(a, b)
    &&& forall|i: int| 0 <= i < out.len() ==> is_sum(a[i], b[i], #[trigger] out[i])
}

/// `out` is the elementwise difference of `a` and `b` over their common prefix.
pub open spec fn is_difference_signal<T: Sub<Output = T>>(
    a: Seq<T>,
    b: Seq<T>,
    out: Seq<T>,
) -> bool {
    &&& out.len() == common_len(a, b)
    &&& forall|i: int| 0 <= i < out.len() ==> is_difference(a[i], b[i], #[trigger] out[i])
}

/// `out` is the elementwise product of `a` and `b` over their common prefix.
pub open spec fn is_product_signal<T: Mul<Output = T>>(a: Seq<T>, b: Seq<T>, out: Seq<T>) -> bool {
    &&& out.len() == common_len(a, b)
    &&& forall|i: int| 0 <= i < out.len() ==> is_product(a[i], b[i], #[trigger] out[i])
}

/// `out` is `a` with every sample multiplied by `amplitude`.
pub open spec fn is_scaled_signal<T: Mul<Output = T>>(a: Seq<T>, amplitude: T, out: Seq<T>) -> bool {
    &&& out.len() == a.len()
    &&& forall|i: int| 0 <= i < out.len() ==> is_product(a[i], amplitude, #[trigger] out[i])
}

/// Adds two signals sample by sample, down to the length of the shorter.
pub fn add_signal<T>(sig1: &[T], sig2: &[T]) -> (out: Vec<T>) where T: Copy + Add<Output = T>
    requires
        forall|i: int|
            0 <= i < common_len(sig1@, sig2@) ==> call_requires(
                <T as Add>::add,
                (#[trigger] sig1@[i], sig2@[i]),
            ),
    ensures
        is_sum_signal(sig1@, sig2@, out@),
{
    let mut sig_new: Vec<T> = Vec::new();
    let length = if sig1.len() < sig2.len() {
        sig1.len()
    } else {
        sig2.len()
    };
    let mut i: usize = 0;
    while i < length
        invariant
            length == common_len(sig1@, sig2@),
            i <= length,
            sig_new@.len() == i,
            forall|j: int|
                0 <= j < common_len(sig1@, sig2@) ==> call_requires(
                    <T as Add>::add,
                    (#[trigger] sig1@[j], sig2@[j]),
                ),
            forall|j: int| 0 <= j < i ==> is_sum(sig1@[j], sig2@[j], #[trigger] sig_new@[j]),
        decreases length - i,
    {
        sig_new.push(sig1[i] + sig2[i]);
        i += 1;
    }
    sig_new
}

/// Subtracts the second signal from the first sample by sample, down to the
/// length of the shorter.
pub fn sub_signal<T>(sig1: &[T], sig2: &[T]) -> (out: Vec<T>) where T: Copy + Sub<Output = T>
    requires
        forall|i: int|
            0 <= i < common_len(sig1@, sig2@) ==> call_requires(
                <T as Sub>::sub,
                (#[trigger] sig1@[i], sig2@[i]),
            ),
    ensures
        is_difference_signal(sig1@, sig2@, out@),
{
    let mut sig_new: Vec<T> = Vec::new();
    let length = if sig1.len() < sig2.len() {
        sig1.len()
    } else {
        sig2.len()
    };
    let mut i: usize = 0;
    while i < length
        invariant
            length == common_len(sig1@, sig2@),
            i <= length,
            sig_new@.len() == i,
            forall|j: int|
                0 <= j < common_len(sig1@, sig2@) ==> call_requires(
                    <T as Sub>::sub,
                    (#[trigger] sig1@[j], sig2@[j]),
                ),
            forall|j: int|
                0 <= j < i ==> is_difference(sig1@[j], sig2@[j], #[trigger] sig_new@[j]),
        decreases length - i,
    {
        sig_new.push(sig1[i] - sig2[i]);
        i += 1;
    }
    sig_new
}

/// Multiplies two signals sample by sample, down to the length of the shorter.
pub fn mux_signal<T>(sig1: &[T], sig2: &[T]) -> (out: Vec<T>) where T: Copy + Mul<Output = T>
    requires
        forall|i: int|
            0 <= i < common_len(sig1@, sig2@) ==> call_requires(
                <T as Mul>::mul,
                (#[trigger] sig1@[i], sig2@[i]),
            ),
    ensures
        is_product_signal(sig1@, sig2@, out@),
{
    let mut sig_new: Vec<T> = Vec::new();
    let length = if sig1.len() < sig2.len() {
        sig1.len()
    } else {
        sig2.len()
    };
    let mut i: usize = 0;
    while i < length
        invariant
            length == common_len(sig1@, sig2@),
            i <= length,
            sig_new@.len() == i,
            forall|j: int|
                0 <= j < common_len(sig1@, sig2@) ==> call_requires(
                    <T as Mul>::mul,
                    (#[trigger] sig1@[j], sig2@[j]),
                ),
            forall|j: int| 0 <= j < i ==> is_product(sig1@[j], sig2@[j], #[trigger] sig_new@[j]),
        decreases length - i,
    {
        sig_new.push(sig1[i] * sig2[i]);
        i += 1;
    }
    sig_new
}

/// Multiplies every sample of a signal by `amplitude`.
pub fn scaling<T>(sig1: &[T], amplitude: T) -> (out: Vec<T>) where T: Copy + Mul<Output = T>
    requires
        forall|i: int|
            0 <= i < sig1@.len() ==> call_requires(
                <T as Mul>::mul,
                (#[trigger] sig1@[i], amplitude),
            ),
    ensures
        is_scaled_signal(sig1@, amplitude, out@),
{
    let mut sig_new: Vec<T> = Vec::new();
    let mut i: usize = 0;
    while i < sig1.len()
        invariant
            i <= sig1@.len(),
            sig_new@.len() == i,
            forall|j: int|
                0 <= j < sig1@.len() ==> call_requires(
                    <T as Mul>::mul,
                    (#[trigger] sig1@[j], amplitude),
                ),
            forall|j: int| 0 <= j < i ==> is_product(sig1@[j], amplitude, #[trigger] sig_new@[j]),
        decreases sig1@.len() - i,
    {
        sig_new.push(sig1[i] * amplitude);
        i += 1;
    }
    sig_new
}

/// Number of complete windows of `kernel_length` samples that fit into a
/// signal of `len` samples.
pub open spec fn window_count(len: nat, kernel_length: nat) -> nat {
    if len >= kernel_length {
        (len - kernel_length + 1) as nat
    } else {
        0
    }
}

/// `partials` are the running sums of `window` started from `start`: the
/// first is `start`, and each next one is an outcome of adding the next
/// sample of the window to the one before.
pub open spec fn are_running_sums<T: Add<Output = T>>(
    start: T,
    window: Seq<T>,
    partials: Seq<T>,
) -> bool {
    &&& partials.len() == window.len() + 1
    &&& partials[0] == start
    &&& forall|j: int|
        0 <= j < window.len() ==> is_sum(partials[j], window[j], #[trigger] partials[j + 1])
}

/// `total` is an outcome of adding the samples of `window` to `start` one
/// after the other, the first sample first.
pub open spec fn is_running_sum<T: Add<Output = T>>(start: T, window: Seq<T>, total: T) -> bool {
    exists|partials: Seq<T>| #[trigger]
        are_running_sums(start, window, partials) && partials.last() == total
}

/// `mean` is an outcome of dividing the running sum of `window`, started from
/// the sample type's zero, by `kernel_length` converted to the sample type.
pub open spec fn is_mean<T>(window: Seq<T>, kernel_length: i32, mean: T) -> bool where
    T: Add<Output = T> + Div<Output = T> + From<i32>,
 {
    exists|zero: T, total: T, divisor: T|
        call_ensures(<T as From<i32>>::from, (0i32,), zero) && #[trigger] is_running_sum(
            zero,
            window,
            total,
        ) && call_ensures(<T as From<i32>>::from, (kernel_length,), divisor)
            && #[trigger] is_quotient(total, divisor, mean)
}

/// `out` holds, for every complete window of `kernel_length` samples of
/// `sig`, the mean of that window, in the order of the windows' first samples.
pub open spec fn is_moving_average<T>(sig: Seq<T>, kernel_length: i32, out: Seq<T>) -> bool where
    T: Add<Output = T> + Div<Output = T> + From<i32>,
 {
    &&& kernel_length >= 0
    &&& out.len() == window_count(sig.len(), kernel_length as nat)
    &&& forall|i: int|
        0 <= i < out.len() ==> is_mean(
            sig.subrange(i, i + kernel_length),
            kernel_length,
            #[trigger] out[i],
        )
}

/// Every sum and every quotient of two samples is defined.
pub open spec fn arithmetic_is_total<T>() -> bool where T: Add<Output = T> + Div<Output = T> {
    &&& forall|x: T, y: T| call_requires(<T as Add>::add, (x, y))
    &&& forall|x: T, y: T| call_requires(<T as Div>::div, (x, y))
}

fn window_mean<T>(window: &[T], kernel_length: i32) -> (mean: T) where
    T: Copy + Add<Output = T> + Div<Output = T> + From<i32>,

    requires
        arithmetic_is_total::<T>(),
    ensures
        is_mean(window@, kernel_length, mean),
{
    let zero = T::from(0i32);
    let mut total = zero;
    let ghost mut partials: Seq<T> = seq![zero];
    let mut j: usize = 0;
    while j < window.len()
        invariant
            arithmetic_is_total::<T>(),
            j <= window@.len(),
            are_running_sums(zero, window@.take(j as int), partials),
            partials.last() == total,
        decreases window@.len() - j,
    {
        total = total + window[j];
        proof {
            partials = partials.push(total);
        }
        j += 1;
    }
    assert(window@.take(window@.len() as int) == window@);
    let divisor = T::from(kernel_length);
    let mean = total / divisor;
    assert(is_running_sum(zero, window@, total) && is_quotient(total, divisor, mean));
    mean
}

/// Moving average with a window of `kernel_length` samples: one mean for
/// every complete window. A signal shorter than the window gives an empty
/// result. A negative `kernel_length` is rejected. With `kernel_length` zero
/// every window is empty and every mean is zero divided by zero in the sample
/// type, once for each position from the first sample to one past the last.
pub fn move_average<T>(sig1: &[T], kernel_length: i32) -> (out: Result<Vec<T>, SignalError>) where
    T: Copy + Add<Output = T> + Div<Output = T> + From<i32>,

    requires
        arithmetic_is_total::<T>(),
    ensures
        match out {
            Ok(averaged) => is_moving_average(sig1@, kernel_length, averaged@),
            Err(e) => kernel_length < 0 && e == SignalError::InvalidParameter,
        },
{
    if kernel_length < 0 {
        return Err(SignalError::InvalidParameter);
    }
    let width = kernel_length as usize;
    let mut sig_new: Vec<T> = Vec::new();
    if sig1.len() < width {
        return Ok(sig_new);
    }
    let last = sig1.len() - width;
    let mut i: usize = 0;
    loop
        invariant_except_break
            sig_new@.len() == i,
        invariant
            arithmetic_is_total::<T>(),
            kernel_length >= 0,
            width == kernel_length,
            last + width == sig1@.len() <= usize::MAX,
            i <= last,
            forall|j: int|
                0 <= j < sig_new@.len() ==> is_mean(
                    sig1@.subrange(j, j + kernel_length),
                    kernel_length,
                    #[trigger] sig_new@[j],
                ),
        ensures
            sig_new@.len() == last + 1,
        decreases last - i,
    {
        let window = slice_subrange(sig1, i, i + width);
        let mean = window_mean(window, kernel_length);
        sig_new.push(mean);
        if i == last {
            break ;
        }
        i += 1;
    }
    Ok(sig_new)
}

/// Subtraction with the operands swapped mirrors the result. Let `mirrored`
/// be any relation that holds between every outcome of `x - y` and every
/// outcome of `y - x`, such as "is the negative of". Then the difference of
/// `a` and `b` and the difference of `b` and `a` have the same length, that
/// of the common prefix, and `mirrored` holds between them sample by sample.
pub proof fn swapped_difference_is_mirrored<T: Sub<Output = T>>(
    a: Seq<T>,
    b: Seq<T>,
    forward: Seq<T>,
    backward: Seq<T>,
    mirrored: spec_fn(T, T) -> bool,
)
    requires
        is_difference_signal(a, b, forward),
        is_difference_signal(b, a, backward),
        forall|x: T, y: T, d: T, e: T|
            #[trigger] is_difference(x, y, d) && #[trigger] is_difference(y, x, e) ==> mirrored(
                d,
                e,
            ),
    ensures
        forward.len() == backward.len() == common_len(a, b),
        forall|i: int| 0 <= i < forward.len() ==> mirrored(#[trigger] forward[i], backward[i]),
{
    assert forall|i: int| 0 <= i < forward.len() implies mirrored(
        #[trigger] forward[i],
        backward[i],
    ) by {
        assert(is_difference(a[i], b[i], forward[i]));
        assert(is_difference(b[i], a[i], backward[i]));
    }
}

/// A window of one sample keeps the signal. Let `kept` be any relation that
/// holds between a sample and every mean of the window that holds that sample
/// alone, such as "equals". Then the moving average of `a` over one sample is
/// as long as `a`, and `kept` holds between `a` and it sample by sample.
pub proof fn unit_window_keeps_signal<T>(a: Seq<T>, out: Seq<T>, kept: spec_fn(T, T) -> bool) where
    T: Add<Output = T> + Div<Output = T> + From<i32>,

    requires
        is_moving_average(a, 1, out),
        forall|x: T, m: T| #[trigger] is_mean(seq![x], 1, m) ==> kept(x, m),
    ensures
        out.len() == a.len(),
        forall|i: int| 0 <= i < a.len() ==> kept(a[i], #[trigger] out[i]),
{
    assert forall|i: int| 0 <= i < a.len() implies kept(a[i], #[trigger] out[i]) by {
        assert(a.subrange(i, i + 1) == seq![a[i]]);
        assert(is_mean(seq![a[i]], 1, out[i]));
    }
}

} // verus!
