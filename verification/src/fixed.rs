use crate::errors::TryIndicesError;
use crate::errors::TryIndicesOrderedError;
use crate::handles::Handle;
use vstd::prelude::*;

verus! {

/// The handle for one in-bounds position.
pub fn indices1<T>(collection: &Vec<T>, a: usize) -> (r: Handle)
    requires
        (a as nat) < collection@.len(),
    ensures
        r.target() == a,
{
    Handle::at(a)
}

/// Handles for two pairwise-distinct in-bounds positions, in argument order.
pub fn indices2<T>(collection: &Vec<T>, a: usize, b: usize) -> (r: (Handle, Handle))
    requires
        (a as nat) < collection@.len(),
        (b as nat) < collection@.len(),
        a != b,
    ensures
        r.0.target() == a,
        r.1.target() == b,
{
    (Handle::at(a), Handle::at(b))
}

/// Handles for three pairwise-distinct in-bounds positions, in argument order.
pub fn indices3<T>(collection: &Vec<T>, a: usize, b: usize, c: usize) -> (r: (
    Handle,
    Handle,
    Handle,
))
    requires
        (a as nat) < collection@.len(),
        (b as nat) < collection@.len(),
        (c as nat) < collection@.len(),
        a != b && a != c && b != c,
    ensures
        r.0.target() == a,
        r.1.target() == b,
        r.2.target() == c,
{
    (Handle::at(a), Handle::at(b), Handle::at(c))
}

/// Handles for four pairwise-distinct in-bounds positions, in argument order.
pub fn indices4<T>(collection: &Vec<T>, a: usize, b: usize, c: usize, d: usize) -> (r: (
    Handle,
    Handle,
    Handle,
    Handle,
))
    requires
        (a as nat) < collection@.len(),
        (b as nat) < collection@.len(),
        (c as nat) < collection@.len(),
        (d as nat) < collection@.len(),
        a != b && a != c && a != d && b != c && b != d && c != d,
    ensures
        r.0.target() == a,
        r.1.target() == b,
        r.2.target() == c,
        r.3.target() == d,
{
    (Handle::at(a), Handle::at(b), Handle::at(c), Handle::at(d))
}

/// Handles for five pairwise-distinct in-bounds positions, in argument order.
pub fn indices5<T>(collection: &Vec<T>, a: usize, b: usize, c: usize, d: usize, e: usize) -> (r: (
    Handle,
    Handle,
    Handle,
    Handle,
    Handle,
))
    requires
        (a as nat) < collection@.len(),
        (b as nat) < collection@.len(),
        (c as nat) < collection@.len(),
        (d as nat) < collection@.len(),
        (e as nat) < collection@.len(),
        a != b && a != c && a != d && a != e,
        b != c && b != d && b != e,
        c != d && c != e,
        d != e,
    ensures
        r.0.target() == a,
        r.1.target() == b,
        r.2.target() == c,
        r.3.target() == d,
        r.4.target() == e,
{
    (Handle::at(a), Handle::at(b), Handle::at(c), Handle::at(d), Handle::at(e))
}

/// The handle for one position, or `IndexOutOfBounds` when it reaches past
/// the collection.
pub fn try_indices1<T>(collection: &Vec<T>, a: usize) -> (r: Result<Handle, TryIndicesError>)
    ensures
        match r {
            Ok(h) => (a as nat) < collection@.len() && h.target() == a,
            Err(e) => (a as nat) >= collection@.len() && e == TryIndicesError::IndexOutOfBounds,
        },
{
    if a >= collection.len() {
        return Err(TryIndicesError::IndexOutOfBounds);
    }
    Ok(Handle::at(a))
}

/// Handles for two positions, in argument order: `IndexOutOfBounds` when some
/// position reaches past the collection, `DuplicateIndex` when both positions
/// are in bounds but equal.
pub fn try_indices2<T>(collection: &Vec<T>, a: usize, b: usize) -> (r: Result<
    (Handle, Handle),
    TryIndicesError,
>)
    ensures
        match r {
            Ok(h) => {
                &&& (a as nat) < collection@.len() && (b as nat) < collection@.len()
                &&& a != b
                &&& h.0.target() == a && h.1.target() == b
            },
            Err(e) => {
                &&& (a as nat) >= collection@.len() || (b as nat) >= collection@.len() || a == b
                &&& e == if (a as nat) >= collection@.len() || (b as nat) >= collection@.len() {
                    TryIndicesError::IndexOutOfBounds
                } else {
                    TryIndicesError::DuplicateIndex
                }
            },
        },
{
    let n = collection.len();
    if a >= n || b >= n {
        return Err(TryIndicesError::IndexOutOfBounds);
    }
    if a == b {
        return Err(TryIndicesError::DuplicateIndex);
    }
    Ok((Handle::at(a), Handle::at(b)))
}

/// Handles for three positions, in argument order, with the error rule of
/// [`try_indices2`].
pub fn try_indices3<T>(collection: &Vec<T>, a: usize, b: usize, c: usize) -> (r: Result<
    (Handle, Handle, Handle),
    TryIndicesError,
>)
    ensures
        match r {
            Ok(h) => {
                &&& (a as nat) < collection@.len() && (b as nat) < collection@.len() && (c as nat)
                    < collection@.len()
                &&& a != b && a != c && b != c
                &&& h.0.target() == a && h.1.target() == b && h.2.target() == c
            },
            Err(e) => {
                &&& (a as nat) >= collection@.len() || (b as nat) >= collection@.len() || (c as nat)
                    >= collection@.len() || a == b || a == c || b == c
                &&& e == if (a as nat) >= collection@.len() || (b as nat) >= collection@.len() || (
                c as nat) >= collection@.len() {
                    TryIndicesError::IndexOutOfBounds
                } else {
                    TryIndicesError::DuplicateIndex
                }
            },
        },
{
    let n = collection.len();
    if a >= n || b >= n || c >= n {
        return Err(TryIndicesError::IndexOutOfBounds);
    }
    if a == b || a == c || b == c {
        return Err(TryIndicesError::DuplicateIndex);
    }
    Ok((Handle::at(a), Handle::at(b), Handle::at(c)))
}

/// Handles for four positions, in argument order, with the error rule of
/// [`try_indices2`].
pub fn try_indices4<T>(collection: &Vec<T>, a: usize, b: usize, c: usize, d: usize) -> (r: Result<
    (Handle, Handle, Handle, Handle),
    TryIndicesError,
>)
    ensures
        match r {
            Ok(h) => {
                &&& (a as nat) < collection@.len() && (b as nat) < collection@.len() && (c as nat)
                    < collection@.len() && (d as nat) < collection@.len()
                &&& a != b && a != c && a != d && b != c && b != d && c != d
                &&& h.0.target() == a && h.1.target() == b && h.2.target() == c && h.3.target()
                    == d
            },
            Err(e) => {
                &&& (a as nat) >= collection@.len() || (b as nat) >= collection@.len() || (c as nat)
                    >= collection@.len() || (d as nat) >= collection@.len() || a == b || a == c || a
                    == d || b == c || b == d || c == d
                &&& e == if (a as nat) >= collection@.len() || (b as nat) >= collection@.len() || (
                c as nat) >= collection@.len() || (d as nat) >= collection@.len() {
                    TryIndicesError::IndexOutOfBounds
                } else {
                    TryIndicesError::DuplicateIndex
                }
            },
        },
{
    let n = collection.len();
    if a >= n || b >= n || c >= n || d >= n {
        return Err(TryIndicesError::IndexOutOfBounds);
    }
    if a == b || a == c || a == d || b == c || b == d || c == d {
        return Err(TryIndicesError::DuplicateIndex);
    }
    Ok((Handle::at(a), Handle::at(b), Handle::at(c), Handle::at(d)))
}

/// Handles for five positions, in argument order, with the error rule of
/// [`try_indices2`].
pub fn try_indices5<T>(
    collection: &Vec<T>,
    a: usize,
    b: usize,
    c: usize,
    d: usize,
    e: usize,
) -> (r: Result<(Handle, Handle, Handle, Handle, Handle), TryIndicesError>)
    ensures
        match r {
            Ok(h) => {
                &&& (a as nat) < collection@.len() && (b as nat) < collection@.len() && (c as nat)
                    < collection@.len() && (d as nat) < collection@.len() && (e as nat)
                    < collection@.len()
                &&& a != b && a != c && a != d && a != e && b != c && b != d && b != e && c != d
                    && c != e && d != e
                &&& h.0.target() == a && h.1.target() == b && h.2.target() == c && h.3.target()
                    == d && h.4.target() == e
            },
            Err(err) => {
                &&& (a as nat) >= collection@.len() || (b as nat) >= collection@.len() || (c as nat)
                    >= collection@.len() || (d as nat) >= collection@.len() || (e as nat)
                    >= collection@.len() || a == b || a == c || a == d || a == e || b == c || b == d
                    || b == e || c == d || c == e || d == e
                &&& err == if (a as nat) >= collection@.len() || (b as nat) >= collection@.len()
                    || (c as nat) >= collection@.len() || (d as nat) >= collection@.len() || (
                e as nat) >= collection@.len() {
                    TryIndicesError::IndexOutOfBounds
                } else {
                    TryIndicesError::DuplicateIndex
                }
            },
        },
{
    let n = collection.len();
    if a >= n || b >= n || c >= n || d >= n || e >= n {
        return Err(TryIndicesError::IndexOutOfBounds);
    }
    if a == b || a == c || a == d || a == e || b == c || b == d || b == e || c == d || c == e || d
        == e {
        return Err(TryIndicesError::DuplicateIndex);
    }
    Ok((Handle::at(a), Handle::at(b), Handle::at(c), Handle::at(d), Handle::at(e)))
}

/// Ordered-mode form of [`indices1`]: a single position is trivially ordered.
pub fn indices_ordered1<T>(collection: &Vec<T>, a: usize) -> (r: Handle)
    requires
        (a as nat) < collection@.len(),
    ensures
        r.target() == a,
{
    Handle::at(a)
}

/// Handles for two strictly increasing in-bounds positions.
pub fn indices_ordered2<T>(collection: &Vec<T>, a: usize, b: usize) -> (r: (Handle, Handle))
    requires
        a < b,
        (b as nat) < collection@.len(),
    ensures
        r.0.target() == a,
        r.1.target() == b,
{
    (Handle::at(a), Handle::at(b))
}

/// Handles for three strictly increasing in-bounds positions.
pub fn indices_ordered3<T>(collection: &Vec<T>, a: usize, b: usize, c: usize) -> (r: (
    Handle,
    Handle,
    Handle,
))
    requires
        a < b < c,
        (c as nat) < collection@.len(),
    ensures
        r.0.target() == a,
        r.1.target() == b,
        r.2.target() == c,
{
    (Handle::at(a), Handle::at(b), Handle::at(c))
}

/// Handles for four strictly increasing in-bounds positions.
pub fn indices_ordered4<T>(collection: &Vec<T>, a: usize, b: usize, c: usize, d: usize) -> (r: (
    Handle,
    Handle,
    Handle,
    Handle,
))
    requires
        a < b < c < d,
        (d as nat) < collection@.len(),
    ensures
        r.0.target() == a,
        r.1.target() == b,
        r.2.target() == c,
        r.3.target() == d,
{
    (Handle::at(a), Handle::at(b), Handle::at(c), Handle::at(d))
}

/// Handles for five strictly increasing in-bounds positions.
pub fn indices_ordered5<T>(
    collection: &Vec<T>,
    a: usize,
    b: usize,
    c: usize,
    d: usize,
    e: usize,
) -> (r: (Handle, Handle, Handle, Handle, Handle))
    requires
        a < b < c < d < e,
        (e as nat) < collection@.len(),
    ensures
        r.0.target() == a,
        r.1.target() == b,
        r.2.target() == c,
        r.3.target() == d,
        r.4.target() == e,
{
    (Handle::at(a), Handle::at(b), Handle::at(c), Handle::at(d), Handle::at(e))
}

/// Ordered-mode form of [`try_indices1`].
pub fn try_indices_ordered1<T>(collection: &Vec<T>, a: usize) -> (r: Result<
    Handle,
    TryIndicesOrderedError,
>)
    ensures
        match r {
            Ok(h) => (a as nat) < collection@.len() && h.target() == a,
            Err(e) => (a as nat) >= collection@.len() && e
                == TryIndicesOrderedError::IndexOutOfBounds,
        },
{
    if a >= collection.len() {
        return Err(TryIndicesOrderedError::IndexOutOfBounds);
    }
    Ok(Handle::at(a))
}

/// Handles for two positions that must arrive strictly increasing:
/// `InvalidIndex` when they do not, `IndexOutOfBounds` when they do but one
/// reaches past the collection.
pub fn try_indices_ordered2<T>(collection: &Vec<T>, a: usize, b: usize) -> (r: Result<
    (Handle, Handle),
    TryIndicesOrderedError,
>)
    ensures
        match r {
            Ok(h) => {
                &&& a < b && (b as nat) < collection@.len()
                &&& h.0.target() == a && h.1.target() == b
            },
            Err(e) => {
                &&& !(a < b) || (b as nat) >= collection@.len()
                &&& e == if !(a < b) {
                    TryIndicesOrderedError::InvalidIndex
                } else {
                    TryIndicesOrderedError::IndexOutOfBounds
                }
            },
        },
{
    if a >= b {
        return Err(TryIndicesOrderedError::InvalidIndex);
    }
    if b >= collection.len() {
        return Err(TryIndicesOrderedError::IndexOutOfBounds);
    }
    Ok((Handle::at(a), Handle::at(b)))
}

/// Handles for three positions that must arrive strictly increasing, with the
/// error rule of [`try_indices_ordered2`].
pub fn try_indices_ordered3<T>(collection: &Vec<T>, a: usize, b: usize, c: usize) -> (r: Result<
    (Handle, Handle, Handle),
    TryIndicesOrderedError,
>)
    ensures
        match r {
            Ok(h) => {
                &&& a < b < c && (c as nat) < collection@.len()
                &&& h.0.target() == a && h.1.target() == b && h.2.target() == c
            },
            Err(e) => {
                &&& !(a < b < c) || (c as nat) >= collection@.len()
                &&& e == if !(a < b < c) {
                    TryIndicesOrderedError::InvalidIndex
                } else {
                    TryIndicesOrderedError::IndexOutOfBounds
                }
            },
        },
{
    if a >= b || b >= c {
        return Err(TryIndicesOrderedError::InvalidIndex);
    }
    if c >= collection.len() {
        return Err(TryIndicesOrderedError::IndexOutOfBounds);
    }
    Ok((Handle::at(a), Handle::at(b), Handle::at(c)))
}

/// Handles for four positions that must arrive strictly increasing, with the
/// error rule of [`try_indices_ordered2`].
pub fn try_indices_ordered4<T>(
    collection: &Vec<T>,
    a: usize,
    b: usize,
    c: usize,
    d: usize,
) -> (r: Result<(Handle, Handle, Handle, Handle), TryIndicesOrderedError>)
    ensures
        match r {
            Ok(h) => {
                &&& a < b < c < d && (d as nat) < collection@.len()
                &&& h.0.target() == a && h.1.target() == b && h.2.target() == c && h.3.target()
                    == d
            },
            Err(e) => {
                &&& !(a < b < c < d) || (d as nat) >= collection@.len()
                &&& e == if !(a < b < c < d) {
                    TryIndicesOrderedError::InvalidIndex
                } else {
                    TryIndicesOrderedError::IndexOutOfBounds
                }
            },
        },
{
    if a >= b || b >= c || c >= d {
        return Err(TryIndicesOrderedError::InvalidIndex);
    }
    if d >= collection.len() {
        return Err(TryIndicesOrderedError::IndexOutOfBounds);
    }
    Ok((Handle::at(a), Handle::at(b), Handle::at(c), Handle::at(d)))
}

/// Handles for five positions that must arrive strictly increasing, with the
/// error rule of [`try_indices_ordered2`].
pub fn try_indices_ordered5<T>(
    collection: &Vec<T>,
    a: usize,
    b: usize,
    c: usize,
    d: usize,
    e: usize,
) -> (r: Result<(Handle, Handle, Handle, Handle, Handle), TryIndicesOrderedError>)
    ensures
        match r {
            Ok(h) => {
                &&& a < b < c < d < e && (e as nat) < collection@.len()
                &&& h.0.target() == a && h.1.target() == b && h.2.target() == c && h.3.target()
                    == d && h.4.target() == e
            },
            Err(err) => {
                &&& !(a < b < c < d < e) || (e as nat) >= collection@.len()
                &&& err == if !(a < b < c < d < e) {
                    TryIndicesOrderedError::InvalidIndex
                } else {
                    TryIndicesOrderedError::IndexOutOfBounds
                }
            },
        },
{
    if a >= b || b >= c || c >= d || d >= e {
        return Err(TryIndicesOrderedError::InvalidIndex);
    }
    if e >= collection.len() {
        return Err(TryIndicesOrderedError::IndexOutOfBounds);
    }
    Ok((Handle::at(a), Handle::at(b), Handle::at(c), Handle::at(d), Handle::at(e)))
}

} // verus!
