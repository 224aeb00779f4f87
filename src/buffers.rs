use vstd::prelude::*;

verus! {

/// Number of bytes that `count` elements of `elem_size` bytes each occupy
/// in a tightly packed buffer.
pub open spec fn packed_bytes(count: nat, elem_size: nat) -> nat {
    count * elem_size
}

/// Size in bytes of a buffer upload of `count` elements of `elem_size` bytes,
/// as the signed size that graphics drivers take; `None` when the size does not
/// fit in an `isize`.
pub fn upload_size(count: usize, elem_size: usize) -> (r: Option<isize>)
    ensures
        r.is_some() <==> packed_bytes(count as nat, elem_size as nat) <= isize::MAX,
        r.is_some() ==> r.unwrap() as nat == packed_bytes(count as nat, elem_size as nat),
{
    match count_bytes(count, elem_size) {
        Some(n) => {
            if n <= isize::MAX as usize {
                Some(n as isize)
            } else {
                None
            }
        },
        None => None,
    }
}

/// Positions given as `(x, y, z)` triples, laid out as one flat run of
/// components, three per vertex.
pub open spec fn flat_positions<T>(v: Seq<(T, T, T)>) -> Seq<T> {
    Seq::new(3 * v.len(), |k: int| {
        let p = v[k / 3];
        if k % 3 == 0 { p.0 } else if k % 3 == 1 { p.1 } else { p.2 }
    })
}

/// Lays out vertex positions as the flat component array a vertex buffer
/// holds.
pub fn flatten_positions<T: Copy>(v: &Vec<(T, T, T)>) -> (r: Vec<T>)
    requires
        3 * v@.len() <= usize::MAX,
    ensures
        r@ == flat_positions(v@),
{
    let mut r: Vec<T> = Vec::new();
    let mut i: usize = 0;
    while i < v.len()
        invariant
            i <= v@.len(),
            3 * v@.len() <= usize::MAX,
            r@.len() == 3 * i,
            forall|k: int| 0 <= k < 3 * i ==> r@[k] == #[trigger] flat_positions(v@)[k],
        decreases v.len() - i,
    {
        let p = v[i];
        r.push(p.0);
        r.push(p.1);
        r.push(p.2);
        proof {
            assert forall|k: int| 3 * i <= k < 3 * i + 3 implies r@[k] == #[trigger] flat_positions(v@)[k] by {
                assert(k / 3 == i as int && k % 3 == k - 3 * i) by (nonlinear_arith)
                    requires 3 * i <= k < 3 * i + 3;
            }
        }
        i = i + 1;
    }
    assert(r@ =~= flat_positions(v@));
    r
}

/// The stride between consecutive vertices of `components` elements of
/// `elem_size` bytes, as the signed size that vertex attribute calls take;
/// `None` when it does not fit in an `i32`.
pub fn vertex_stride(components: usize, elem_size: usize) -> (r: Option<i32>)
    ensures
        r.is_some() <==> packed_bytes(components as nat, elem_size as nat) <= i32::MAX,
        r.is_some() ==> r.unwrap() as nat == packed_bytes(components as nat, elem_size as nat),
{
    match count_bytes(components, elem_size) {
        Some(n) => {
            if n <= i32::MAX as usize {
                Some(n as i32)
            } else {
                None
            }
        },
        None => None,
    }
}

/// The product of `count` and `elem_size`, when it fits in a `usize`.
fn count_bytes(count: usize, elem_size: usize) -> (r: Option<usize>)
    ensures
        r.is_some() <==> packed_bytes(count as nat, elem_size as nat) <= usize::MAX,
        r.is_some() ==> r.unwrap() as nat == packed_bytes(count as nat, elem_size as nat),
{
    match count.checked_mul(elem_size) {
        Some(n) => Some(n),
        None => {
            assert(count * elem_size > usize::MAX) by (nonlinear_arith)
                requires count * elem_size > usize::MAX;
            None
        },
    }
}

/// The bytes uploaded for a list of vertex positions are the number of
/// flattened components times the size of one component, that is three
/// components per vertex.
pub proof fn lemma_position_upload_size<T>(v: Seq<(T, T, T)>, elem_size: nat)
    ensures
        flat_positions(v).len() == 3 * v.len(),
        packed_bytes(flat_positions(v).len(), elem_size) == 3 * v.len() * elem_size,
{
    assert(3 * v.len() * elem_size == (3 * v.len()) * elem_size);
}

} // verus!
