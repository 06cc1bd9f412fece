use vstd::prelude::*;

verus! {

/// The directed edges of a triangle list, three per face in face order: the
/// edge from corner `k` to corner `k + 1` (mod 3) of face `f` stands at `3f + k`.
pub open spec fn directed_edges(faces: Seq<[usize; 3]>) -> Seq<(usize, usize)> {
    Seq::new(
        (3 * faces.len()) as nat,
        |s: int| (faces[s / 3]@[s % 3], faces[s / 3]@[(s % 3 + 1) % 3]),
    )
}

/// No directed edge is used twice.
pub open spec fn edges_unique(e: Seq<(usize, usize)>) -> bool {
    forall|i: int, j: int| 0 <= i < j < e.len() ==> e[i] != e[j]
}

/// Every directed edge is met by its reverse.
pub open spec fn edges_paired(e: Seq<(usize, usize)>) -> bool {
    forall|i: int| 0 <= i < e.len() ==> e.contains((e[i].1, e[i].0))
}

/// A closed, consistently oriented triangle list: each directed edge occurs in
/// exactly one face and its reverse in exactly one face.
pub open spec fn is_closed_faces(faces: Seq<[usize; 3]>) -> bool {
    edges_unique(directed_edges(faces)) && edges_paired(directed_edges(faces))
}

/// In a closed triangle list each directed edge is met by its reverse in
/// exactly one place.
pub proof fn lemma_closed_reverse_once(faces: Seq<[usize; 3]>, i: int)
    requires
        is_closed_faces(faces),
        0 <= i < directed_edges(faces).len(),
    ensures
        ({
            let e = directed_edges(faces);
            exists|j: int|
                0 <= j < e.len() && e[j] == (e[i].1, e[i].0) && forall|k: int|
                    0 <= k < e.len() && #[trigger] e[k] == (e[i].1, e[i].0) ==> k == j
        }),
{
    let e = directed_edges(faces);
    assert(e.contains((e[i].1, e[i].0)));
    let j = choose|j: int| 0 <= j < e.len() && e[j] == (e[i].1, e[i].0);
    assert forall|k: int| 0 <= k < e.len() && #[trigger] e[k] == (e[i].1, e[i].0) implies k == j by {
        if k < j {
            assert(e[k] != e[j]);
        } else if j < k {
            assert(e[j] != e[k]);
        }
    }
}

/// Why a mesh is not closed.
#[derive(Debug, PartialEq)]
pub struct MeshError {
    msg: String,
}

/// Relies on `format!` to write the message for a directed edge used by two faces.
#[verifier::external_body]
fn shared_edge_message(first: usize, second: usize, from: usize, to: usize) -> String {
    format!("Both face #{} and face #{} share edge {}->{}.", first, second, from, to)
}

/// Relies on `format!` to write the message for an edge without a reverse.
#[verifier::external_body]
fn unmatched_edge_message(from: usize, to: usize, face: usize) -> String {
    format!("Unmachted edge {}->{} of face #{}.", from, to, face)
}

impl View for MeshError {
    type V = Seq<char>;

    /// The description of the error.
    closed spec fn view(&self) -> Seq<char> {
        self.msg@
    }
}

impl MeshError {
    /// The description of the error.
    pub fn message(&self) -> (r: String)
        ensures
            r@ == self@,
    {
        self.msg.clone()
    }

    /// The error as text: `"MeshError "` and the description.
    pub fn to_string(&self) -> (r: String)
        ensures
            r@ == "MeshError "@ + self@,
    {
        let mut r = String::new();
        r.append("MeshError ");
        r.append(self.msg.as_str());
        r
    }
}

/// A triangle mesh: vertex coordinates and faces as index triples.
#[derive(Clone, Debug, PartialEq)]
pub struct Mesh<S> {
    /// The list of vertices.
    pub vertices: Vec<[S; 3]>,
    /// The list of triangles as indexes into vertices.
    pub faces: Vec<[usize; 3]>,
}

impl<S> Mesh<S> {
    /// Returns whether or not the mesh is closed.
    pub fn is_closed(&self) -> (r: Result<(), MeshError>)
        requires
            3 * self.faces@.len() <= usize::MAX,
        ensures
            r is Ok <==> is_closed_faces(self.faces@),
    {
        let ghost e = directed_edges(self.faces@);
        let n = self.faces.len();
        assert(e.len() == 3 * n);
        let mut edges: Vec<(usize, usize)> = Vec::new();
        let mut f: usize = 0;
        while f < n
            invariant
                n == self.faces@.len(),
                3 * n <= usize::MAX,
                f <= n,
                e == directed_edges(self.faces@),
                e.len() == 3 * n,
                edges@.len() == 3 * f,
                edges@ == e.subrange(0, 3 * f as int),
                edges_unique(edges@),
            decreases n - f,
        {
            let face = self.faces[f];
            let mut k: usize = 0;
            while k < 3
                invariant
                    n == self.faces@.len(),
                    3 * n <= usize::MAX,
                    f < n,
                    k <= 3,
                    face == self.faces@[f as int],
                    e == directed_edges(self.faces@),
                    e.len() == 3 * n,
                    edges@.len() == 3 * f + k,
                    edges@ == e.subrange(0, 3 * f + k),
                    edges_unique(edges@),
                decreases 3 - k,
            {
                let edge = (face[k], face[(k + 1) % 3]);
                assert(edge == e[3 * f + k]) by {
                    assert((3 * f + k) / 3 == f as int && (3 * f + k) % 3 == k as int)
                        by (nonlinear_arith)
                        requires
                            k < 3,
                    ;
                }
                let mut t: usize = 0;
                while t < edges.len()
                    invariant
                        e == directed_edges(self.faces@),
                        f < n,
                        k < 3,
                        e.len() == 3 * n,
                        edges@.len() == 3 * f + k,
                        edges@ == e.subrange(0, 3 * f + k),
                        edge == e[3 * f + k],
                        t <= edges@.len(),
                        forall|u: int| 0 <= u < t ==> edges@[u] != edge,
                    decreases edges@.len() - t,
                {
                    if edges[t].0 == edge.0 && edges[t].1 == edge.1 {
                        assert(!edges_unique(e)) by {
                            assert(e[t as int] == e[3 * f + k]);
                        }
                        return Err(
                            MeshError { msg: shared_edge_message(t / 3, f, k, (k + 1) % 3) },
                        );
                    }
                    t += 1;
                }
                edges.push(edge);
                k += 1;
                assert(edges@ =~= e.subrange(0, 3 * f + k));
            }
            f += 1;
        }
        assert(edges@ =~= e);
        let m = edges.len();
        let mut s: usize = 0;
        while s < m
            invariant
                e == directed_edges(self.faces@),
                m == edges@.len(),
                edges@ == e,
                edges_unique(e),
                s <= m,
                forall|i: int| 0 <= i < s ==> e.contains((e[i].1, e[i].0)),
            decreases m - s,
        {
            let edge = edges[s];
            let mut t: usize = 0;
            let mut found = false;
            while t < m
                invariant
                    e == directed_edges(self.faces@),
                    m == edges@.len(),
                    edges@ == e,
                    s < m,
                    t <= m,
                    edge == e[s as int],
                    found ==> e.contains((edge.1, edge.0)),
                    !found ==> forall|u: int| 0 <= u < t ==> e[u] != (edge.1, edge.0),
                decreases m - t,
            {
                if edges[t].0 == edge.1 && edges[t].1 == edge.0 {
                    assert(e[t as int] == (edge.1, edge.0));
                    found = true;
                }
                t += 1;
            }
            if !found {
                assert(!edges_paired(e)) by {
                    assert(!e.contains((e[s as int].1, e[s as int].0)));
                }
                return Err(MeshError { msg: unmatched_edge_message(edge.0, edge.1, s / 3) });
            }
            s += 1;
        }
        Ok(())
    }
}

} // verus!
