use tessellation::Mesh;

fn tetrahedron() -> Mesh<f64> {
    Mesh {
        vertices: vec![
            [0., 0., 0.],
            [1., 0., 0.],
            [0., 1., 0.],
            [0., 0., 1.],
        ],
        faces: vec![[0, 2, 1], [0, 1, 3], [1, 2, 3], [0, 3, 2]],
    }
}

#[test]
fn closed_tetrahedron() {
    assert!(tetrahedron().is_closed().is_ok());
}

#[test]
fn empty_mesh_is_closed() {
    let m: Mesh<f64> = Mesh {
        vertices: vec![],
        faces: vec![],
    };
    assert_eq!(m.is_closed(), Ok(()));
}

#[test]
fn single_triangle_is_open() {
    let m = Mesh {
        vertices: vec![[0., 0., 0.], [1., 0., 0.], [0., 1., 0.]],
        faces: vec![[0, 1, 2]],
    };
    let e = m.is_closed().unwrap_err();
    assert_eq!(e.message(), "Unmachted edge 0->1 of face #0.");
    assert_eq!(e.to_string(), "MeshError Unmachted edge 0->1 of face #0.");
}

#[test]
fn missing_face_is_open() {
    let mut m = tetrahedron();
    m.faces.pop();
    assert!(m.is_closed().is_err());
}

#[test]
fn duplicated_face_shares_edges() {
    let mut m = tetrahedron();
    m.faces.push([0, 2, 1]);
    let e = m.is_closed().unwrap_err();
    assert_eq!(e.message(), "Both face #0 and face #4 share edge 0->1.");
}

#[test]
fn flipped_face_breaks_orientation() {
    let mut m = tetrahedron();
    m.faces[0] = [0, 1, 2];
    assert!(m.is_closed().is_err());
}

#[test]
fn two_sided_triangle_is_closed() {
    let m = Mesh {
        vertices: vec![[0., 0., 0.], [1., 0., 0.], [0., 1., 0.]],
        faces: vec![[0, 1, 2], [0, 2, 1]],
    };
    assert!(m.is_closed().is_ok());
}
