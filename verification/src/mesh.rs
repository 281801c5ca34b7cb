//! Indexed triangle meshes of the links, as flat buffers with a shape.

use vstd::prelude::*;

verus! {

/// The rows of a three-column table laid end to end: entry `i` of the
/// result is column `i % 3` of row `i / 3`.
pub open spec fn flattened<T>(rows: Seq<[T; 3]>) -> Seq<T> {
    Seq::new(3 * rows.len(), |i: int| rows[i / 3]@[i % 3])
}

/// Every index of a face buffer refers to one of `vertex_count` vertices.
pub open spec fn indices_in_range(faces: Seq<u32>, vertex_count: int) -> bool {
    forall|i: int| 0 <= i < faces.len() ==> (#[trigger] faces[i]) < vertex_count
}

/// A pair of flat buffers is an indexed triangle mesh when both lengths are
/// multiples of three and every face index refers to a vertex.
pub open spec fn is_triangle_mesh(vertices: Seq<u64>, faces: Seq<u32>) -> bool {
    &&& vertices.len() % 3 == 0
    &&& faces.len() % 3 == 0
    &&& indices_in_range(faces, vertices.len() as int / 3)
}

/// Lays the rows of a three-column table end to end.
pub fn flatten<T: Copy>(rows: &Vec<[T; 3]>) -> (flat: Vec<T>)
    ensures
        flat@ == flattened(rows@),
{
    let mut flat: Vec<T> = Vec::new();
    let mut r: usize = 0;
    while r < rows.len()
        invariant
            r <= rows.len(),
            flat@.len() == 3 * r,
            forall|i: int| 0 <= i < 3 * r ==> #[trigger] flat@[i] == rows@[i / 3]@[i % 3],
        decreases rows.len() - r,
    {
        let row = rows[r];
        flat.push(row[0]);
        flat.push(row[1]);
        flat.push(row[2]);
        r += 1;
    }
    assert(flat@ =~= flattened(rows@));
    flat
}

/// Decides whether every index of a face buffer refers to one of
/// `vertex_count` vertices.
pub fn check_indices(faces: &Vec<u32>, vertex_count: usize) -> (ok: bool)
    ensures
        ok == indices_in_range(faces@, vertex_count as int),
{
    let mut i: usize = 0;
    while i < faces.len()
        invariant
            i <= faces.len(),
            forall|k: int| 0 <= k < i ==> (#[trigger] faces@[k]) < vertex_count,
        decreases faces.len() - i,
    {
        if faces[i] as usize >= vertex_count {
            return false;
        }
        i += 1;
    }
    true
}

/// The surface of one link in the link's own frame: a vertex buffer of
/// `n` points, three binary64 bit patterns each, and a face buffer of `m`
/// triangles, three vertex indices each. Every index refers to a vertex of
/// the same mesh.
#[derive(Debug)]
pub struct LinkMesh {
    vertices: Vec<u64>,
    faces: Vec<u32>,
}

impl LinkMesh {
    #[verifier::type_invariant]
    closed spec fn well_formed(self) -> bool {
        is_triangle_mesh(self.vertices@, self.faces@)
    }

    /// The flat vertex buffer: x, y, z of each point in turn.
    pub closed spec fn vertex_buffer(self) -> Seq<u64> {
        self.vertices@
    }

    /// The flat face buffer: the three vertex indices of each triangle in
    /// turn.
    pub closed spec fn face_buffer(self) -> Seq<u32> {
        self.faces@
    }

    /// Builds a mesh from points and triangles. Succeeds exactly when every
    /// index of every triangle refers to one of the points; the buffers of
    /// the mesh are then the points and the triangles laid end to end.
    pub fn from_triples(points: &Vec<[u64; 3]>, triangles: &Vec<[u32; 3]>) -> (built: Option<
        LinkMesh,
    >)
        ensures
            match built {
                Some(mesh) => {
                    &&& indices_in_range(flattened(triangles@), points.len() as int)
                    &&& mesh.vertex_buffer() == flattened(points@)
                    &&& mesh.face_buffer() == flattened(triangles@)
                },
                None => !indices_in_range(flattened(triangles@), points.len() as int),
            },
    {
        let faces = flatten(triangles);
        if !check_indices(&faces, points.len()) {
            return None;
        }
        let vertices = flatten(points);
        Some(LinkMesh { vertices, faces })
    }

    /// Takes a pair of flat buffers as a mesh. Succeeds exactly when they
    /// form an indexed triangle mesh, and then keeps both unchanged.
    pub fn from_buffers(vertices: Vec<u64>, faces: Vec<u32>) -> (built: Option<LinkMesh>)
        ensures
            match built {
                Some(mesh) => {
                    &&& is_triangle_mesh(vertices@, faces@)
                    &&& mesh.vertex_buffer() == vertices@
                    &&& mesh.face_buffer() == faces@
                },
                None => !is_triangle_mesh(vertices@, faces@),
            },
    {
        if vertices.len() % 3 != 0 || faces.len() % 3 != 0 {
            return None;
        }
        if !check_indices(&faces, vertices.len() / 3) {
            return None;
        }
        Some(LinkMesh { vertices, faces })
    }

    /// The number of points.
    pub fn vertex_count(&self) -> (n: usize)
        ensures
            3 * n == self.vertex_buffer().len(),
    {
        proof {
            use_type_invariant(self);
        }
        self.vertices.len() / 3
    }

    /// The number of triangles.
    pub fn face_count(&self) -> (m: usize)
        ensures
            3 * m == self.face_buffer().len(),
    {
        proof {
            use_type_invariant(self);
        }
        self.faces.len() / 3
    }

    /// The declared shape of the vertex buffer: rows, then columns.
    pub fn vertex_shape(&self) -> (shape: (usize, usize))
        ensures
            shape.1 == 3,
            shape.0 * shape.1 == self.vertex_buffer().len(),
    {
        (self.vertex_count(), 3)
    }

    /// The declared shape of the face buffer: rows, then columns.
    pub fn face_shape(&self) -> (shape: (usize, usize))
        ensures
            shape.1 == 3,
            shape.0 * shape.1 == self.face_buffer().len(),
    {
        (self.face_count(), 3)
    }

    /// The flat vertex buffer. Its length is a multiple of three.
    pub fn vertices(&self) -> (buffer: &Vec<u64>)
        ensures
            buffer@ == self.vertex_buffer(),
            buffer@.len() % 3 == 0,
    {
        proof {
            use_type_invariant(self);
        }
        &self.vertices
    }

    /// The flat face buffer. Its length is a multiple of three, and every
    /// index in it refers to a vertex of this mesh.
    pub fn faces(&self) -> (buffer: &Vec<u32>)
        ensures
            buffer@ == self.face_buffer(),
            is_triangle_mesh(self.vertex_buffer(), buffer@),
    {
        proof {
            use_type_invariant(self);
        }
        &self.faces
    }

    /// The point at place `index`.
    pub fn vertex(&self, index: usize) -> (point: [u64; 3])
        requires
            3 * index < self.vertex_buffer().len(),
        ensures
            point@ == self.vertex_buffer().subrange(3 * index, 3 * index + 3),
    {
        proof {
            use_type_invariant(self);
        }
        let total: usize = self.vertices.len();
        assert(3 * index + 3 <= total);
        let base: usize = 3 * index;
        let point: [u64; 3] = [self.vertices[base], self.vertices[base + 1], self.vertices[base + 2]];
        assert(point@ =~= self.vertex_buffer().subrange(3 * index, 3 * index + 3));
        point
    }

    /// The triangle at place `index`. Each of its indices refers to a vertex
    /// of this mesh.
    pub fn face(&self, index: usize) -> (triangle: [u32; 3])
        requires
            3 * index < self.face_buffer().len(),
        ensures
            triangle@ == self.face_buffer().subrange(3 * index, 3 * index + 3),
            forall|k: int| 0 <= k < 3 ==> 3 * (#[trigger] triangle@[k]) < self.vertex_buffer().len(),
    {
        proof {
            use_type_invariant(self);
        }
        let total: usize = self.faces.len();
        assert(3 * index + 3 <= total);
        let base: usize = 3 * index;
        let triangle: [u32; 3] = [self.faces[base], self.faces[base + 1], self.faces[base + 2]];
        assert(triangle@ =~= self.face_buffer().subrange(3 * index, 3 * index + 3));
        triangle
    }
}

/// The table at place `i` has only indices that refer to its own points.
pub open spec fn table_is_mesh(tables: Seq<(Vec<[u64; 3]>, Vec<[u32; 3]>)>, i: int) -> bool {
    indices_in_range(flattened(tables[i].1@), tables[i].0@.len() as int)
}

/// The mesh at place `i` holds the table at place `i`, laid end to end.
pub open spec fn mesh_of_table(
    meshes: Seq<LinkMesh>,
    tables: Seq<(Vec<[u64; 3]>, Vec<[u32; 3]>)>,
    i: int,
) -> bool {
    &&& meshes[i].vertex_buffer() == flattened(tables[i].0@)
    &&& meshes[i].face_buffer() == flattened(tables[i].1@)
}

/// Builds the meshes of a robot from its tables of points and triangles,
/// one table per link, keeping the order of the links. Succeeds exactly
/// when every table has only indices that refer to its own points.
pub fn link_meshes(tables: &Vec<(Vec<[u64; 3]>, Vec<[u32; 3]>)>) -> (built: Option<Vec<LinkMesh>>)
    ensures
        match built {
            Some(meshes) => {
                &&& meshes@.len() == tables@.len()
                &&& forall|i: int| 0 <= i < tables@.len() ==> #[trigger] table_is_mesh(tables@, i)
                &&& forall|i: int|
                    0 <= i < tables@.len() ==> #[trigger] mesh_of_table(meshes@, tables@, i)
            },
            None => exists|i: int| 0 <= i < tables@.len() && !#[trigger] table_is_mesh(tables@, i),
        },
{
    let mut meshes: Vec<LinkMesh> = Vec::new();
    let mut link: usize = 0;
    while link < tables.len()
        invariant
            link <= tables.len(),
            meshes@.len() == link,
            forall|i: int| 0 <= i < link ==> #[trigger] table_is_mesh(tables@, i),
            forall|i: int| 0 <= i < link ==> #[trigger] mesh_of_table(meshes@, tables@, i),
        decreases tables.len() - link,
    {
        let table = &tables[link];
        match LinkMesh::from_triples(&table.0, &table.1) {
            Some(mesh) => {
                let ghost before = meshes@;
                meshes.push(mesh);
                assert forall|i: int| 0 <= i < link + 1 implies #[trigger] mesh_of_table(
                    meshes@,
                    tables@,
                    i,
                ) by {
                    if i < link {
                        assert(mesh_of_table(before, tables@, i));
                        assert(meshes@[i] == before[i]);
                    }
                }
                assert(table_is_mesh(tables@, link as int));
            },
            None => {
                assert(!table_is_mesh(tables@, link as int));
                return None;
            },
        }
        link += 1;
    }
    Some(meshes)
}

/// The meshes of a robot are determined by its tables: two lists of meshes
/// built from the same tables hold the same buffers, link by link.
pub proof fn lemma_meshes_determined(
    first: Seq<LinkMesh>,
    second: Seq<LinkMesh>,
    tables: Seq<(Vec<[u64; 3]>, Vec<[u32; 3]>)>,
)
    requires
        first.len() == tables.len(),
        second.len() == tables.len(),
        forall|i: int| 0 <= i < tables.len() ==> #[trigger] mesh_of_table(first, tables, i),
        forall|i: int| 0 <= i < tables.len() ==> #[trigger] mesh_of_table(second, tables, i),
    ensures
        forall|i: int|
            0 <= i < tables.len() ==> (#[trigger] first[i]).vertex_buffer()
                == second[i].vertex_buffer() && first[i].face_buffer() == second[i].face_buffer(),
{
    assert forall|i: int| 0 <= i < tables.len() implies (#[trigger] first[i]).vertex_buffer()
        == second[i].vertex_buffer() && first[i].face_buffer() == second[i].face_buffer() by {
        assert(mesh_of_table(first, tables, i));
        assert(mesh_of_table(second, tables, i));
    }
}

} // verus!
