//! Reading triangle meshes from the text of Wavefront OBJ files.
//!
//! A line `v x y z` gives a position, `vt u v w` a texture coordinate,
//! `vn x y z` a normal, and `f a/b/c d/e/f g/h/i` a triangle whose corners
//! name, counting from one, a position, a texture coordinate and a normal
//! each. A line of the first three kinds whose numbers cannot be read is
//! passed over, and so is every other line but a line `f`.

use vstd::prelude::*;
use vstd::slice::slice_subrange;
use crate::decimal::{
    read_digits,
    read_triple,
    spec_read_digits,
    spec_read_triple,
    spec_whites_end,
    whites_end,
    Digits,
};
use crate::types::{ObjFace, Vec3Df};

verus! {

/// Why the text of a mesh could not be read.
#[derive(Clone, Copy, Debug, PartialEq, Eq, Structural)]
pub enum ObjError {
    /// The line with this number, counting from one, starts with `f` but
    /// does not name three corners that the lines before it have given.
    Face { line: usize },
}

/// The number that one run of digits at `i` gives, with the position after
/// it: nothing where no digit stands at `i`, or where the number has more
/// digits than are read or does not fit an index.
pub open spec fn spec_read_index(s: Seq<u8>, i: int) -> Option<(usize, usize)> {
    let digits = spec_read_digits(s, i, 0, 0);
    if digits.end == i || digits.taken != digits.end - i || digits.value > usize::MAX {
        None
    } else {
        Some((digits.value as usize, digits.end))
    }
}

/// Reads the number that one run of digits at `i` gives.
pub fn read_index(s: &[u8], i: usize) -> (r: Option<(usize, usize)>)
    requires
        i <= s.len(),
    ensures
        r == spec_read_index(s@, i as int),
        r matches Some(found) ==> i < found.1 <= s.len(),
{
    let digits: Digits = read_digits(s, i, 0, 0);
    if digits.end == i || digits.taken != digits.end - i || digits.value > usize::MAX as u64 {
        None
    } else {
        Some((digits.value as usize, digits.end))
    }
}

/// The numbers that follow, each after a slash, the list `so_far` that
/// ends at `p`; with the position after the last of them.
pub open spec fn spec_list_tail(s: Seq<u8>, p: int, so_far: Seq<usize>) -> (Seq<usize>, int)
    decreases s.len() - p,
{
    if 0 <= p < s.len() && s[p] == 47 {
        match spec_read_index(s, p + 1) {
            Some(found) => if p < found.1 <= s.len() {
                spec_list_tail(s, found.1 as int, so_far.push(found.0))
            } else {
                (so_far, p)
            },
            None => (so_far, p),
        }
    } else {
        (so_far, p)
    }
}

/// The list of numbers with slashes between them that starts at `i`, with
/// the position after it. The list is empty where no number stands at `i`.
pub open spec fn spec_read_list(s: Seq<u8>, i: int) -> (Seq<usize>, int) {
    match spec_read_index(s, i) {
        Some(found) => spec_list_tail(s, found.1 as int, seq![found.0]),
        None => (Seq::empty(), i),
    }
}

/// Reads the list of numbers with slashes between them that starts at
/// `i`.
pub fn read_list(s: &[u8], i: usize) -> (r: (Vec<usize>, usize))
    requires
        i <= s.len(),
    ensures
        (r.0@, r.1 as int) == spec_read_list(s@, i as int),
        i <= r.1 <= s.len(),
{
    let mut list: Vec<usize> = Vec::new();
    let mut p: usize = i;
    match read_index(s, i) {
        Some(found) => {
            list.push(found.0);
            p = found.1;
        },
        None => {
            return (list, i);
        },
    }
    assert(list@ =~= seq![spec_read_index(s@, i as int)->Some_0.0]);
    let mut more: bool = true;
    while more
        invariant
            i <= p <= s.len(),
            more ==> spec_list_tail(s@, p as int, list@) == spec_read_list(s@, i as int),
            !more ==> (list@, p as int) == spec_read_list(s@, i as int),
        decreases s.len() - p + (if more { 1int } else { 0int }),
    {
        if p < s.len() && s[p] == 47 {
            match read_index(s, p + 1) {
                Some(found) => {
                    list.push(found.0);
                    p = found.1;
                },
                None => {
                    more = false;
                },
            }
        } else {
            more = false;
        }
    }
    (list, p)
}

/// What the three lists of a corner-naming line give for one corner: the
/// places, counting from zero, of its position, its texture coordinate and
/// its normal. Nothing where the list names fewer than three things, or one
/// that has not been given.
pub open spec fn spec_corner(
    list: Seq<usize>,
    vertices: int,
    textures: int,
    normals: int,
) -> Option<(usize, usize, usize)> {
    if list.len() >= 3 && 1 <= list[0] <= vertices && 1 <= list[1] <= textures && 1 <= list[2]
        <= normals {
        Some(((list[0] - 1) as usize, (list[1] - 1) as usize, (list[2] - 1) as usize))
    } else {
        None
    }
}

/// Finds what a list names for one corner.
pub fn corner(list: &Vec<usize>, vertices: usize, textures: usize, normals: usize) -> (r: Option<
    (usize, usize, usize),
>)
    ensures
        r == spec_corner(list@, vertices as int, textures as int, normals as int),
{
    if list.len() >= 3 && 1 <= list[0] && list[0] <= vertices && 1 <= list[1] && list[1]
        <= textures && 1 <= list[2] && list[2] <= normals {
        Some((list[0] - 1, list[1] - 1, list[2] - 1))
    } else {
        None
    }
}

/// The triangle that a line `f` names, among what has been given so far.
pub open spec fn spec_read_face(
    line: Seq<u8>,
    vertices: Seq<Vec3Df>,
    textures: Seq<Vec3Df>,
    normals: Seq<Vec3Df>,
) -> Option<ObjFace> {
    let first = spec_read_list(line, spec_whites_end(line, 1));
    let second = spec_read_list(line, spec_whites_end(line, first.1));
    let third = spec_read_list(line, spec_whites_end(line, second.1));
    let a = spec_corner(first.0, vertices.len() as int, textures.len() as int, normals.len() as int);
    let b = spec_corner(
        second.0,
        vertices.len() as int,
        textures.len() as int,
        normals.len() as int,
    );
    let c = spec_corner(third.0, vertices.len() as int, textures.len() as int, normals.len() as int);
    if a is Some && b is Some && c is Some {
        Some(
            ObjFace {
                vertices: [
                    vertices[a->Some_0.0 as int],
                    vertices[b->Some_0.0 as int],
                    vertices[c->Some_0.0 as int],
                ],
                texture_vertices: [
                    textures[a->Some_0.1 as int],
                    textures[b->Some_0.1 as int],
                    textures[c->Some_0.1 as int],
                ],
                normals: [
                    normals[a->Some_0.2 as int],
                    normals[b->Some_0.2 as int],
                    normals[c->Some_0.2 as int],
                ],
            },
        )
    } else {
        None
    }
}

/// Reads the triangle that a line `f` names.
pub fn read_face(
    line: &[u8],
    vertices: &Vec<Vec3Df>,
    textures: &Vec<Vec3Df>,
    normals: &Vec<Vec3Df>,
) -> (r: Option<ObjFace>)
    requires
        line@.len() >= 1,
    ensures
        r == spec_read_face(line@, vertices@, textures@, normals@),
{
    let first = read_list(line, whites_end(line, 1));
    let second = read_list(line, whites_end(line, first.1));
    let third = read_list(line, whites_end(line, second.1));
    let a = corner(&first.0, vertices.len(), textures.len(), normals.len());
    let b = corner(&second.0, vertices.len(), textures.len(), normals.len());
    let c = corner(&third.0, vertices.len(), textures.len(), normals.len());
    match (a, b, c) {
        (Some(a), Some(b), Some(c)) => Some(
            ObjFace {
                vertices: [vertices[a.0], vertices[b.0], vertices[c.0]],
                texture_vertices: [textures[a.1], textures[b.1], textures[c.1]],
                normals: [normals[a.2], normals[b.2], normals[c.2]],
            },
        ),
        _ => None,
    }
}

/// The line feed that ends the line which starts at `i`, or the end of
/// the text.
pub open spec fn spec_line_end(s: Seq<u8>, i: int) -> int
    decreases s.len() - i,
{
    if 0 <= i < s.len() && s[i] != 10 {
        spec_line_end(s, i + 1)
    } else {
        i
    }
}

/// Finds the end of the line that starts at `i`.
pub fn line_end(s: &[u8], i: usize) -> (j: usize)
    requires
        i <= s.len(),
    ensures
        j == spec_line_end(s@, i as int),
        i <= j <= s.len(),
{
    let mut j: usize = i;
    while j < s.len() && s[j] != 10
        invariant
            i <= j <= s.len(),
            spec_line_end(s@, j as int) == spec_line_end(s@, i as int),
        decreases s.len() - j,
    {
        j = j + 1;
    }
    j
}

/// What a line gives.
#[derive(Clone, Copy, Debug, PartialEq, Eq, Structural)]
pub enum LineKind {
    /// `v `: a position.
    Vertex,
    /// `vt `: a texture coordinate.
    Texture,
    /// `vn `: a normal.
    Normal,
    /// `f `: a triangle.
    Face,
    /// Anything else.
    Other,
}

/// The kind of a line, by how it starts.
pub open spec fn spec_line_kind(line: Seq<u8>) -> LineKind {
    if line.len() >= 2 && line[0] == 118 && line[1] == 32 {
        LineKind::Vertex
    } else if line.len() >= 3 && line[0] == 118 && line[1] == 116 && line[2] == 32 {
        LineKind::Texture
    } else if line.len() >= 3 && line[0] == 118 && line[1] == 110 && line[2] == 32 {
        LineKind::Normal
    } else if line.len() >= 2 && line[0] == 102 && line[1] == 32 {
        LineKind::Face
    } else {
        LineKind::Other
    }
}

/// Tells the kind of a line.
pub fn line_kind(line: &[u8]) -> (k: LineKind)
    ensures
        k == spec_line_kind(line@),
{
    if line.len() >= 2 && line[0] == 118 && line[1] == 32 {
        LineKind::Vertex
    } else if line.len() >= 3 && line[0] == 118 && line[1] == 116 && line[2] == 32 {
        LineKind::Texture
    } else if line.len() >= 3 && line[0] == 118 && line[1] == 110 && line[2] == 32 {
        LineKind::Normal
    } else if line.len() >= 2 && line[0] == 102 && line[1] == 32 {
        LineKind::Face
    } else {
        LineKind::Other
    }
}

/// The list with the three numbers appended as one vector, where they
/// could be read.
pub open spec fn with_triple(list: Seq<Vec3Df>, line: Seq<u8>, from: int) -> Seq<Vec3Df> {
    match spec_read_triple(line, from) {
        Some(t) => list.push(Vec3Df { x: t.0, y: t.1, z: t.2 }),
        None => list,
    }
}

/// The triangles of the text from the line that starts at `i` on, after
/// `faces`, given what the lines before it have given. `line` counts the
/// lines from one.
pub open spec fn spec_parse_from(
    s: Seq<u8>,
    i: int,
    line: usize,
    vertices: Seq<Vec3Df>,
    textures: Seq<Vec3Df>,
    normals: Seq<Vec3Df>,
    faces: Seq<ObjFace>,
) -> Result<Seq<ObjFace>, ObjError>
    decreases s.len() + 1 - i,
{
    if i < 0 || i >= s.len() {
        Ok(faces)
    } else {
        let end = spec_line_end(s, i);
        if end < i || end > s.len() {
            Ok(faces)
        } else {
            let text = s.subrange(i, end);
            let next = (if line < usize::MAX { line + 1 } else { line as int }) as usize;
            match spec_line_kind(text) {
                LineKind::Vertex => spec_parse_from(
                    s,
                    end + 1,
                    next,
                    with_triple(vertices, text, 1),
                    textures,
                    normals,
                    faces,
                ),
                LineKind::Texture => spec_parse_from(
                    s,
                    end + 1,
                    next,
                    vertices,
                    with_triple(textures, text, 2),
                    normals,
                    faces,
                ),
                LineKind::Normal => spec_parse_from(
                    s,
                    end + 1,
                    next,
                    vertices,
                    textures,
                    with_triple(normals, text, 2),
                    faces,
                ),
                LineKind::Face => match spec_read_face(text, vertices, textures, normals) {
                    Some(face) => spec_parse_from(
                        s,
                        end + 1,
                        next,
                        vertices,
                        textures,
                        normals,
                        faces.push(face),
                    ),
                    None => Err(ObjError::Face { line }),
                },
                LineKind::Other => spec_parse_from(
                    s,
                    end + 1,
                    next,
                    vertices,
                    textures,
                    normals,
                    faces,
                ),
            }
        }
    }
}

/// Past the end of the text no line is left.
pub proof fn lemma_parse_past_end(
    s: Seq<u8>,
    i: int,
    line: usize,
    vertices: Seq<Vec3Df>,
    textures: Seq<Vec3Df>,
    normals: Seq<Vec3Df>,
    faces: Seq<ObjFace>,
)
    requires
        i >= s.len(),
    ensures
        spec_parse_from(s, i, line, vertices, textures, normals, faces) == Ok::<
            Seq<ObjFace>,
            ObjError,
        >(faces),
{
}

/// The triangles that the text of an OBJ file describes, in the order of
/// the file.
pub open spec fn spec_parse_obj(s: Seq<u8>) -> Result<Seq<ObjFace>, ObjError> {
    spec_parse_from(s, 0, 1, Seq::empty(), Seq::empty(), Seq::empty(), Seq::empty())
}

/// Reads the triangles of the text of an OBJ file.
pub fn parse_obj(contents: &[u8]) -> (r: Result<Vec<ObjFace>, ObjError>)
    ensures
        match r {
            Ok(faces) => spec_parse_obj(contents@) == Ok::<Seq<ObjFace>, ObjError>(faces@),
            Err(e) => spec_parse_obj(contents@) == Err::<Seq<ObjFace>, ObjError>(e),
        },
{
    let mut vertices: Vec<Vec3Df> = Vec::new();
    let mut textures: Vec<Vec3Df> = Vec::new();
    let mut normals: Vec<Vec3Df> = Vec::new();
    let mut faces: Vec<ObjFace> = Vec::new();
    let mut line: usize = 1;
    let mut i: usize = 0;
    while i < contents.len()
        invariant
            i <= contents.len(),
            spec_parse_from(contents@, i as int, line, vertices@, textures@, normals@, faces@)
                == spec_parse_obj(contents@),
        decreases contents.len() - i,
    {
        let end: usize = line_end(contents, i);
        let text: &[u8] = slice_subrange(contents, i, end);
        match line_kind(text) {
            LineKind::Vertex => {
                match read_triple(text, 1) {
                    Some(t) => {
                        vertices.push(Vec3Df { x: t.0, y: t.1, z: t.2 });
                    },
                    None => {},
                }
            },
            LineKind::Texture => {
                match read_triple(text, 2) {
                    Some(t) => {
                        textures.push(Vec3Df { x: t.0, y: t.1, z: t.2 });
                    },
                    None => {},
                }
            },
            LineKind::Normal => {
                match read_triple(text, 2) {
                    Some(t) => {
                        normals.push(Vec3Df { x: t.0, y: t.1, z: t.2 });
                    },
                    None => {},
                }
            },
            LineKind::Face => {
                match read_face(text, &vertices, &textures, &normals) {
                    Some(face) => {
                        faces.push(face);
                    },
                    None => {
                        return Err(ObjError::Face { line });
                    },
                }
            },
            LineKind::Other => {},
        }
        if line < usize::MAX {
            line = line + 1;
        }
        if end < contents.len() {
            i = end + 1;
        } else {
            proof {
                lemma_parse_past_end(
                    contents@,
                    end + 1,
                    line,
                    vertices@,
                    textures@,
                    normals@,
                    faces@,
                );
                lemma_parse_past_end(
                    contents@,
                    end as int,
                    line,
                    vertices@,
                    textures@,
                    normals@,
                    faces@,
                );
            }
            i = end;
        }
    }
    Ok(faces)
}

} // verus!
