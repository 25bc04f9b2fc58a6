use ray_tracer::obj::line::library_path;
use ray_tracer::obj::line::parse_vector;
use ray_tracer::obj::line::LineEvent;
use ray_tracer::obj::load::triangle_of;
use ray_tracer::obj::load::LoadError;
use ray_tracer::obj::load::ObjParser;
use ray_tracer::obj::mtl::lookup;
use ray_tracer::obj::mtl::same_text;
use ray_tracer::obj::mtl::MtlError;
use ray_tracer::obj::mtl::MtlParser;
use ray_tracer::obj::parse::find_field_end;
use ray_tracer::obj::parse::parse_index;
use ray_tracer::obj::parse::FaceEntryElement;
use ray_tracer::obj::parse::FaceError;
use ray_tracer::obj::parse::IndexError;
use ray_tracer::obj::text::decimal;
use ray_tracer::obj::write::ObjWriter;
use ray_tracer::ray::Ray;
use ray_tracer::scene::mesh::Material;
use ray_tracer::scene::mesh::Triangle;
use ray_tracer::scene::Scene;
use ray_tracer::vector::Vector3;

fn v(x: f64, y: f64, z: f64) -> Vector3<f64> {
    Vector3::new(x, y, z)
}

fn parts(v: Vector3<f64>) -> (f64, f64, f64) {
    (v.x(), v.y(), v.z())
}

fn show(x: f64) -> String {
    format!("{}", x)
}

fn root(x: f64) -> f64 {
    x.sqrt()
}

fn entry(s: &str) -> Result<(usize, Option<usize>, Option<usize>), FaceError> {
    FaceEntryElement::new(s).map(|e| (e.vertex, e.texture, e.normal))
}

#[test]
fn decimal_writes_numbers_without_leading_zeros() {
    assert_eq!(decimal(0), "0");
    assert_eq!(decimal(7), "7");
    assert_eq!(decimal(10), "10");
    assert_eq!(decimal(1203), "1203");
    assert_eq!(decimal(usize::MAX), usize::MAX.to_string());
}

#[test]
fn index_is_read_as_the_standard_parser_reads_it() {
    for word in ["0", "7", "42", "+5", "007", "", "+", "-", "-3", "1x", "x1", " 1", "1 ", "18446744073709551615",
        "18446744073709551616", "99999999999999999999999", "999999999999999999999x", "++1", "1+"]
    {
        let expected = word.parse::<usize>().ok();
        assert_eq!(parse_index(word.as_bytes(), 0, word.len()).ok(), expected);
    }
}

#[test]
fn index_errors_name_what_is_wrong() {
    assert_eq!(parse_index(b"", 0, 0), Err(IndexError::Empty));
    assert_eq!(parse_index(b"12", 1, 1), Err(IndexError::Empty));
    assert_eq!(parse_index(b"+", 0, 1), Err(IndexError::InvalidDigit));
    assert_eq!(parse_index(b"1a", 0, 2), Err(IndexError::InvalidDigit));
    assert_eq!(parse_index(b"99999999999999999999999", 0, 23), Err(IndexError::PosOverflow));
    assert_eq!(parse_index(b"a99999999999999999999999", 0, 24), Err(IndexError::InvalidDigit));
    assert_eq!(parse_index(b"12/345/6", 3, 6), Ok(345));
}

#[test]
fn field_ends_at_the_next_slash() {
    assert_eq!(find_field_end(b"12/345/6", 0), 2);
    assert_eq!(find_field_end(b"12/345/6", 3), 6);
    assert_eq!(find_field_end(b"12/345/6", 7), 8);
    assert_eq!(find_field_end(b"12/345/6", 8), 8);
    assert_eq!(find_field_end(b"//", 0), 0);
}

#[test]
fn face_entry_reads_three_fields() {
    assert_eq!(entry("1/2/3"), Ok((1, Some(2), Some(3))));
    assert_eq!(entry("12//7"), Ok((12, None, Some(7))));
    assert_eq!(entry("4/5/"), Ok((4, Some(5), None)));
    assert_eq!(entry("4//"), Ok((4, None, None)));
    assert_eq!(entry("4/x/y"), Ok((4, None, None)));
    assert_eq!(entry("1/2/3/4"), Ok((1, Some(2), Some(3))));
}

#[test]
fn face_entry_needs_a_vertex_and_three_fields() {
    assert_eq!(entry(""), Err(FaceError::Vertex(IndexError::Empty)));
    assert_eq!(entry("/1/2"), Err(FaceError::Vertex(IndexError::Empty)));
    assert_eq!(entry("a/1/2"), Err(FaceError::Vertex(IndexError::InvalidDigit)));
    assert_eq!(entry("99999999999999999999999/1/2"), Err(FaceError::Vertex(IndexError::PosOverflow)));
    assert_eq!(entry("1"), Err(FaceError::MissingField));
    assert_eq!(entry("1/2"), Err(FaceError::MissingField));
    assert_eq!(entry("x"), Err(FaceError::Vertex(IndexError::InvalidDigit)));
}

#[test]
fn face_entry_prints_what_it_holds() {
    let full = FaceEntryElement { vertex: 1, texture: Some(2), normal: Some(3) };
    assert_eq!(full.print(), "1/2/3");
    let bare = FaceEntryElement { vertex: 10, texture: None, normal: Some(42) };
    assert_eq!(bare.print(), "10//42");
    let lone = FaceEntryElement { vertex: 5, texture: None, normal: None };
    assert_eq!(lone.print(), "5//");
    assert_eq!(FaceEntryElement::new("7//9").unwrap().print(), "7//9");
}

#[test]
fn triangle_counts_from_zero() {
    let a = FaceEntryElement { vertex: 1, texture: None, normal: Some(4) };
    let b = FaceEntryElement { vertex: 2, texture: Some(9), normal: Some(5) };
    let c = FaceEntryElement { vertex: 3, texture: None, normal: Some(6) };
    let t = triangle_of(&a, &b, &c, 7, 2).unwrap();
    assert_eq!(t.vertices, [0, 1, 2]);
    assert_eq!(t.point_normals, [3, 4, 5]);
    assert_eq!((t.face_normal, t.material), (7, 2));
    let bare = FaceEntryElement { vertex: 3, texture: None, normal: None };
    assert_eq!(triangle_of(&a, &b, &bare, 0, 0).err(), Some(FaceError::MissingNormal));
    let zero = FaceEntryElement { vertex: 0, texture: None, normal: Some(1) };
    assert_eq!(triangle_of(&a, &zero, &c, 0, 0).err(), Some(FaceError::OutOfRange));
    let none = FaceEntryElement { vertex: 1, texture: None, normal: Some(0) };
    assert_eq!(triangle_of(&none, &b, &c, 0, 0).err(), Some(FaceError::OutOfRange));
}

#[test]
fn writer_starts_empty() {
    let w = ObjWriter::new();
    assert_eq!((w.num_vertices(), w.num_normals(), w.num_textures()), (0, 0, 0));
    assert_eq!(w.to_text(), "");
}

#[test]
fn writer_writes_faces_counted_from_one() {
    let mut w = ObjWriter::new();
    let t = Triangle { vertices: [0, 1, 2], point_normals: [5, 5, 9], material: 0, face_normal: 0 };
    assert_eq!(w.write_triangle(&t), "1//6 2//6 3//10 ");
    w.add_triangle(&t);
    assert_eq!(w.faces, vec!["1//6 2//6 3//10 ".to_string()]);
    assert_eq!(w.to_text(), "f 1//6 2//6 3//10 \n");
}

#[test]
fn writer_divides_coordinates_by_the_unit_scale() {
    let mut w = ObjWriter::new();
    assert_eq!(w.write_vector(&v(100.0, -250.0, 0.0), &show), "1 -2.5 0");
    w.add_vertex(&v(100.0, 200.0, 300.0), &show);
    w.add_normal(&v(0.0, 0.0, 100.0), &show);
    w.add_texture(&v(50.0, 25.0, 0.0), &show);
    assert_eq!((w.num_vertices(), w.num_normals(), w.num_textures()), (1, 1, 1));
    assert_eq!(w.to_text(), "v 1 2 3\nvt 0.5 0.25 0\nvn 0 0 1\n");
}

#[test]
fn writer_adds_a_ray_as_two_vertices_and_a_line() {
    let mut w = ObjWriter::new();
    w.add_vertex(&v(0.0, 0.0, 0.0), &show);
    let r = Ray::new(v(100.0, 0.0, 0.0), v(0.0, 2.0, 0.0));
    w.add_ray(&r, 50.0, &show);
    assert_eq!(w.num_vertices(), 3);
    assert_eq!(w.vertices[1], "1 0 0");
    assert_eq!(w.vertices[2], "1 1 0");
    assert_eq!(w.lines, vec!["4 5".to_string()]);
    assert_eq!(w.to_text(), "v 0 0 0\nv 1 0 0\nv 1 1 0\nl 4 5\n");
}

fn small_scene() -> Scene<f64> {
    Scene {
        vertices: vec![v(0.0, 0.0, 0.0), v(300.0, 0.0, 0.0), v(0.0, 300.0, 0.0)],
        point_normals: vec![v(0.0, 0.0, 1.0)],
        face_normals: vec![v(0.0, 0.0, 1.0)],
        triangles: vec![Triangle {
            vertices: [0, 1, 2],
            point_normals: [0, 0, 0],
            material: 0,
            face_normal: 0,
        }],
        materials: vec![Material { diffuse: v(1.0, 1.0, 1.0), emission: v(0.0, 0.0, 0.0) }],
        meshes: vec![0],
    }
}

#[test]
fn writer_adds_a_scene() {
    let mut w = ObjWriter::new();
    w.add_scene(&small_scene(), false, &show);
    assert_eq!(w.to_text(), "v 0 0 0\nv 3 0 0\nv 0 3 0\nvn 0 0 0.01\nf 1//1 2//1 3//1 \n");
    assert_eq!(ObjWriter::middle(&small_scene(), 0).z(), 0.0);
}

#[test]
fn writer_adds_face_normals_as_segments() {
    let mut w = ObjWriter::new();
    w.add_scene(&small_scene(), true, &show);
    let third = 1.0f64 / 3.0;
    let middle = 300.0 * third / 100.0;
    assert_eq!(w.num_vertices(), 5);
    assert_eq!(w.vertices[3], format!("{} {} 0", middle, middle));
    assert_eq!(w.vertices[4], format!("{} {} 1", middle, middle));
    assert_eq!(w.lines, vec!["6 7".to_string()]);
    assert_eq!(w.faces.len(), 1);
    assert_eq!(w.num_normals(), 1);
}

#[test]
fn texts_are_compared_by_their_characters() {
    assert!(same_text("glow", "glow"));
    assert!(same_text("", ""));
    assert!(!same_text("glow", "glop"));
    assert!(!same_text("glow", "glo"));
    assert!(same_text("h\u{e9}", "h\u{e9}"));
}

#[test]
fn lookup_finds_the_material_declared_last() {
    let names = vec!["a".to_string(), "b".to_string(), "a".to_string()];
    assert_eq!(lookup(&names, "a"), Some(2));
    assert_eq!(lookup(&names, "b"), Some(1));
    assert_eq!(lookup(&names, "c"), None);
    assert_eq!(lookup(&Vec::new(), "a"), None);
}

#[test]
fn material_library_sets_the_colours_of_the_last_material() {
    let mut m: MtlParser<f64> = MtlParser::new();
    assert_eq!(m.set_emission(v(1.0, 1.0, 1.0)), Err(MtlError::NoMaterial));
    assert_eq!(m.set_diffuse(v(1.0, 1.0, 1.0)), Err(MtlError::NoMaterial));
    m.new_material("wall");
    assert_eq!(parts(m.materials[0].diffuse), (0.0, 0.0, 0.0));
    assert_eq!(parts(m.materials[0].emission), (0.0, 0.0, 0.0));
    m.new_material("lamp");
    assert_eq!(m.set_emission(v(1.0, 2.0, 3.0)), Ok(()));
    assert_eq!(m.set_diffuse(v(0.5, 0.25, 0.125)), Ok(()));
    assert_eq!(m.names, vec!["wall".to_string(), "lamp".to_string()]);
    assert_eq!(parts(m.materials[0].emission), (0.0, 0.0, 0.0));
    assert_eq!(parts(m.materials[1].emission), (1.0, 2.0, 3.0));
    assert_eq!(parts(m.materials[1].diffuse), (0.5, 0.25, 0.125));
}

fn square() -> ObjParser<f64> {
    let mut p: ObjParser<f64> = ObjParser::new();
    p.add_vertex(v(0.0, 0.0, 0.0));
    p.add_vertex(v(1.0, 0.0, 0.0));
    p.add_vertex(v(0.0, 1.0, 0.0));
    p.add_vertex(v(1.0, 1.0, 0.0));
    p.add_normal(v(0.0, 0.0, 2.0), &root);
    p
}

#[test]
fn parser_scales_vertices_and_normalizes_normals() {
    let p = square();
    assert_eq!(parts(p.vertices[1]), (100.0, 0.0, 0.0));
    assert_eq!(parts(p.vertices[3]), (100.0, 100.0, 0.0));
    assert_eq!(parts(p.point_normals[0]), (0.0, 0.0, 1.0));
}

#[test]
fn face_normal_follows_the_winding() {
    let p = square();
    let t = Triangle { vertices: [0, 1, 2], point_normals: [0, 0, 0], material: 0, face_normal: 0 };
    assert_eq!(parts(p.calculate_face_normal(&t, true, &root)), (0.0, 0.0, 1.0));
    assert_eq!(parts(p.calculate_face_normal(&t, false, &root)), (-0.0, -0.0, -1.0));
    let back = Triangle { vertices: [0, 2, 1], point_normals: [0, 0, 0], material: 0, face_normal: 0 };
    assert_eq!(p.calculate_face_normal(&back, true, &root).z(), -1.0);
}

#[test]
fn parser_builds_a_well_formed_scene() {
    let mut p = square();
    let mut library: MtlParser<f64> = MtlParser::new();
    library.new_material("wall");
    library.new_material("lamp");
    library.set_emission(v(1.0, 1.0, 1.0)).unwrap();
    p.use_library(library);
    p.begin_object();
    assert_eq!(p.add_face("1//1", "2//1", "3//1", &root), Ok(()));
    assert_eq!(p.use_material("lamp"), Ok(()));
    p.begin_object();
    assert_eq!(p.add_face("2/7/1", "4/8/1", "3/9/1", &root), Ok(()));
    assert_eq!(p.use_material("mirror"), Err(LoadError::UnknownMaterial));
    assert_eq!(p.cur_material, 1);
    let scene = p.into_scene();
    assert!(scene.is_well_formed());
    assert_eq!(scene.meshes, vec![0, 1]);
    assert_eq!(scene.triangles[0].vertices, [0, 1, 2]);
    assert_eq!(scene.triangles[0].point_normals, [0, 0, 0]);
    assert_eq!((scene.triangles[0].material, scene.triangles[0].face_normal), (0, 0));
    assert_eq!(scene.triangles[1].vertices, [1, 3, 2]);
    assert_eq!((scene.triangles[1].material, scene.triangles[1].face_normal), (1, 1));
    assert_eq!(parts(scene.face_normals[0]), (0.0, 0.0, 1.0));
    assert_eq!(parts(scene.face_normals[1]), (0.0, 0.0, 1.0));
}

#[test]
fn parser_refuses_bad_faces_and_stores_nothing() {
    let mut p = square();
    assert_eq!(p.add_face("1//1", "2//1", "9//1", &root), Err(LoadError::Face(FaceError::OutOfRange)));
    assert_eq!(p.add_face("1//1", "2//1", "0//1", &root), Err(LoadError::Face(FaceError::OutOfRange)));
    assert_eq!(p.add_face("1//1", "2//", "3//1", &root), Err(LoadError::Face(FaceError::MissingNormal)));
    assert_eq!(p.add_face("1//1", "2", "3//1", &root), Err(LoadError::Face(FaceError::MissingField)));
    assert_eq!(
        p.add_face("1//1", "2//1", "x//1", &root),
        Err(LoadError::Face(FaceError::Vertex(IndexError::InvalidDigit)))
    );
    assert!(p.triangles.is_empty());
    assert!(p.face_normals.is_empty());
}

fn number(word: &str) -> f64 {
    word.parse::<f64>().unwrap()
}

#[test]
fn library_lies_beside_the_scene_file() {
    assert_eq!(library_path("assets/scene.obj", "scene.mtl"), "assets/scene.mtl");
    assert_eq!(library_path("a/b/c.obj", "m.mtl"), "a/b/m.mtl");
    assert_eq!(library_path("scene.obj", "scene.mtl"), "scene.mtl");
    assert_eq!(library_path("/scene.obj", "scene.mtl"), "scene.mtl");
    assert_eq!(library_path("", "scene.mtl"), "scene.mtl");
    assert_eq!(library_path("dir/", "scene.mtl"), "dir/scene.mtl");
}

#[test]
fn vector_is_the_three_words_after_the_keyword() {
    assert_eq!(parse_vector(&vec!["v", "1.5", "-2", "3e2"], &number).map(parts), Some((1.5, -2.0, 300.0)));
    assert_eq!(parse_vector(&vec!["v", "1", "2", "3", "4"], &number).map(parts), Some((1.0, 2.0, 3.0)));
    assert_eq!(parse_vector(&vec!["v", "1", "2"], &number).map(parts), None);
}

fn read(p: &mut ObjParser<f64>, line: &[&str]) -> Result<Option<String>, LoadError> {
    match p.parse_line(&line.to_vec(), "assets/scene.obj", &number, &root) {
        Ok(LineEvent::Done) => Ok(None),
        Ok(LineEvent::Library(path)) => Ok(Some(path)),
        Err(e) => Err(e),
    }
}

#[test]
fn scene_lines_are_read_by_their_keyword() {
    let mut p: ObjParser<f64> = ObjParser::new();
    assert_eq!(read(&mut p, &["mtllib", "scene.mtl"]), Ok(Some("assets/scene.mtl".to_string())));
    let mut library: MtlParser<f64> = MtlParser::new();
    library.new_material("wall");
    library.new_material("lamp");
    p.use_library(library);
    assert_eq!(read(&mut p, &["o", "Cube"]), Ok(None));
    assert_eq!(read(&mut p, &["v", "0", "0", "0"]), Ok(None));
    assert_eq!(read(&mut p, &["v", "1", "0", "0"]), Ok(None));
    assert_eq!(read(&mut p, &["v", "0", "1", "0"]), Ok(None));
    assert_eq!(read(&mut p, &["vn", "0", "0", "5"]), Ok(None));
    assert_eq!(read(&mut p, &["vt", "0", "0"]), Ok(None));
    assert_eq!(read(&mut p, &["s", "off"]), Ok(None));
    assert_eq!(read(&mut p, &[""]), Ok(None));
    assert_eq!(read(&mut p, &[]), Ok(None));
    assert_eq!(read(&mut p, &["usemtl", "lamp"]), Ok(None));
    assert_eq!(read(&mut p, &["f", "1//1", "2//1", "3//1"]), Ok(None));
    assert_eq!(p.meshes, vec![0]);
    assert_eq!(p.vertices.len(), 3);
    assert_eq!(parts(p.vertices[1]), (100.0, 0.0, 0.0));
    assert_eq!(parts(p.point_normals[0]), (0.0, 0.0, 1.0));
    assert_eq!(p.triangles.len(), 1);
    assert_eq!(p.triangles[0].material, 1);
    assert_eq!(parts(p.face_normals[0]), (0.0, 0.0, 1.0));
    assert!(p.into_scene().is_well_formed());
}

#[test]
fn scene_lines_that_cannot_be_read_are_refused() {
    let mut p = square();
    assert_eq!(read(&mut p, &["f", "1//1", "2//1", "3//1", "4//1"]), Err(LoadError::NotTriangle));
    assert_eq!(read(&mut p, &["f", "1//1", "2//1"]), Err(LoadError::NotTriangle));
    assert_eq!(read(&mut p, &["f", "1//1", "2//1", "3"]), Err(LoadError::Face(FaceError::MissingField)));
    assert_eq!(read(&mut p, &["f", "1//1", "2//1", "3//"]), Err(LoadError::Face(FaceError::MissingNormal)));
    assert_eq!(read(&mut p, &["v", "1", "2"]), Err(LoadError::MissingWord));
    assert_eq!(read(&mut p, &["vn", "1"]), Err(LoadError::MissingWord));
    assert_eq!(read(&mut p, &["usemtl"]), Err(LoadError::MissingWord));
    assert_eq!(read(&mut p, &["usemtl", "gold"]), Err(LoadError::UnknownMaterial));
    assert_eq!(read(&mut p, &["mtllib"]), Err(LoadError::MissingWord));
    assert_eq!(p.vertices.len(), 4);
    assert_eq!(p.point_normals.len(), 1);
    assert!(p.triangles.is_empty());
}

#[test]
fn material_lines_are_read_by_their_keyword() {
    let mut m: MtlParser<f64> = MtlParser::new();
    assert_eq!(m.parse_line(&vec!["Ke", "1", "1", "1"], &number), Err(MtlError::NoMaterial));
    assert_eq!(m.parse_line(&vec!["newmtl", "lamp"], &number), Ok(()));
    assert_eq!(m.parse_line(&vec!["Ke", "1", "2", "3"], &number), Ok(()));
    assert_eq!(m.parse_line(&vec!["Kd", "0.5", "0.25", "0"], &number), Ok(()));
    assert_eq!(m.parse_line(&vec!["Ns", "250"], &number), Ok(()));
    assert_eq!(m.parse_line(&vec!["Kd", "0.5"], &number), Err(MtlError::MissingWord));
    assert_eq!(m.parse_line(&vec!["newmtl"], &number), Err(MtlError::MissingWord));
    assert_eq!(m.names, vec!["lamp".to_string()]);
    assert_eq!(parts(m.materials[0].emission), (1.0, 2.0, 3.0));
    assert_eq!(parts(m.materials[0].diffuse), (0.5, 0.25, 0.0));
}
