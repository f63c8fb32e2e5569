use graphit::error::GraphitError;
use graphit::helper::get_rand_vid;
use graphit::Graphit;

#[test]
fn graphit_version_and_add_vertex() {
    assert_eq!(Graphit::version(), "0.1.0");
    assert_eq!(Graphit::add_vertex(3), 99);
    assert_eq!(Graphit::add_vertex(0), 0);
}

#[test]
fn rand_vid_stays_in_range() {
    assert_eq!(get_rand_vid(5, 6), 5);
    for _ in 0..100 {
        let v = get_rand_vid(2, 10);
        assert!(v >= 2 && v < 10);
    }
}

#[test]
fn not_found_message() {
    let e = GraphitError::NotFound("g1".to_string());
    assert_eq!(e.message(), "Graphit 'g1' not found");
}

#[test]
fn io_error_converts_and_describes() {
    let io = std::io::Error::new(std::io::ErrorKind::Other, "disk gone");
    let e: GraphitError = GraphitError::from(io);
    assert!(matches!(e, GraphitError::Io(_)));
    assert_eq!(e.message(), "i/o error: disk gone");
}
