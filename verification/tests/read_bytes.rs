use serwus::utils::read_bytes::Overflow;
use serwus::utils::read_bytes::Part;
use serwus::utils::read_bytes::Progress;
use serwus::utils::read_bytes::Upload;

#[test]
fn nothing_read_nothing_kept() {
    let upload = Upload::new();
    assert_eq!(upload.parts_read(), 0);
    assert!(upload.finish().is_empty());
}

#[test]
fn parts_take_the_position_they_name() {
    let mut upload = Upload::new();
    let disposition = Some("form-data; name=\"7\"".to_string());
    assert_eq!(upload.take_field(vec![1, 2], Some("7"), disposition.clone(), 10, 100), Ok(Progress::Continue));
    assert_eq!(upload.take_field(vec![3], Some("-2"), None, 10, 100), Ok(Progress::Continue));
    assert_eq!(upload.take_field(vec![4], Some("+5"), None, 10, 100), Ok(Progress::Continue));
    assert_eq!(
        upload.finish(),
        vec![
            Part { bytes: vec![1, 2], position: 7, disposition },
            Part { bytes: vec![3], position: -2, disposition: None },
            Part { bytes: vec![4], position: 5, disposition: None },
        ]
    );
}

#[test]
fn parts_without_a_number_take_their_turn() {
    let mut upload = Upload::new();
    upload.take_field(vec![1], None, None, 10, 100).unwrap();
    upload.take_field(vec![2], Some("file"), None, 10, 100).unwrap();
    upload.take_field(Vec::new(), Some("9"), None, 10, 100).unwrap();
    upload.take_field(vec![3], Some(""), None, 10, 100).unwrap();
    upload.take_field(vec![4], Some("99999999999"), None, 10, 100).unwrap();
    upload.take_field(vec![5], Some(" 1"), None, 10, 100).unwrap();
    assert_eq!(upload.parts_read(), 6);
    let positions: Vec<i32> = upload.finish().iter().map(|p| p.position).collect();
    assert_eq!(positions, vec![0, 1, 3, 4, 5]);
}

#[test]
fn empty_parts_are_counted_but_not_kept() {
    let mut upload = Upload::new();
    assert_eq!(upload.take_part(Vec::new(), Some(4), Some("d".to_string()), 1, 0), Ok(Progress::Continue));
    assert_eq!(upload.parts_read(), 1);
    assert_eq!(upload.take_part(vec![1], None, None, 1, 1), Ok(Progress::Done));
    assert_eq!(upload.finish(), vec![Part { bytes: vec![1], position: 1, disposition: None }]);
}

#[test]
fn too_large_a_part_fails_the_upload() {
    let mut upload = Upload::new();
    upload.take_part(vec![1, 2, 3], None, None, 10, 3).unwrap();
    assert_eq!(upload.take_part(vec![1, 2, 3, 4], None, None, 10, 3), Err(Overflow));
    assert_eq!(upload.take_field(vec![1, 2, 3, 4], Some("1"), None, 10, 3), Err(Overflow));
    assert_eq!(upload.parts_read(), 1);
    assert_eq!(upload.finish().len(), 1);
}

#[test]
fn upload_is_done_when_enough_is_kept() {
    let mut upload = Upload::new();
    assert_eq!(upload.take_part(vec![1], None, None, 2, 10), Ok(Progress::Continue));
    assert_eq!(upload.take_part(Vec::new(), None, None, 2, 10), Ok(Progress::Continue));
    assert_eq!(upload.take_part(vec![2], None, None, 2, 10), Ok(Progress::Done));
    let mut none_wanted = Upload::new();
    assert_eq!(none_wanted.take_part(Vec::new(), None, None, 0, 10), Ok(Progress::Done));
    assert!(none_wanted.finish().is_empty());
}
