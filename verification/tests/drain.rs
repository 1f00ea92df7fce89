use http_forward::drain::{read_body_data, BodyDrainer, DrainError, DrainFault, Frame, Side};

fn pattern(n: usize) -> Vec<u8> {
    (0..n).map(|i| (i * 31 + 7) as u8).collect()
}

#[test]
fn empty_body_drains_to_nothing() {
    assert_eq!(read_body_data(&vec![], Side::Request), Ok(vec![]));
    assert_eq!(read_body_data(&vec![], Side::Response), Ok(vec![]));
    assert_eq!(read_body_data(&vec![Frame::Data(vec![])], Side::Request), Ok(vec![]));
}

#[test]
fn one_byte_body_survives() {
    assert_eq!(read_body_data(&vec![Frame::Data(vec![0xff])], Side::Request), Ok(vec![0xff]));
}

#[test]
fn large_body_survives_in_one_frame() {
    let body = pattern(65536);
    assert_eq!(read_body_data(&vec![Frame::Data(body.clone())], Side::Response), Ok(body));
}

#[test]
fn body_survives_any_framing() {
    let body = pattern(200_000);
    for size in [1usize, 7, 4096, 65536, 199_999] {
        let frames: Vec<Frame> = body.chunks(size).map(|c| Frame::Data(c.to_vec())).collect();
        assert!(size >= 199_999 || frames.len() > 1);
        assert_eq!(read_body_data(&frames, Side::Request), Ok(body.clone()));
    }
}

#[test]
fn binary_bytes_are_not_re_encoded() {
    let frames = vec![Frame::Data(vec![0x00, 0xc3, 0x28]), Frame::Data(vec![]), Frame::Data(vec![0xfe, 0xff])];
    assert_eq!(read_body_data(&frames, Side::Response), Ok(vec![0x00, 0xc3, 0x28, 0xfe, 0xff]));
}

#[test]
fn first_fault_decides() {
    let frames = vec![Frame::Data(vec![1]), Frame::Failed, Frame::Other, Frame::Data(vec![2])];
    assert_eq!(
        read_body_data(&frames, Side::Request),
        Err(DrainError { side: Side::Request, fault: DrainFault::Transport })
    );
    let frames = vec![Frame::Other, Frame::Failed];
    assert_eq!(
        read_body_data(&frames, Side::Response),
        Err(DrainError { side: Side::Response, fault: DrainFault::NotData })
    );
}

#[test]
fn messages_name_side_and_fault() {
    let e = |side, fault| DrainError { side, fault }.message();
    assert_eq!(e(Side::Request, DrainFault::Transport), "read from reqBody error");
    assert_eq!(e(Side::Request, DrainFault::NotData), "read data from reqBody error");
    assert_eq!(e(Side::Response, DrainFault::Transport), "read from respBody error");
    assert_eq!(e(Side::Response, DrainFault::NotData), "read data from respBody error");
    assert_eq!(Side::Request.tag(), "reqBody");
    assert_eq!(Side::Response.tag(), "respBody");
}

#[test]
fn drainer_gathers_frame_by_frame() {
    let mut d = BodyDrainer::new(Side::Response);
    assert_eq!(d.feed(&Frame::Data(vec![1, 2])), Ok(()));
    assert_eq!(d.feed(&Frame::Data(vec![])), Ok(()));
    assert_eq!(d.feed(&Frame::Data(vec![3])), Ok(()));
    assert_eq!(d.finish(), vec![1, 2, 3]);
}

#[test]
fn drainer_reports_a_fault_and_keeps_what_it_has() {
    let mut d = BodyDrainer::new(Side::Request);
    assert_eq!(d.feed(&Frame::Data(vec![9])), Ok(()));
    assert_eq!(d.feed(&Frame::Other), Err(DrainError { side: Side::Request, fault: DrainFault::NotData }));
    assert_eq!(d.feed(&Frame::Failed), Err(DrainError { side: Side::Request, fault: DrainFault::Transport }));
    assert_eq!(d.finish(), vec![9]);
}

#[test]
fn new_drainer_is_empty() {
    assert_eq!(BodyDrainer::new(Side::Request).finish(), Vec::<u8>::new());
}
