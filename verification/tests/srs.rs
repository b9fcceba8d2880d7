use noir_rs::localsrs::LocalSrs;
use noir_rs::netsrs::{NetSrs, DEFAULT_SRS_URL};
use noir_rs::srs::{accept, Reply, Section, Srs, SrsError, Transport};

fn bytes(len: usize, seed: u8) -> Vec<u8> {
    let mut out: Vec<u8> = Vec::with_capacity(len);
    let mut i: usize = 0;
    while i < len {
        out.push(seed.wrapping_add((i % 251) as u8));
        i += 1;
    }
    out
}

#[test]
fn new_local_source_is_empty() {
    let srs = LocalSrs::new("transcript00.dat");
    assert_eq!(srs.srs_path, "transcript00.dat");
    assert_eq!(srs.g1_data, None);
    assert_eq!(srs.g2_data, None);
    assert_eq!(srs.num_points, None);
}

#[test]
fn new_remote_source_is_empty() {
    let srs = NetSrs::new("http://localhost/t.dat");
    assert_eq!(srs.srs_url, "http://localhost/t.dat");
    assert_eq!(srs.g1_data, None);
    assert_eq!(srs.g2_data, None);
    assert_eq!(srs.num_points, None);
}

#[test]
fn remote_source_falls_back_to_the_default_url() {
    assert_eq!(
        DEFAULT_SRS_URL,
        "https://aztec-ignition.s3.amazonaws.com/MAIN%20IGNITION/monomial/transcript00.dat"
    );
    assert_eq!(NetSrs::new_or_default(None).srs_url, DEFAULT_SRS_URL);
    assert_eq!(NetSrs::new_or_default(Some("http://mirror/t.dat")).srs_url, "http://mirror/t.dat");
}

#[test]
fn response_with_a_success_status_delivers_its_body() {
    assert_eq!(Reply::from_response(200, vec![1, 2, 3]), Reply::Bytes(vec![1, 2, 3]));
    assert_eq!(Reply::from_response(206, vec![9]), Reply::Bytes(vec![9]));
    assert_eq!(Reply::from_response(299, vec![]), Reply::Bytes(vec![]));
}

#[test]
fn response_with_another_status_is_a_refusal() {
    assert_eq!(Reply::from_response(199, vec![1]), Reply::Refused(199));
    assert_eq!(Reply::from_response(300, vec![1]), Reply::Refused(300));
    assert_eq!(Reply::from_response(404, vec![1]), Reply::Refused(404));
    assert_eq!(Reply::from_response(416, vec![]), Reply::Refused(416));
    assert_eq!(Reply::from_response(500, vec![1, 2]), Reply::Refused(500));
    assert_eq!(Reply::from_response(0, vec![]), Reply::Refused(0));
}

#[test]
fn accept_takes_exactly_the_expected_bytes() {
    let source = String::from("t.dat");
    let got = accept(Transport::File, &source, Section::G2, 3, Reply::Bytes(vec![7, 8, 9]));
    assert_eq!(got, Ok(vec![7, 8, 9]));
}

#[test]
fn accept_refuses_too_few_and_too_many_bytes() {
    let source = String::from("t.dat");
    assert_eq!(
        accept(Transport::File, &source, Section::G1, 4, Reply::Bytes(vec![1, 2, 3])),
        Err(SrsError::Length {
            source: String::from("t.dat"),
            section: Section::G1,
            expected: 4,
            actual: 3
        })
    );
    assert_eq!(
        accept(Transport::Http, &source, Section::G2, 2, Reply::Bytes(vec![1, 2, 3])),
        Err(SrsError::Length {
            source: String::from("t.dat"),
            section: Section::G2,
            expected: 2,
            actual: 3
        })
    );
}

#[test]
fn accept_names_the_transport_that_failed() {
    let source = String::from("where");
    assert_eq!(
        accept(Transport::File, &source, Section::G1, 64, Reply::Failed(String::from("no such file"))),
        Err(SrsError::Io {
            source: String::from("where"),
            section: Section::G1,
            message: String::from("no such file")
        })
    );
    assert_eq!(
        accept(Transport::Http, &source, Section::G2, 128, Reply::Failed(String::from("timed out"))),
        Err(SrsError::Fetch {
            source: String::from("where"),
            section: Section::G2,
            message: String::from("timed out")
        })
    );
    assert_eq!(
        accept(Transport::Http, &source, Section::G1, 64, Reply::Refused(403)),
        Err(SrsError::Status { source: String::from("where"), section: Section::G1, status: 403 })
    );
}

#[test]
fn local_load_stores_both_buffers() {
    let mut srs = LocalSrs::new("t.dat");
    let g1: Vec<u8> = bytes(64 * 3, 1);
    let g2: Vec<u8> = bytes(128, 2);
    assert_eq!(srs.load_data(3, Reply::Bytes(g1.clone()), Reply::Bytes(g2.clone())), Ok(()));
    assert_eq!(srs.num_points(), 3);
    assert_eq!(srs.g1_data(), &g1);
    assert_eq!(srs.g2_data(), &g2);
    assert_eq!(srs.g1_data().len(), 192);
    assert_eq!(srs.g2_data().len(), 128);
    assert_eq!(srs.srs_path, "t.dat");
}

#[test]
fn remote_load_stores_both_buffers() {
    let mut srs = NetSrs::new("http://host/t.dat");
    let g1: Vec<u8> = bytes(64 * 5, 3);
    let g2: Vec<u8> = bytes(128, 4);
    let g1_reply = Reply::from_response(206, g1.clone());
    let g2_reply = Reply::from_response(206, g2.clone());
    assert_eq!(srs.load_data(5, g1_reply, g2_reply), Ok(()));
    assert_eq!(srs.num_points(), 5);
    assert_eq!(srs.g1_data(), &g1);
    assert_eq!(srs.g2_data(), &g2);
    assert_eq!(srs.srs_url, "http://host/t.dat");
}

#[test]
fn loaded_buffers_have_the_exact_lengths() {
    let counts: [u32; 6] = [1, 2, 3, 17, 1025, 4097];
    for n in counts {
        let mut local = LocalSrs::new("t.dat");
        let mut remote = NetSrs::new("http://host/t.dat");
        let g1: Vec<u8> = bytes(64 * n as usize, 5);
        let g2: Vec<u8> = bytes(128, 6);
        assert_eq!(local.load_data(n, Reply::Bytes(g1.clone()), Reply::Bytes(g2.clone())), Ok(()));
        assert_eq!(remote.load_data(n, Reply::Bytes(g1), Reply::Bytes(g2)), Ok(()));
        assert_eq!(local.g1_data().len(), 64 * n as usize);
        assert_eq!(local.g2_data().len(), 128);
        assert_eq!(remote.g1_data().len(), 64 * n as usize);
        assert_eq!(remote.g2_data().len(), 128);
        assert_eq!(local.num_points(), n);
        assert_eq!(remote.num_points(), n);
    }
}

#[test]
fn second_load_replaces_the_first() {
    let mut srs = LocalSrs::new("t.dat");
    assert_eq!(srs.load_data(2, Reply::Bytes(bytes(128, 1)), Reply::Bytes(bytes(128, 2))), Ok(()));
    let g1: Vec<u8> = bytes(64 * 4, 7);
    let g2: Vec<u8> = bytes(128, 8);
    assert_eq!(srs.load_data(4, Reply::Bytes(g1.clone()), Reply::Bytes(g2.clone())), Ok(()));
    assert_eq!(srs.num_points(), 4);
    assert_eq!(srs.g1_data(), &g1);
    assert_eq!(srs.g2_data(), &g2);
}

#[test]
fn short_g1_read_fails_the_load() {
    let mut srs = LocalSrs::new("short.dat");
    let got = srs.load_data(2, Reply::Bytes(bytes(127, 1)), Reply::Bytes(bytes(128, 2)));
    assert_eq!(
        got,
        Err(SrsError::Length {
            source: String::from("short.dat"),
            section: Section::G1,
            expected: 128,
            actual: 127
        })
    );
    assert_eq!(srs.g1_data, None);
    assert_eq!(srs.g2_data, None);
    assert_eq!(srs.num_points, None);
}

#[test]
fn short_g2_read_fails_the_load() {
    let mut srs = LocalSrs::new("short.dat");
    let got = srs.load_data(1, Reply::Bytes(bytes(64, 1)), Reply::Bytes(bytes(100, 2)));
    assert_eq!(
        got,
        Err(SrsError::Length {
            source: String::from("short.dat"),
            section: Section::G2,
            expected: 128,
            actual: 100
        })
    );
    assert_eq!(srs.g1_data, None);
    assert_eq!(srs.g2_data, None);
    assert_eq!(srs.num_points, None);
}

#[test]
fn empty_g1_read_fails_the_load() {
    let mut srs = LocalSrs::new("empty.dat");
    let got = srs.load_data(1, Reply::Bytes(Vec::new()), Reply::Bytes(bytes(128, 2)));
    assert_eq!(
        got,
        Err(SrsError::Length {
            source: String::from("empty.dat"),
            section: Section::G1,
            expected: 64,
            actual: 0
        })
    );
}

#[test]
fn overlong_body_fails_the_load() {
    let mut srs = NetSrs::new("http://host/t.dat");
    let got = srs.load_data(1, Reply::from_response(200, bytes(1000, 1)), Reply::Bytes(bytes(128, 2)));
    assert_eq!(
        got,
        Err(SrsError::Length {
            source: String::from("http://host/t.dat"),
            section: Section::G1,
            expected: 64,
            actual: 1000
        })
    );
    assert_eq!(srs.g1_data, None);
}

#[test]
fn failed_load_keeps_what_was_loaded_before() {
    let mut srs = NetSrs::new("http://host/t.dat");
    let g1: Vec<u8> = bytes(128, 1);
    let g2: Vec<u8> = bytes(128, 2);
    assert_eq!(srs.load_data(2, Reply::Bytes(g1.clone()), Reply::Bytes(g2.clone())), Ok(()));
    let got = srs.load_data(4, Reply::Bytes(bytes(256, 3)), Reply::Refused(503));
    assert_eq!(
        got,
        Err(SrsError::Status {
            source: String::from("http://host/t.dat"),
            section: Section::G2,
            status: 503
        })
    );
    assert_eq!(srs.num_points(), 2);
    assert_eq!(srs.g1_data(), &g1);
    assert_eq!(srs.g2_data(), &g2);
}

#[test]
fn load_of_no_point_is_refused() {
    let mut local = LocalSrs::new("t.dat");
    assert_eq!(
        local.load_data(0, Reply::Bytes(Vec::new()), Reply::Bytes(bytes(128, 2))),
        Err(SrsError::NoPoints)
    );
    assert_eq!(local.num_points, None);
    let mut remote = NetSrs::new("u");
    assert_eq!(
        remote.load_data(0, Reply::Refused(416), Reply::Bytes(bytes(128, 2))),
        Err(SrsError::NoPoints)
    );
    assert_eq!(remote.num_points, None);
}

#[test]
fn local_transfer_failure_is_an_io_error() {
    let mut srs = LocalSrs::new("missing.dat");
    let got = srs.load_data(
        1,
        Reply::Failed(String::from("No such file or directory")),
        Reply::Failed(String::from("No such file or directory")),
    );
    assert_eq!(
        got,
        Err(SrsError::Io {
            source: String::from("missing.dat"),
            section: Section::G1,
            message: String::from("No such file or directory")
        })
    );
}

#[test]
fn remote_transfer_failure_is_a_fetch_error() {
    let mut srs = NetSrs::new("http://down/t.dat");
    let got = srs.load_data(
        1,
        Reply::Bytes(bytes(64, 1)),
        Reply::Failed(String::from("connection reset")),
    );
    assert_eq!(
        got,
        Err(SrsError::Fetch {
            source: String::from("http://down/t.dat"),
            section: Section::G2,
            message: String::from("connection reset")
        })
    );
    assert_eq!(srs.g1_data, None);
}

#[test]
fn remote_refusal_is_a_status_error() {
    let mut srs = NetSrs::new("http://host/t.dat");
    let got = srs.load_data(1, Reply::from_response(404, bytes(64, 1)), Reply::Bytes(bytes(128, 2)));
    assert_eq!(
        got,
        Err(SrsError::Status {
            source: String::from("http://host/t.dat"),
            section: Section::G1,
            status: 404
        })
    );
}

#[test]
fn g1_error_comes_before_g2_error() {
    let mut srs = NetSrs::new("u");
    let got = srs.load_data(1, Reply::Refused(500), Reply::Failed(String::from("x")));
    assert_eq!(
        got,
        Err(SrsError::Status { source: String::from("u"), section: Section::G1, status: 500 })
    );
}

#[test]
fn get_g1_data_checks_the_length_for_the_count() {
    let srs = LocalSrs::new("t.dat");
    let g1: Vec<u8> = bytes(64 * 2, 9);
    assert_eq!(srs.get_g1_data(2, Reply::Bytes(g1.clone())), Ok(g1.clone()));
    assert_eq!(
        srs.get_g1_data(3, Reply::Bytes(g1)),
        Err(SrsError::Length {
            source: String::from("t.dat"),
            section: Section::G1,
            expected: 192,
            actual: 128
        })
    );
    assert_eq!(srs.get_g1_data(0, Reply::Bytes(Vec::new())), Err(SrsError::NoPoints));
    let net = NetSrs::new("u");
    let g1: Vec<u8> = bytes(64, 9);
    assert_eq!(net.get_g1_data(1, Reply::Bytes(g1.clone())), Ok(g1));
    assert_eq!(net.get_g1_data(0, Reply::Bytes(Vec::new())), Err(SrsError::NoPoints));
}

#[test]
fn get_g2_data_checks_the_fixed_length() {
    let srs = LocalSrs::new("t.dat");
    let g2: Vec<u8> = bytes(128, 9);
    assert_eq!(srs.get_g2_data(Reply::Bytes(g2.clone())), Ok(g2.clone()));
    assert_eq!(
        srs.get_g2_data(Reply::Bytes(bytes(129, 1))),
        Err(SrsError::Length {
            source: String::from("t.dat"),
            section: Section::G2,
            expected: 128,
            actual: 129
        })
    );
    let net = NetSrs::new("u");
    assert_eq!(net.get_g2_data(Reply::Bytes(g2.clone())), Ok(g2));
    assert_eq!(
        net.get_g2_data(Reply::Failed(String::from("reset"))),
        Err(SrsError::Fetch {
            source: String::from("u"),
            section: Section::G2,
            message: String::from("reset")
        })
    );
}

#[test]
fn source_is_loaded_after_a_successful_load_only() {
    let mut local = LocalSrs::new("t.dat");
    assert!(!local.is_loaded());
    assert!(local.load_data(1, Reply::Bytes(bytes(63, 1)), Reply::Bytes(bytes(128, 2))).is_err());
    assert!(!local.is_loaded());
    assert_eq!(local.load_data(1, Reply::Bytes(bytes(64, 1)), Reply::Bytes(bytes(128, 2))), Ok(()));
    assert!(local.is_loaded());
    let mut remote = NetSrs::new("u");
    assert!(!remote.is_loaded());
    assert_eq!(remote.load_data(1, Reply::Bytes(bytes(64, 1)), Reply::Bytes(bytes(128, 2))), Ok(()));
    assert!(remote.is_loaded());
}

#[test]
fn source_with_one_buffer_of_two_is_not_loaded() {
    let mut local = LocalSrs::new("t.dat");
    local.g1_data = Some(bytes(64, 1));
    local.num_points = Some(1);
    assert!(!local.is_loaded());
}
