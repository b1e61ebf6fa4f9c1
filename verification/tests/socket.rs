use clone_cgroup::messages::Side;
use clone_cgroup::socket::{
    client_hello, exit_after_connect, output_text, received_report, socket_path,
    CHILD_EXIT_DONE, CHILD_EXIT_NO_SOCKET,
};

#[test]
fn greeting_and_path() {
    assert_eq!(client_hello(), "Hello from client!\n");
    assert_eq!(socket_path(), "/tmp/example.sock");
}

#[test]
fn child_gives_up_without_socket() {
    assert_eq!(exit_after_connect(false), Some(1));
    assert_eq!(exit_after_connect(true), None);
    assert_eq!(CHILD_EXIT_NO_SOCKET, 1);
    assert_eq!(CHILD_EXIT_DONE, 0);
}

#[test]
fn received_text_is_reported_with_byte_length() {
    let got = received_report(Side::Child, "Hello from client!\n".as_bytes().to_vec());
    assert_eq!(got, Some("[child]: received from socket: Hello from client!\n, length is 19 bytes".to_string()));
    let got = received_report(Side::Parent, "é".as_bytes().to_vec());
    assert_eq!(got, Some("[main]: received from socket: é, length is 2 bytes".to_string()));
    let got = received_report(Side::Parent, Vec::new());
    assert_eq!(got, Some("[main]: received from socket: , length is 0 bytes".to_string()));
}

#[test]
fn invalid_utf8_is_not_reported() {
    assert_eq!(received_report(Side::Parent, vec![0xff, 0xfe]), None);
    assert_eq!(output_text(vec![0xc3]), None);
}

#[test]
fn output_text_decodes() {
    assert_eq!(output_text(b"max\n".to_vec()), Some("max\n".to_string()));
    assert_eq!(output_text(Vec::new()), Some(String::new()));
}

#[test]
fn listening_line_names_the_socket() {
    assert_eq!(clone_cgroup::socket::listening_note(), "[main] bind /tmp/example.sock, socket server listening for connections.");
}
