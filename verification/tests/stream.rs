use opc::{Client, Command, DecodeError, Device, Message, ReceiveError, Server};

#[derive(Debug, PartialEq)]
enum Seen {
    Pixels(u8, Vec<[u8; 3]>),
    System(u8, [u8; 2], Vec<u8>),
}

struct Recorder {
    seen: Vec<Seen>,
    refuse: bool,
}

impl Recorder {
    fn new() -> Recorder {
        Recorder { seen: Vec::new(), refuse: false }
    }
}

impl Device for Recorder {
    type Fault = String;

    fn read_msg(&mut self, msg: &Message) -> Result<(), String> {
        self.seen.push(match msg.command {
            Command::SetPixelColors { pixels } => Seen::Pixels(msg.channel, pixels.to_vec()),
            Command::SystemExclusive { id, data } => Seen::System(msg.channel, id, data.to_vec()),
        });
        if self.refuse {
            Err(format!("channel {} is off", msg.channel))
        } else {
            Ok(())
        }
    }

    fn channel(&self) -> u8 {
        0
    }
}

fn frame_of(msg: Message) -> Vec<u8> {
    let mut client = Client::new();
    client.send(msg).unwrap();
    client.take()
}

const INCOMPLETE: Result<(), ReceiveError<String>> =
    Err(ReceiveError::Frame(DecodeError::Incomplete));

#[test]
fn new_server_has_received_nothing() {
    let mut server = Server::new();
    assert!(server.buffered().is_empty());
    assert_eq!(server.room(), 65539);
    let mut device = Recorder::new();
    assert_eq!(server.receive(&mut device), INCOMPLETE);
    assert_eq!(server.skip_frame(), 0);
    assert!(device.seen.is_empty());
}

#[test]
fn feed_appends_and_counts() {
    let mut server = Server::new();
    assert_eq!(server.feed(&[1, 2, 3]), 3);
    assert_eq!(server.feed(&[]), 0);
    assert_eq!(server.feed(&[4, 5]), 2);
    assert_eq!(server.buffered(), &[1, 2, 3, 4, 5]);
    assert_eq!(server.room(), 65534);
}

#[test]
fn feed_stops_at_capacity() {
    let mut server = Server::new();
    let bytes: Vec<u8> = (0..70000u32).map(|i| (i % 253) as u8).collect();
    assert_eq!(server.feed(&bytes[..10]), 10);
    assert_eq!(server.feed(&bytes[10..]), 65529);
    assert_eq!(server.buffered(), &bytes[..65539]);
    assert_eq!(server.room(), 0);
    assert_eq!(server.feed(&[1, 2, 3]), 0);
    assert_eq!(server.buffered().len(), 65539);
}

#[test]
fn full_buffer_always_has_a_frame() {
    let mut server = Server::new();
    assert_eq!(server.feed(&vec![0xFFu8; 70000]), 65539);
    let mut device = Recorder::new();
    assert_eq!(server.receive(&mut device), Ok(()));
    assert_eq!(device.seen, vec![Seen::System(0xFF, [0xFF, 0xFF], vec![0xFF; 65533])]);
    assert!(server.buffered().is_empty());

    let mut server = Server::new();
    let mut bytes = vec![0u8, 1, 0xFF, 0xFF];
    bytes.extend_from_slice(&vec![0u8; 65535]);
    assert_eq!(server.feed(&bytes), 65539);
    assert_eq!(server.skip_frame(), 65539);
    assert_eq!(server.room(), 65539);
}

#[test]
fn partial_frames_are_left_until_complete() {
    let msg = Message { channel: 4, command: Command::SetPixelColors { pixels: &[[9; 3]; 10] } };
    let bytes = frame_of(msg);
    let mut server = Server::new();
    let mut device = Recorder::new();
    for (fed, byte) in bytes.iter().enumerate() {
        assert_eq!(server.receive(&mut device), INCOMPLETE);
        assert_eq!(server.receive(&mut device), INCOMPLETE);
        assert_eq!(server.skip_frame(), 0);
        assert_eq!(server.buffered(), &bytes[..fed]);
        assert!(device.seen.is_empty());
        assert_eq!(server.feed(&[*byte]), 1);
    }
    assert_eq!(server.receive(&mut device), Ok(()));
    assert_eq!(device.seen, vec![Seen::Pixels(4, vec![[9; 3]; 10])]);
    assert!(server.buffered().is_empty());
    assert_eq!(server.receive(&mut device), INCOMPLETE);
    assert_eq!(device.seen.len(), 1);
}

#[test]
fn delivery_is_the_same_for_every_chunk_size() {
    let pixels: Vec<[u8; 3]> = (0..700u32).map(|i| [i as u8, (i / 3) as u8, 7]).collect();
    let data: Vec<u8> = (0..1500u32).map(|i| (i % 251) as u8).collect();
    let mut stream = frame_of(Message::new(1, Command::SetPixelColors { pixels: &pixels }));
    stream.extend(frame_of(Message::new(0, Command::SystemExclusive { id: [1, 2], data: &data })));
    stream.extend(frame_of(Message::new(9, Command::SetPixelColors { pixels: &[] })));
    let expected = vec![
        Seen::Pixels(1, pixels.clone()),
        Seen::System(0, [1, 2], data.clone()),
        Seen::Pixels(9, vec![]),
    ];
    for chunk_size in [1usize, 2, 3, 4, 5, 7, 64, 1000, 1024, 5000] {
        let mut server = Server::new();
        let mut device = Recorder::new();
        for chunk in stream.chunks(chunk_size) {
            assert_eq!(server.feed(chunk), chunk.len());
            loop {
                let before = server.buffered().to_vec();
                let delivered = device.seen.len();
                match server.receive(&mut device) {
                    Ok(()) => assert_eq!(device.seen.len(), delivered + 1),
                    Err(e) => {
                        assert_eq!(e, ReceiveError::Frame(DecodeError::Incomplete));
                        assert_eq!(server.buffered(), before.as_slice());
                        assert_eq!(device.seen.len(), delivered);
                        break;
                    },
                }
            }
        }
        assert_eq!(device.seen, expected);
        assert!(server.buffered().is_empty());
    }
}

#[test]
fn frames_are_delivered_in_wire_order() {
    let mut server = Server::new();
    let mut device = Recorder::new();
    let mut stream = Vec::new();
    for channel in 0..20u8 {
        stream.extend(frame_of(Message::new(
            channel,
            Command::SetPixelColors { pixels: &[[channel; 3]] },
        )));
    }
    server.feed(&stream);
    for _ in 0..20 {
        assert_eq!(server.receive(&mut device), Ok(()));
    }
    assert_eq!(server.receive(&mut device), INCOMPLETE);
    let expected: Vec<Seen> = (0..20u8).map(|c| Seen::Pixels(c, vec![[c; 3]])).collect();
    assert_eq!(device.seen, expected);
}

#[test]
fn receive_consumes_exactly_one_frame() {
    let mut server = Server::new();
    let mut device = Recorder::new();
    server.feed(&[2, 0, 0, 4, 1, 2, 3, 4, 7, 0xFF, 0]);
    assert_eq!(server.receive(&mut device), Ok(()));
    assert_eq!(device.seen, vec![Seen::Pixels(2, vec![[1, 2, 3]])]);
    assert_eq!(server.buffered(), &[7, 0xFF, 0]);
    assert_eq!(server.receive(&mut device), INCOMPLETE);
    assert_eq!(server.buffered(), &[7, 0xFF, 0]);
}

#[test]
fn unknown_tag_is_skipped_on_request() {
    let valid = Message { channel: 4, command: Command::SetPixelColors { pixels: &[[9; 3]; 10] } };
    let mut stream = vec![0x07, 0x01, 0x00, 0x05, 1, 2, 3, 4, 5];
    stream.extend(frame_of(valid));
    let mut server = Server::new();
    let mut device = Recorder::new();
    server.feed(&stream);

    let unknown = Err(ReceiveError::Frame(DecodeError::UnknownCommand { tag: 1 }));
    assert_eq!(server.receive(&mut device), unknown);
    assert_eq!(server.receive(&mut device), unknown);
    assert_eq!(server.buffered(), stream.as_slice());
    assert!(device.seen.is_empty());

    assert_eq!(server.skip_frame(), 9);
    assert_eq!(server.buffered(), &stream[9..]);
    assert_eq!(server.receive(&mut device), Ok(()));
    assert_eq!(device.seen, vec![Seen::Pixels(4, vec![[9; 3]; 10])]);
    assert!(server.buffered().is_empty());
}

#[test]
fn malformed_frame_is_skipped_on_request() {
    let mut server = Server::new();
    let mut device = Recorder::new();
    server.feed(&[3, 0xFF, 0, 1, 9, 3, 0xFF, 0, 2, 5, 6]);
    assert_eq!(server.receive(&mut device), Err(ReceiveError::Frame(DecodeError::Malformed)));
    assert_eq!(server.buffered().len(), 11);
    assert!(device.seen.is_empty());
    assert_eq!(server.skip_frame(), 5);
    assert_eq!(server.receive(&mut device), Ok(()));
    assert_eq!(device.seen, vec![Seen::System(3, [5, 6], vec![])]);
}

#[test]
fn skip_frame_waits_for_the_whole_frame() {
    let mut server = Server::new();
    server.feed(&[1, 2, 0]);
    assert_eq!(server.skip_frame(), 0);
    server.feed(&[2, 9]);
    assert_eq!(server.skip_frame(), 0);
    assert_eq!(server.buffered(), &[1, 2, 0, 2, 9]);
    server.feed(&[9, 8]);
    assert_eq!(server.skip_frame(), 6);
    assert_eq!(server.buffered(), &[8]);
}

#[test]
fn skip_frame_steps_over_valid_frames_too() {
    let mut server = Server::new();
    let mut device = Recorder::new();
    server.feed(&[1, 0, 0, 3, 1, 2, 3, 2, 0, 0, 0]);
    assert_eq!(server.skip_frame(), 7);
    assert_eq!(server.receive(&mut device), Ok(()));
    assert_eq!(device.seen, vec![Seen::Pixels(2, vec![])]);
}

#[test]
fn device_fault_is_passed_on_and_the_frame_consumed() {
    let mut server = Server::new();
    let mut device = Recorder::new();
    device.refuse = true;
    server.feed(&[6, 0, 0, 3, 1, 2, 3, 7, 0, 0, 0]);
    assert_eq!(
        server.receive(&mut device),
        Err(ReceiveError::Device(String::from("channel 6 is off")))
    );
    assert_eq!(device.seen, vec![Seen::Pixels(6, vec![[1, 2, 3]])]);
    assert_eq!(server.buffered(), &[7, 0, 0, 0]);
    device.refuse = false;
    assert_eq!(server.receive(&mut device), Ok(()));
    assert_eq!(device.seen.len(), 2);
}

#[test]
fn truncated_pixel_frame_is_consumed_whole() {
    let mut server = Server::new();
    let mut device = Recorder::new();
    server.feed(&[1, 0, 0, 5, 1, 2, 3, 4, 5, 1, 0, 0, 4, 6, 7, 8, 9]);
    assert_eq!(server.receive(&mut device), Ok(()));
    assert_eq!(server.receive(&mut device), Ok(()));
    assert_eq!(
        device.seen,
        vec![Seen::Pixels(1, vec![[1, 2, 3]]), Seen::Pixels(1, vec![[6, 7, 8]])]
    );
    assert!(server.buffered().is_empty());
}

#[test]
fn room_is_made_by_receiving() {
    let mut server = Server::new();
    let mut device = Recorder::new();
    let mut stream = vec![1u8, 0, 0xFF, 0xFF];
    stream.extend_from_slice(&vec![3u8; 65535]);
    stream.extend_from_slice(&[2, 0, 0, 0]);
    let taken = server.feed(&stream);
    assert_eq!(taken, 65539);
    assert_eq!(server.receive(&mut device), Ok(()));
    assert_eq!(server.feed(&stream[taken..]), 4);
    assert_eq!(server.receive(&mut device), Ok(()));
    assert_eq!(device.seen.len(), 2);
    assert_eq!(device.seen[1], Seen::Pixels(2, vec![]));
}

#[test]
fn device_reports_its_channel() {
    let device = Recorder::new();
    assert_eq!(device.channel(), 0);
}
