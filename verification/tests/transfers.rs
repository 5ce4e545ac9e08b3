use ssd1306_driver::{BusOp, SSD1306Display, Step, Transfer};

/// A primitive as the recording transport saw it.
#[derive(Clone, Debug, PartialEq, Eq)]
enum Seen {
    Start,
    Address(u8, bool),
    Byte(u8),
    Bytes(Vec<u8>),
    Stop,
}

/// A transport that records what it is asked to do and can be told to fail
/// one primitive, counted from 0, with a given error.
struct Recorder<E> {
    seen: Vec<Seen>,
    failure: Option<(usize, E)>,
}

impl<E> Recorder<E> {
    fn reliable() -> Self {
        Recorder { seen: Vec::new(), failure: None }
    }

    fn failing_at(index: usize, error: E) -> Self {
        Recorder { seen: Vec::new(), failure: Some((index, error)) }
    }

    fn perform(&mut self, op: BusOp) -> Result<(), E> {
        let index = self.seen.len();
        self.seen.push(match op {
            BusOp::Start => Seen::Start,
            BusOp::WriteAddress { addr, read } => Seen::Address(addr, read),
            BusOp::WriteByte(byte) => Seen::Byte(byte),
            BusOp::WriteBytes(bytes) => Seen::Bytes(bytes.to_vec()),
            BusOp::Stop => Seen::Stop,
        });
        if self.failure.as_ref().map(|(at, _)| *at) == Some(index) {
            let (_, error) = self.failure.take().unwrap();
            return Err(error);
        }
        Ok(())
    }

    fn run(&mut self, transfer: Transfer) -> Result<(), E> {
        let mut transfer = transfer;
        loop {
            let outcome = self.perform(transfer.pending());
            match transfer.advance(outcome) {
                Step::Continue(next) => transfer = next,
                Step::Done(result) => return result,
            }
        }
    }
}

fn command(addr: u8, opcode: u8, args: &[u8]) -> Vec<Seen> {
    let mut ops = vec![Seen::Start, Seen::Address(addr, false), Seen::Byte(0x00), Seen::Byte(opcode)];
    for arg in args {
        ops.push(Seen::Byte(*arg));
    }
    ops.push(Seen::Stop);
    ops
}

fn data(addr: u8, payload: &[u8]) -> Vec<Seen> {
    vec![
        Seen::Start,
        Seen::Address(addr, false),
        Seen::Byte(0x40),
        Seen::Bytes(payload.to_vec()),
        Seen::Stop,
    ]
}

fn init_transactions(addr: u8) -> Vec<Vec<Seen>> {
    vec![
        command(addr, 0xae, &[]),
        command(addr, 0xd5, &[0x80]),
        command(addr, 0xa8, &[0x3f]),
        command(addr, 0xd3, &[0x00]),
        command(addr, 0x40, &[]),
        command(addr, 0x8d, &[0x14]),
        command(addr, 0x20, &[0x00]),
        command(addr, 0xa1, &[]),
        command(addr, 0xc8, &[]),
        command(addr, 0xda, &[0x12]),
        command(addr, 0x81, &[0xcf]),
        command(addr, 0xd9, &[0xf1]),
        command(addr, 0xdb, &[0x40]),
        command(addr, 0xa4, &[]),
        command(addr, 0xa6, &[]),
        command(addr, 0x2e, &[]),
        command(addr, 0xaf, &[]),
    ]
}

fn draw_transactions(addr: u8, payload: &[u8]) -> Vec<Vec<Seen>> {
    vec![command(addr, 0x21, &[0, 127]), command(addr, 0x22, &[0, 7]), data(addr, payload)]
}

/// Cuts a recording into transactions, each from a start to its stop, and
/// panics where a primitive stands out of place.
fn transactions(seen: &[Seen]) -> Vec<Vec<Seen>> {
    let mut all = Vec::new();
    let mut open: Option<Vec<Seen>> = None;
    for op in seen {
        match (op, open.take()) {
            (Seen::Start, None) => open = Some(vec![Seen::Start]),
            (Seen::Start, Some(_)) => panic!("a start inside an open transaction"),
            (Seen::Stop, Some(mut current)) => {
                current.push(Seen::Stop);
                all.push(current);
            }
            (other, Some(mut current)) => {
                current.push(other.clone());
                open = Some(current);
            }
            (other, None) => panic!("{:?} outside a transaction", other),
        }
    }
    assert!(open.is_none(), "a transaction was left open");
    all
}

#[test]
fn init_sends_the_seventeen_commands_in_order_and_nothing_else() {
    let mut display = SSD1306Display::new(0x3c);
    let mut bus: Recorder<u32> = Recorder::reliable();
    assert_eq!(bus.run(display.init()), Ok(()));
    assert_eq!(bus.seen.len(), 94);
    assert_eq!(bus.seen, init_transactions(0x3c).concat());
    let sent = transactions(&bus.seen);
    assert_eq!(sent.len(), 17);
    assert_eq!(sent, init_transactions(0x3c));
}

#[test]
fn init_turns_the_display_off_first_and_sets_the_multiplex_ratio_third() {
    let mut display = SSD1306Display::new(0x3c);
    let mut bus: Recorder<u32> = Recorder::reliable();
    assert_eq!(bus.run(display.init()), Ok(()));
    let sent = transactions(&bus.seen);
    assert_eq!(
        sent[0],
        vec![Seen::Start, Seen::Address(0x3c, false), Seen::Byte(0x00), Seen::Byte(0xae), Seen::Stop]
    );
    assert_eq!(
        sent[2],
        vec![
            Seen::Start,
            Seen::Address(0x3c, false),
            Seen::Byte(0x00),
            Seen::Byte(0xa8),
            Seen::Byte(0x3f),
            Seen::Stop,
        ]
    );
}

#[test]
fn init_turns_the_display_on_last() {
    let mut display = SSD1306Display::new(0x3d);
    let mut bus: Recorder<u32> = Recorder::reliable();
    assert_eq!(bus.run(display.init()), Ok(()));
    let sent = transactions(&bus.seen);
    assert_eq!(sent[16], command(0x3d, 0xaf, &[]));
}

#[test]
fn draw_of_a_blank_frame() {
    let mut display = SSD1306Display::new(0x3c);
    let mut bus: Recorder<u32> = Recorder::reliable();
    let frame = [0u8; 1024];
    assert_eq!(bus.run(display.draw(&frame)), Ok(()));
    let sent = transactions(&bus.seen);
    assert_eq!(sent.len(), 3);
    assert_eq!(sent[0], command(0x3c, 0x21, &[0, 127]));
    assert_eq!(sent[1], command(0x3c, 0x22, &[0, 7]));
    assert_eq!(sent[2], data(0x3c, &[0u8; 1024]));
    assert_eq!(bus.seen.len(), 19);
}

#[test]
fn draw_relays_the_payload_unmodified_and_in_order() {
    let mut display = SSD1306Display::new(0x3c);
    let mut bus: Recorder<u32> = Recorder::reliable();
    let frame: Vec<u8> = (0..1024u32).map(|i| (i * 7 + 3) as u8).collect();
    assert_eq!(bus.run(display.draw(&frame)), Ok(()));
    assert_eq!(bus.seen.len(), 19);
    assert_eq!(bus.seen[17], Seen::Bytes(frame.clone()));
    assert_eq!(transactions(&bus.seen), draw_transactions(0x3c, &frame));
}

#[test]
fn draw_does_not_check_the_payload_length() {
    for len in [0usize, 1, 512, 1023, 1025, 4096] {
        let mut display = SSD1306Display::new(0x3c);
        let mut bus: Recorder<u32> = Recorder::reliable();
        let frame = vec![0x5au8; len];
        assert_eq!(bus.run(display.draw(&frame)), Ok(()));
        assert_eq!(transactions(&bus.seen), draw_transactions(0x3c, &frame));
    }
}

#[test]
fn address_is_taken_as_it_is() {
    for addr in [0x00u8, 0x3c, 0x3d, 0x7f, 0x80, 0xff] {
        let mut display = SSD1306Display::new(addr);
        let mut bus: Recorder<u32> = Recorder::reliable();
        assert_eq!(bus.run(display.init()), Ok(()));
        assert_eq!(transactions(&bus.seen), init_transactions(addr));
        let mut bus: Recorder<u32> = Recorder::reliable();
        assert_eq!(bus.run(display.draw(&[1, 2, 3])), Ok(()));
        assert_eq!(transactions(&bus.seen), draw_transactions(addr, &[1, 2, 3]));
    }
}

#[test]
fn failure_of_the_fifth_primitive_ends_init_with_that_error() {
    let mut display = SSD1306Display::new(0x3c);
    let mut bus = Recorder::failing_at(4, "no acknowledge");
    assert_eq!(bus.run(display.init()), Err("no acknowledge"));
    assert_eq!(bus.seen.len(), 5);
    assert_eq!(bus.seen, init_transactions(0x3c).concat()[..5].to_vec());
}

#[test]
fn failure_of_an_address_write_ends_init_with_that_error() {
    let mut display = SSD1306Display::new(0x3c);
    let mut bus = Recorder::failing_at(1, "no acknowledge");
    assert_eq!(bus.run(display.init()), Err("no acknowledge"));
    assert_eq!(bus.seen, vec![Seen::Start, Seen::Address(0x3c, false)]);

    let mut bus = Recorder::failing_at(6, "arbitration lost");
    assert_eq!(bus.run(display.init()), Err("arbitration lost"));
    assert_eq!(bus.seen.len(), 7);
    assert_eq!(bus.seen[5], Seen::Start);
    assert_eq!(bus.seen[6], Seen::Address(0x3c, false));
    assert_eq!(bus.seen, init_transactions(0x3c).concat()[..7].to_vec());
}

#[test]
fn failure_at_any_primitive_of_init_ends_it_there() {
    let script = init_transactions(0x3c).concat();
    for failing in 0..script.len() {
        let mut display = SSD1306Display::new(0x3c);
        let mut bus = Recorder::failing_at(failing, failing);
        assert_eq!(bus.run(display.init()), Err(failing));
        assert_eq!(bus.seen, script[..failing + 1].to_vec());
    }
}

#[test]
fn failure_at_any_primitive_of_draw_ends_it_there() {
    let frame = [0xffu8; 1024];
    let script = draw_transactions(0x3c, &frame).concat();
    assert_eq!(script.len(), 19);
    for failing in 0..script.len() {
        let mut display = SSD1306Display::new(0x3c);
        let mut bus = Recorder::failing_at(failing, failing);
        assert_eq!(bus.run(display.draw(&frame)), Err(failing));
        assert_eq!(bus.seen, script[..failing + 1].to_vec());
    }
}

#[test]
fn failure_of_the_first_start_sends_nothing_more() {
    let mut display = SSD1306Display::new(0x3c);
    let mut bus = Recorder::failing_at(0, 9u8);
    assert_eq!(bus.run(display.draw(&[1, 2, 3])), Err(9));
    assert_eq!(bus.seen, vec![Seen::Start]);
}

#[test]
fn failure_of_the_last_stop_still_fails_the_operation() {
    let mut display = SSD1306Display::new(0x3c);
    let mut bus = Recorder::failing_at(93, 1u8);
    assert_eq!(bus.run(display.init()), Err(1));
    assert_eq!(bus.seen.len(), 94);

    let mut bus = Recorder::failing_at(18, 2u8);
    assert_eq!(bus.run(display.draw(&[0; 8])), Err(2));
    assert_eq!(bus.seen.len(), 19);
}

#[test]
fn no_stop_is_sent_after_a_failure() {
    let mut display = SSD1306Display::new(0x3c);
    let mut bus = Recorder::failing_at(3, 5u8);
    assert_eq!(bus.run(display.init()), Err(5));
    assert_eq!(
        bus.seen,
        vec![Seen::Start, Seen::Address(0x3c, false), Seen::Byte(0x00), Seen::Byte(0xae)]
    );
}

#[test]
fn error_is_handed_back_as_the_transport_gave_it() {
    let mut display = SSD1306Display::new(0x3c);
    let error = String::from("bus timeout after 25 ms");
    let address = error.as_ptr();
    let mut bus = Recorder::failing_at(40, error);
    let result = bus.run(display.init());
    let returned = result.unwrap_err();
    assert_eq!(returned, "bus timeout after 25 ms");
    assert_eq!(returned.as_ptr(), address);
}

#[test]
fn every_start_is_closed_by_one_stop_before_the_next_start() {
    let mut display = SSD1306Display::new(0x3c);
    let mut bus: Recorder<u32> = Recorder::reliable();
    assert_eq!(bus.run(display.init()), Ok(()));
    assert_eq!(bus.run(display.draw(&[0u8; 1024])), Ok(()));
    let starts = bus.seen.iter().filter(|op| **op == Seen::Start).count();
    let stops = bus.seen.iter().filter(|op| **op == Seen::Stop).count();
    assert_eq!(starts, 20);
    assert_eq!(stops, 20);
    assert_eq!(transactions(&bus.seen).len(), 20);
}

#[test]
fn init_can_be_run_again_after_a_failure() {
    let mut display = SSD1306Display::new(0x3c);
    let mut bus = Recorder::failing_at(10, 3u8);
    assert_eq!(bus.run(display.init()), Err(3));
    let mut bus: Recorder<u8> = Recorder::reliable();
    assert_eq!(bus.run(display.init()), Ok(()));
    assert_eq!(transactions(&bus.seen), init_transactions(0x3c));
}

#[test]
fn advance_step_by_step() {
    let mut display = SSD1306Display::new(0x3c);
    let transfer = display.draw(&[0xaa, 0x55]);
    assert_eq!(transfer.pending(), BusOp::Start);
    assert_eq!(transfer.pending(), BusOp::Start);
    let transfer = match transfer.advance::<u8>(Ok(())) {
        Step::Continue(next) => next,
        Step::Done(_) => panic!("ended after one primitive"),
    };
    assert_eq!(transfer.pending(), BusOp::WriteAddress { addr: 0x3c, read: false });
    match transfer.advance(Err(0x20u8)) {
        Step::Continue(_) => panic!("went on after a failure"),
        Step::Done(result) => assert_eq!(result, Err(0x20)),
    }
}

#[test]
fn last_success_ends_the_operation() {
    let mut display = SSD1306Display::new(0x3c);
    let mut transfer = display.draw(&[]);
    for _ in 0..18 {
        transfer = match transfer.advance::<u8>(Ok(())) {
            Step::Continue(next) => next,
            Step::Done(_) => panic!("ended early"),
        };
    }
    assert_eq!(transfer.pending(), BusOp::Stop);
    match transfer.advance::<u8>(Ok(())) {
        Step::Continue(_) => panic!("went on past the last stop"),
        Step::Done(result) => assert_eq!(result, Ok(())),
    }
}
