use dfu_nusb::descriptor::DfuDescriptor;
use dfu_nusb::engine::{Dfu, Event, Request, Step};
use dfu_nusb::{Error, MemoryLayout, Status, UsbError};

const IDLE: u8 = 2;
const BUSY: u8 = 4;
const DOWNLOAD_IDLE: u8 = 5;

#[derive(Debug, Clone, PartialEq)]
enum Logged {
    Out { request: u8, value: u16, data: Vec<u8> },
    In { request: u8, value: u16, length: u16 },
    Sleep(u64),
}

/// A DfuSe device: a command or a chunk is reported busy on the first status
/// read and done on the next; ABORT returns to idle.
struct Mock {
    state: u8,
    after_poll: Option<u8>,
    pointer: u32,
    base: u32,
    memory: Vec<u8>,
    transfer: u32,
    stall_next_download: bool,
    set_address_done_at_once: bool,
    gone: bool,
    log: Vec<Logged>,
}

impl Mock {
    fn new(state: u8) -> Mock {
        Mock {
            state,
            after_poll: None,
            pointer: 0,
            base: 0x0801_0000,
            memory: Vec::new(),
            transfer: 1024,
            stall_next_download: false,
            set_address_done_at_once: false,
            gone: false,
            log: Vec::new(),
        }
    }

    fn control_out(&mut self, request: u8, value: u16, data: &[u8]) -> Result<(), UsbError> {
        if self.gone {
            return Err(UsbError::Disconnected);
        }
        match request {
            1 => {
                if self.stall_next_download {
                    self.stall_next_download = false;
                    return Err(UsbError::Stall);
                }
                if value == 2 && data.is_empty() {
                    self.gone = true;
                    return Ok(());
                }
                if value == 0 && data.len() == 5 && data[0] == 0x21 {
                    self.pointer = u32::from_le_bytes([data[1], data[2], data[3], data[4]]);
                    if self.set_address_done_at_once {
                        self.state = DOWNLOAD_IDLE;
                        self.after_poll = None;
                        return Ok(());
                    }
                }
                self.state = BUSY;
                self.after_poll = Some(DOWNLOAD_IDLE);
            }
            4 | 6 => {
                self.state = IDLE;
                self.after_poll = None;
            }
            _ => {}
        }
        Ok(())
    }

    fn control_in(&mut self, request: u8, value: u16, length: u16) -> Result<Vec<u8>, UsbError> {
        if self.gone {
            return Err(UsbError::Disconnected);
        }
        match request {
            3 => {
                let reply = vec![0, 0, 0, 0, self.state, 0];
                if let Some(next) = self.after_poll.take() {
                    self.state = next;
                }
                Ok(reply)
            }
            2 => {
                let start = (self.pointer - self.base) as usize
                    + (value as usize - 2) * self.transfer as usize;
                let end = (start + length as usize).min(self.memory.len());
                Ok(self.memory[start.min(end)..end].to_vec())
            }
            _ => Err(UsbError::Fault),
        }
    }
}

fn drive(dfu: &mut Dfu, dev: &mut Mock) -> Result<(), Error> {
    let mut event = Event::Begin;
    for _ in 0..100_000 {
        match dfu.step(event) {
            Step::Finished(r) => return r,
            Step::Perform(Request::ControlOut { request, value, index, data }) => {
                assert_eq!(0, index);
                dev.log.push(Logged::Out { request, value, data: data.clone() });
                event = Event::OutDone(dev.control_out(request, value, &data));
            }
            Step::Perform(Request::ControlIn { request, value, index, length }) => {
                assert_eq!(0, index);
                dev.log.push(Logged::In { request, value, length });
                event = Event::InDone(dev.control_in(request, value, length));
            }
            Step::Perform(Request::Sleep { millis }) => {
                dev.log.push(Logged::Sleep(millis));
                event = Event::Slept;
            }
        }
    }
    panic!("procedure did not finish");
}

fn engine(layout: &str) -> Dfu {
    let desc = DfuDescriptor::new(&[9, 0x21, 0x0B, 0xFF, 0x00, 0x00, 0x04, 0x1A, 0x01]).unwrap();
    Dfu::new(0, desc, MemoryLayout::from_str(layout).unwrap())
}

fn downloads(log: &[Logged]) -> Vec<(u16, Vec<u8>)> {
    log.iter()
        .filter_map(|l| match l {
            Logged::Out { request: 1, value, data } => Some((*value, data.clone())),
            _ => None,
        })
        .collect()
}

fn set_address(a: u32) -> Vec<u8> {
    let b = a.to_le_bytes();
    vec![0x21, b[0], b[1], b[2], b[3]]
}

fn payload() -> Vec<u8> {
    (0..3072u32).map(|i| (i * 7 % 251) as u8).collect()
}

#[test]
fn open_from_idle_reads_status_once() {
    let mut dfu = engine("/0x08010000/01*16K");
    let mut dev = Mock::new(IDLE);
    assert!(drive(&mut dfu, &mut dev).is_ok());
    assert_eq!(vec![Logged::In { request: 3, value: 0, length: 6 }], dev.log);
}

#[test]
fn open_from_error_aborts_then_clears() {
    let mut dfu = engine("/0x08010000/01*16K");
    let mut dev = Mock::new(10);
    dev.after_poll = Some(10);
    assert!(drive(&mut dfu, &mut dev).is_ok());
    assert_eq!(Logged::Out { request: 6, value: 0, data: vec![] }, dev.log[1]);
}

#[test]
fn download_issues_erase_then_addressed_chunks() {
    let mut dfu = engine("/0x08010000/01*16K");
    let mut dev = Mock::new(IDLE);
    dfu.download_raw(payload(), 0x0801_0000, 3072);
    assert!(drive(&mut dfu, &mut dev).is_ok());
    let data = payload();
    let expected = vec![
        (0, vec![0x41, 0x00, 0x00, 0x01, 0x08]),
        (0, set_address(0x0801_0000)),
        (2, data[0..1024].to_vec()),
        (0, set_address(0x0801_0400)),
        (3, data[1024..2048].to_vec()),
        (0, set_address(0x0801_0800)),
        (4, data[2048..3072].to_vec()),
    ];
    assert_eq!(expected, downloads(&dev.log));
    let n = dev.log.len();
    assert_eq!(Logged::Out { request: 6, value: 0, data: vec![] }, dev.log[n - 2]);
}

#[test]
fn verify_matching_flash() {
    let mut dfu = engine("/0x08010000/01*16K");
    let mut dev = Mock::new(IDLE);
    dev.memory = payload();
    dfu.verify(payload(), 0x0801_0000, 3072);
    assert!(drive(&mut dfu, &mut dev).is_ok());
    let uploads: Vec<u16> = dev
        .log
        .iter()
        .filter_map(|l| match l {
            Logged::In { request: 2, value, .. } => Some(*value),
            _ => None,
        })
        .collect();
    assert_eq!(vec![2, 3, 4], uploads);
}

#[test]
fn verify_reports_first_differing_address() {
    let mut dfu = engine("/0x08010000/01*16K");
    let mut dev = Mock::new(IDLE);
    dev.memory = payload();
    dev.memory[17] ^= 0xFF;
    dfu.verify(payload(), 0x0801_0000, 3072);
    assert!(matches!(drive(&mut dfu, &mut dev), Err(Error::Verify(0x0801_0011))));
}

#[test]
fn upload_collects_flash() {
    let mut dfu = engine("/0x08010000/01*16K");
    let mut dev = Mock::new(IDLE);
    dev.memory = payload();
    dfu.upload(0x0801_0000, 2500);
    assert!(drive(&mut dfu, &mut dev).is_ok());
    assert_eq!(&payload()[0..2500], dfu.data().as_slice());
}

#[test]
fn reset_detaches_and_close_does_nothing() {
    let mut dfu = engine("/0x08010000/01*16K");
    let mut dev = Mock::new(IDLE);
    dev.set_address_done_at_once = true;
    dfu.reset_stm32(0x0800_0000);
    assert!(drive(&mut dfu, &mut dev).is_ok());
    assert_eq!(vec![(0, set_address(0x0800_0000)), (2, vec![])], downloads(&dev.log));
    assert_eq!(Some(&Logged::In { request: 3, value: 0, length: 6 }), dev.log.last());
    assert!(dfu.detached());
    let requests = dev.log.iter().filter(|l| !matches!(l, Logged::Sleep(_))).count();
    assert_eq!(4, requests);
    let before = dev.log.len();
    dfu.close();
    assert!(drive(&mut dfu, &mut dev).is_ok());
    assert_eq!(before, dev.log.len());
}

#[test]
fn close_waits_for_idle() {
    let mut dfu = engine("/0x08010000/01*16K");
    let mut dev = Mock::new(BUSY);
    dev.after_poll = Some(BUSY);
    dfu.close();
    assert!(drive(&mut dfu, &mut dev).is_ok());
    assert!(dev.log.contains(&Logged::Out { request: 6, value: 0, data: vec![] }));
}

#[test]
fn stalled_download_aborts_and_pauses() {
    let mut dfu = engine("/0x08010000/01*16K");
    let mut dev = Mock::new(IDLE);
    dev.stall_next_download = true;
    dfu.set_address(0x0801_0000);
    let r = drive(&mut dfu, &mut dev);
    assert_eq!(Logged::Out { request: 6, value: 0, data: vec![] }, dev.log[1]);
    assert_eq!(Logged::In { request: 3, value: 0, length: 6 }, dev.log[2]);
    assert_eq!(Logged::Sleep(10), dev.log[3]);
    assert_eq!(Logged::In { request: 3, value: 0, length: 6 }, dev.log[4]);
    assert!(matches!(r, Err(Error::InvalidState(_, dfu_nusb::State::DfuDownloadIdle))));
}

#[test]
fn erase_realigns_to_page_start() {
    let mut dfu = engine("/0x08010000/02*16K,01*64K");
    let mut dev = Mock::new(IDLE);
    dfu.erase_pages(0x0801_0100, 0x4001);
    assert!(drive(&mut dfu, &mut dev).is_ok());
    let erased: Vec<Vec<u8>> = downloads(&dev.log).into_iter().map(|(_, d)| d).collect();
    assert_eq!(vec![vec![0x41, 0x00, 0x00, 0x01, 0x08], vec![0x41, 0x00, 0x40, 0x01, 0x08]], erased);
}

#[test]
fn erase_outside_layout_fails_with_address() {
    let mut dfu = engine("/0x08010000/01*16K");
    let mut dev = Mock::new(IDLE);
    dfu.erase_pages(0x0900_0000, 16);
    assert!(matches!(drive(&mut dfu, &mut dev), Err(Error::Address(0x0900_0000))));
}

#[test]
fn mass_erase_sequence() {
    let mut dfu = engine("/0x08010000/01*16K");
    let mut dev = Mock::new(IDLE);
    dfu.mass_erase();
    assert!(drive(&mut dfu, &mut dev).is_ok());
    assert_eq!(vec![(0, vec![0x41])], downloads(&dev.log));
}

#[test]
fn wait_reports_wrong_state() {
    let mut dfu = engine("/0x08010000/01*16K");
    let mut dev = Mock::new(IDLE);
    dfu.status_wait_for(0, None);
    let r = drive(&mut dfu, &mut dev);
    assert!(matches!(r, Err(Error::InvalidState(_, dfu_nusb::State::DfuDownloadBusy))));
    let reads = dev.log.iter().filter(|l| matches!(l, Logged::In { request: 3, .. })).count();
    assert_eq!(1, reads);
}

#[test]
fn wait_polls_at_most_retries_plus_one_times() {
    let mut dfu = engine("/0x08010000/01*16K");
    let mut dev = Mock::new(IDLE);
    dfu.status_wait_for(3, Some(dfu_nusb::State::DfuDownloadIdle));
    let r = drive(&mut dfu, &mut dev);
    assert!(matches!(r, Err(Error::InvalidState(_, dfu_nusb::State::DfuDownloadIdle))));
    let reads = dev.log.iter().filter(|l| matches!(l, Logged::In { request: 3, .. })).count();
    let pauses = dev.log.iter().filter(|l| **l == Logged::Sleep(100)).count();
    assert_eq!((4, 3), (reads, pauses));
}

#[test]
fn wait_reports_nonzero_status() {
    let mut dfu = engine("/0x08010000/01*16K");
    dfu.status_wait_for(0, Some(dfu_nusb::State::DfuIdle));
    let mut event = Event::Begin;
    let mut answered = false;
    loop {
        match dfu.step(event) {
            Step::Finished(r) => {
                assert!(matches!(r, Err(Error::InvalidStatus(Status { status: 3, .. }, 0))));
                break;
            }
            Step::Perform(Request::ControlIn { request: 3, .. }) => {
                assert!(!answered);
                answered = true;
                event = Event::InDone(Ok(vec![3, 0, 0, 0, IDLE, 0]));
            }
            other => panic!("unexpected {:?}", other),
        }
    }
}

#[test]
fn status_read_retries_after_stall_and_short_reply() {
    let mut dfu = engine("/0x08010000/01*16K");
    dfu.get_status(2);
    let first = dfu.step(Event::Begin);
    assert!(matches!(first, Step::Perform(Request::ControlIn { request: 3, .. })));
    let s = dfu.step(Event::InDone(Err(UsbError::Stall)));
    assert!(matches!(s, Step::Perform(Request::Sleep { millis: 3000 })));
    let s = dfu.step(Event::Slept);
    assert!(matches!(s, Step::Perform(Request::ControlIn { request: 3, .. })));
    let s = dfu.step(Event::InDone(Ok(vec![0, 0])));
    assert!(matches!(s, Step::Perform(Request::Sleep { millis: 100 })));
    let s = dfu.step(Event::Slept);
    assert!(matches!(s, Step::Perform(Request::ControlIn { request: 3, .. })));
    let s = dfu.step(Event::InDone(Ok(vec![0, 0, 0, 9, IDLE, 0])));
    assert!(matches!(s, Step::Finished(Ok(()))));
    assert_eq!(Some(9), dfu.last_status().map(|s| s.poll_timeout));
}

#[test]
fn status_read_gives_up_after_retries() {
    let mut dfu = engine("/0x08010000/01*16K");
    dfu.get_status(0);
    dfu.step(Event::Begin);
    let s = dfu.step(Event::InDone(Err(UsbError::Stall)));
    assert!(matches!(s, Step::Perform(Request::Sleep { millis: 3000 })));
    let s = dfu.step(Event::Slept);
    assert!(matches!(s, Step::Finished(Err(Error::USB(_, UsbError::Stall)))));
}

#[test]
fn supported_commands_listed() {
    let mut dfu = engine("/0x08010000/01*16K");
    let mut dev = Mock::new(IDLE);
    dev.memory = vec![0x00, 0x21, 0x41, 0x92];
    dev.pointer = dev.base;
    dev.transfer = 0;
    dfu.dfuse_get_commands();
    let mut event = Event::Begin;
    loop {
        match dfu.step(event) {
            Step::Finished(r) => {
                assert!(r.is_ok());
                break;
            }
            Step::Perform(Request::ControlOut { request, value, data, .. }) => {
                event = Event::OutDone(dev.control_out(request, value, &data));
            }
            Step::Perform(Request::ControlIn { request: 2, value, length, .. }) => {
                assert_eq!((0, 1024), (value, length));
                event = Event::InDone(Ok(dev.memory.clone()));
            }
            Step::Perform(Request::ControlIn { request, value, length, .. }) => {
                event = Event::InDone(dev.control_in(request, value, length));
            }
            Step::Perform(Request::Sleep { .. }) => event = Event::Slept,
        }
    }
    assert_eq!(3, dfu.commands().len());
}

#[test]
fn write_from_slice_needs_short_buffer() {
    let mut dfu = engine("/0x08010000/01*16K");
    assert!(matches!(dfu.write_flash_from_slice(0x0801_0000, vec![0; 1024]), Err(Error::Argument(_))));
    assert!(dfu.write_flash_from_slice(0x0801_0000, vec![1; 16]).is_ok());
    let mut dev = Mock::new(IDLE);
    assert!(drive(&mut dfu, &mut dev).is_ok());
    assert_eq!((2, vec![1; 16]), downloads(&dev.log)[2]);
}

#[test]
fn erase_reports_where_the_walk_left_the_layout() {
    let mut dfu = engine("/0x08010000/01*16K");
    let mut dev = Mock::new(IDLE);
    dfu.erase_pages(0x0801_0000, 0x4001);
    assert!(matches!(drive(&mut dfu, &mut dev), Err(Error::Address(0x0801_4000))));
    assert!(downloads(&dev.log).is_empty());
}

#[test]
fn reset_ignores_failed_final_status_read() {
    let mut dfu = engine("/0x08010000/01*16K");
    let mut dev = Mock::new(IDLE);
    dev.set_address_done_at_once = true;
    dfu.reset_stm32(0x0800_0000);
    assert!(drive(&mut dfu, &mut dev).is_ok());
    assert!(dev.gone);
    assert!(dfu.detached());
}
