use dfu_nusb::descriptor::DfuDescriptor;
use dfu_nusb::plan::{compare_chunk, parse_commands};
use dfu_nusb::{DfuseCommand, Error, State, Status, Transaction};
use std::convert::TryFrom;

#[test]
fn test_dfuse_command() {
    let vec = Vec::from(DfuseCommand::MassErase);
    assert_eq!(1, vec.len());
    assert_eq!(&vec![0x41], &vec);

    let vec = Vec::from(DfuseCommand::ReadUnprotected);
    assert_eq!(1, vec.len());
    assert_eq!(&vec![0x92], &vec);

    let vec = Vec::from(DfuseCommand::SetAddress(0x0801_0000));
    assert_eq!(5, vec.len());
    assert_eq!(&vec![0x21, 0x00, 0x00, 0x01, 0x08], &vec);

    let vec = Vec::from(DfuseCommand::ErasePage(0x0801_0200));
    assert_eq!(5, vec.len());
    assert_eq!(&vec![0x41, 0x00, 0x02, 0x01, 0x08], &vec);
}

#[test]
fn address_commands_are_little_endian() {
    let a: u32 = 0x1234_5678;
    assert_eq!(vec![0x21, 0x78, 0x56, 0x34, 0x12], DfuseCommand::SetAddress(a).encode());
    assert_eq!(vec![0x41, 0x78, 0x56, 0x34, 0x12], DfuseCommand::ErasePage(a).encode());
    assert_eq!(vec![0x21, 0xFF, 0xFF, 0xFF, 0xFF], DfuseCommand::SetAddress(u32::MAX).encode());
    assert_eq!(DfuseCommand::ErasePage(a).encode(), Vec::<u8>::from(DfuseCommand::ErasePage(a)));
}

#[test]
fn decode_command_bytes() {
    assert_eq!(DfuseCommand::SetAddress(0), DfuseCommand::try_from(0x21u8).unwrap());
    assert_eq!(DfuseCommand::MassErase, DfuseCommand::try_from(0x41u8).unwrap());
    assert_eq!(DfuseCommand::ReadUnprotected, DfuseCommand::try_from(0x92u8).unwrap());
    assert!(matches!(DfuseCommand::try_from(0x00u8), Err(Error::UnknownCommandByte(0))));
}

#[test]
fn state_byte_round_trip() {
    let all = [
        State::AppIdle,
        State::AppDetach,
        State::DfuIdle,
        State::DfuDownloadSync,
        State::DfuDownloadBusy,
        State::DfuDownloadIdle,
        State::DfuManifestSync,
        State::DfuManifest,
        State::DfuManifestWaitReset,
        State::DfuUploadIdle,
        State::DfuError,
        State::Unknown,
    ];
    for (i, s) in all.iter().enumerate() {
        let b = u8::from(s);
        assert_eq!(*s, State::from(b));
        if i < 11 {
            assert_eq!(i as u8, b);
        }
    }
    assert_eq!(255, u8::from(&State::Unknown));
    assert_eq!(State::Unknown, State::from(11));
    assert_eq!(State::Unknown, State::from(200));
}

#[test]
fn status_reply_fields() {
    let s = Status::parse(&[0, 0x01, 0x02, 0x03, 4, 7]).unwrap();
    assert_eq!(0, s.status);
    assert_eq!(0x010203, s.poll_timeout);
    assert_eq!(4, s.state);
    assert_eq!(7, s.string_index);
    assert!(matches!(Status::parse(&[0, 1, 2, 3, 4]), Err(Error::InvalidControlResponse(_))));
    assert!(matches!(Status::parse(&[0; 7]), Err(Error::InvalidControlResponse(_))));
}

#[test]
fn transaction_three_whole_chunks() {
    let x: u16 = 1024;
    let a: u32 = 0x0800_0000;
    let mut t = Transaction::new(a, 3 * x as u32, x);
    assert_eq!((x, 2, a), (t.xfer, t.transaction, t.address));
    assert!(t.next().is_some());
    assert_eq!((x, 3, a + x as u32), (t.xfer, t.transaction, t.address));
    assert!(t.next().is_some());
    assert_eq!((x, 4, a + 2 * x as u32), (t.xfer, t.transaction, t.address));
    assert!(t.next().is_none());
    assert_eq!(0, t.xfer);
}

#[test]
fn transaction_chunk_and_one_byte() {
    let x: u16 = 2048;
    let a: u32 = 0x0801_0000;
    let mut t = Transaction::new(a, x as u32 + 1, x);
    assert_eq!((x, 2, a), (t.xfer, t.transaction, t.address));
    assert!(t.next().is_some());
    assert_eq!((1, 3, a + x as u32), (t.xfer, t.transaction, t.address));
    assert!(t.next().is_none());
    assert_eq!(0, t.xfer);
}

#[test]
fn transaction_empty_job() {
    let t = Transaction::new(0x100, 0, 64);
    assert_eq!(0, t.xfer);
}

#[test]
fn functional_descriptor_fields() {
    let d = DfuDescriptor::new(&[9, 0x21, 0x0B, 0xFF, 0x00, 0x00, 0x08, 0x1A, 0x01]).unwrap();
    assert_eq!(0x0B, d.attributes);
    assert_eq!(0x00FF, d.detach_timeout);
    assert_eq!(2048, d.transfer_size);
    assert_eq!(0x01, d.dfu_version);
    assert!(DfuDescriptor::new(&[7, 0x21, 0, 0, 0, 0, 0, 0, 0]).is_none());
    assert!(DfuDescriptor::new(&[9, 0x04, 0, 0, 0, 0, 0, 0, 0]).is_none());
    assert!(DfuDescriptor::new(&[9, 0x21, 0]).is_none());
}

#[test]
fn supported_commands_reply() {
    let v = parse_commands(&[0x00, 0x21, 0x41, 0x92]).unwrap();
    assert_eq!(
        vec![DfuseCommand::SetAddress(0), DfuseCommand::MassErase, DfuseCommand::ReadUnprotected],
        v
    );
    assert!(matches!(parse_commands(&[0x01, 0x21]), Err(Error::InvalidControlResponse(_))));
    assert!(matches!(parse_commands(&[]), Err(Error::InvalidControlResponse(_))));
    assert!(matches!(parse_commands(&[0x00, 0x21, 0x33]), Err(Error::UnknownCommandByte(0x33))));
}

#[test]
fn chunk_comparison() {
    assert!(compare_chunk(0x100, &[1, 2, 3], &[1, 2, 3]).is_ok());
    assert!(matches!(compare_chunk(0x100, &[1, 9, 3], &[1, 2, 3]), Err(Error::Verify(0x101))));
}

#[test]
fn exit_codes() {
    assert_eq!(64, i32::from(Error::DeviceNotFound(String::new())));
    assert_eq!(65, Error::Argument(String::new()).exit_code());
    assert_eq!(66, Error::USB(String::new(), dfu_nusb::UsbError::Stall).exit_code());
    assert_eq!(68, Error::InvalidControlResponse(String::new()).exit_code());
    assert_eq!(71, Error::FileIO(String::new()).exit_code());
    assert_eq!(72, Error::UnknownCommandByte(1).exit_code());
    assert_eq!(73, Error::Address(1).exit_code());
    assert_eq!(74, Error::Verify(1).exit_code());
    assert_eq!(75, Error::MemoryLayout(String::new()).exit_code());
}
