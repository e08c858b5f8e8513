use zeroos::{IoctlCommand, IoctlDir};

#[test]
fn encode_packs_the_documented_layout() {
    let cmd = IoctlCommand::new(IoctlDir::Write, 0x7a, 1, 4);
    assert_eq!(cmd.to_raw(), 0x4004_7a01);
    let cmd = IoctlCommand::new(IoctlDir::Read, 0x54, 2, 8);
    assert_eq!(cmd.to_raw(), 0x8008_5402);
    let cmd = IoctlCommand::new(IoctlDir::ReadWrite, 0xff, 0xff, 0x3fff);
    assert_eq!(cmd.to_raw(), 0xffff_ffff);
    let cmd = IoctlCommand::new(IoctlDir::NoData, 0, 0, 0);
    assert_eq!(cmd.to_raw(), 0);
}

#[test]
fn decode_unpacks_the_documented_layout() {
    let cmd = IoctlCommand::from_raw(0x8004_5701);
    assert_eq!(cmd.dir, IoctlDir::Read);
    assert_eq!(cmd.size, 4);
    assert_eq!(cmd.magic, 0x57);
    assert_eq!(cmd.nr, 1);

    let cmd = IoctlCommand::from_raw(0x4000_1200);
    assert_eq!(cmd.dir, IoctlDir::Write);
    assert_eq!(cmd.size, 0);
    assert_eq!(cmd.magic, 0x12);
    assert_eq!(cmd.nr, 0);

    let cmd = IoctlCommand::from_raw(0x0000_5401);
    assert_eq!(cmd.dir, IoctlDir::NoData);
}

#[test]
fn command_round_trips_through_raw() {
    for dir in [IoctlDir::NoData, IoctlDir::Read, IoctlDir::Write, IoctlDir::ReadWrite] {
        let cmd = IoctlCommand::new(dir, 0x7a, 0x33, 100);
        assert_eq!(IoctlCommand::from_raw(cmd.to_raw()), cmd);
    }
}

#[test]
fn raw_round_trips_through_command() {
    for raw in [0usize, 1, 0x5401, 0x8004_5701, 0x4004_7a01, 0xffff_ffff, 0x3fff_0000] {
        assert_eq!(IoctlCommand::from_raw(raw).to_raw(), raw);
    }
}

#[test]
fn boundary_size_round_trips() {
    let cmd = IoctlCommand::new(IoctlDir::Read, 0x40, 7, 16383);
    assert_eq!(cmd.size, 16383);
    let back = IoctlCommand::from_raw(cmd.to_raw());
    assert_eq!(back, cmd);
    assert_eq!(back.size, 16383);
}

#[test]
fn from_u8_reads_the_enum_order() {
    assert_eq!(IoctlDir::from_u8(0), IoctlDir::NoData);
    assert_eq!(IoctlDir::from_u8(1), IoctlDir::Read);
    assert_eq!(IoctlDir::from_u8(2), IoctlDir::Write);
    assert_eq!(IoctlDir::from_u8(3), IoctlDir::ReadWrite);
    assert_eq!(IoctlDir::from_u8(7), IoctlDir::ReadWrite);
    assert_eq!(IoctlDir::from_u8(4), IoctlDir::NoData);
}
