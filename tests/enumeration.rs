use win_partlist::enumeration::{Enumeration, HostAction, HostEvent, Phase};
use win_partlist::error::ListError;
use win_partlist::layout::{DiskHeader, HeaderPayload, RawPartitionRecord};
use win_partlist::query::{
    next_query_step, ControlOutcome, OpenOutcome, QueryStep, INITIAL_CAPACITY,
    INSUFFICIENT_BUFFER,
};
use win_partlist::types::{Disk, PartitionExtra, PartitionStyle};
use win_partlist::{
    decode_layout, disks_from_layouts, next_enum_action, probe_response, DeviceProbe, EnumAction,
    MAX_DISKS,
};

const HEADER: usize = 48;
const RECORD: usize = 144;

#[derive(Clone)]
enum Device {
    /// Answers "too small" while the buffer is shorter than the response.
    Present(Vec<u8>),
    Missing,
    Denied(i32),
    Failing(i32),
}

struct FakeHost {
    devices: Vec<Device>,
    current: Option<usize>,
    opened: Vec<u32>,
    capacities: Vec<usize>,
    closes: usize,
}

impl FakeHost {
    fn new(devices: Vec<Device>) -> Self {
        FakeHost { devices, current: None, opened: vec![], capacities: vec![], closes: 0 }
    }

    fn open(&mut self, index: u32) -> OpenOutcome {
        self.opened.push(index);
        match self.devices.get(index as usize) {
            None | Some(Device::Missing) => OpenOutcome::NotFound,
            Some(Device::Denied(code)) => OpenOutcome::Denied(*code),
            Some(_) => {
                assert!(self.current.is_none(), "two devices open at once");
                self.current = Some(index as usize);
                OpenOutcome::Opened
            }
        }
    }

    fn request_layout(&mut self, buffer: &mut Vec<u8>) -> ControlOutcome {
        self.capacities.push(buffer.len());
        match &self.devices[self.current.expect("no device open")] {
            Device::Present(response) => {
                if buffer.len() < response.len() {
                    ControlOutcome::TooSmall
                } else {
                    buffer[..response.len()].copy_from_slice(response);
                    for b in buffer[response.len()..].iter_mut() {
                        *b = 0xEE;
                    }
                    ControlOutcome::Written(response.len() as u32)
                }
            }
            Device::Failing(code) => ControlOutcome::Failed(*code),
            Device::Missing | Device::Denied(_) => unreachable!(),
        }
    }

    fn close(&mut self) {
        assert!(self.current.take().is_some(), "closed twice");
        self.closes += 1;
    }
}

/// Runs the enumeration against the fake host.
fn run(host: &mut FakeHost, max_index: u32) -> Result<Vec<(DiskHeader, Vec<RawPartitionRecord>)>, ListError> {
    let (mut machine, mut action) = Enumeration::start(max_index);
    loop {
        let event = match action {
            HostAction::Finish(result) => return result,
            HostAction::Open(index) => HostEvent::Opened(host.open(index)),
            HostAction::Request(capacity) => {
                let mut buffer = vec![0u8; capacity];
                let outcome = host.request_layout(&mut buffer);
                HostEvent::Answered(outcome, buffer)
            }
            HostAction::Close => {
                host.close();
                HostEvent::Closed
            }
        };
        (machine, action) = machine.step(event);
    }
}

fn run_disks(host: &mut FakeHost) -> Result<Vec<Disk>, ListError> {
    run(host, MAX_DISKS).map(|layouts| disks_from_layouts(&layouts))
}

fn gpt_response(partitions: usize) -> Vec<u8> {
    let mut b = vec![0u8; HEADER + partitions * RECORD];
    b[0..4].copy_from_slice(&1u32.to_le_bytes());
    b[4..8].copy_from_slice(&(partitions as u32).to_le_bytes());
    b[40..44].copy_from_slice(&128u32.to_le_bytes());
    for i in 0..partitions {
        let off = HEADER + i * RECORD;
        b[off..off + 4].copy_from_slice(&1u32.to_le_bytes());
        b[off + 24..off + 28].copy_from_slice(&(i as u32 + 1).to_le_bytes());
        b[off + 72..off + 74].copy_from_slice(&('p' as u16).to_le_bytes());
    }
    b
}

fn mbr_response(types: &[u8]) -> Vec<u8> {
    let mut b = vec![0u8; HEADER + types.len() * RECORD];
    b[4..8].copy_from_slice(&(types.len() as u32).to_le_bytes());
    for (i, t) in types.iter().enumerate() {
        let off = HEADER + i * RECORD;
        b[off + 24..off + 28].copy_from_slice(&(i as u32 + 1).to_le_bytes());
        b[off + 32] = *t;
    }
    b
}

#[test]
fn query_doubles_until_the_response_fits() {
    let response = gpt_response(6);
    assert_eq!(response.len(), 912);
    let mut host = FakeHost::new(vec![Device::Present(response)]);
    let layouts = run(&mut host, 1).unwrap();
    assert_eq!(host.capacities, vec![256, 512, 1024]);
    assert_eq!(layouts[0].1.len(), 6);
}

#[test]
fn query_first_buffer_large_enough() {
    let mut host = FakeHost::new(vec![Device::Present(gpt_response(1))]);
    let layouts = run(&mut host, 1).unwrap();
    assert_eq!(host.capacities, vec![INITIAL_CAPACITY]);
    assert_eq!(layouts[0].1.len(), 1);
}

#[test]
fn query_exact_power_of_two_needs_no_extra_doubling() {
    let mut response = gpt_response(1);
    response.resize(2048, 0);
    let mut host = FakeHost::new(vec![Device::Present(response)]);
    run(&mut host, 1).unwrap();
    assert_eq!(host.capacities, vec![256, 512, 1024, 2048]);
}

#[test]
fn query_other_failure_is_not_retried() {
    let mut host = FakeHost::new(vec![Device::Failing(-5)]);
    assert_eq!(run(&mut host, 1), Err(ListError::Io(-5)));
    assert_eq!(host.capacities.len(), 1);
    assert_eq!(host.closes, 1);
}

#[test]
fn response_is_cut_to_the_reported_length() {
    let (m, a) = Enumeration::start(1);
    assert_eq!(a, HostAction::Open(0));
    let (m, a) = m.step(HostEvent::Opened(OpenOutcome::Opened));
    assert_eq!(a, HostAction::Request(256));
    let mut buffer = gpt_response(0);
    let valid = buffer.len() as u32;
    buffer.resize(256, 0xAB);
    let (m, a) = m.step(HostEvent::Answered(ControlOutcome::Written(valid), buffer));
    assert_eq!(a, HostAction::Close);
    assert!(matches!(m.phase, Phase::Closing(Ok(DeviceProbe::Layout(_, _)))));
    let (m, a) = m.step(HostEvent::Closed);
    assert_eq!(m.phase, Phase::Finished);
    match a {
        HostAction::Finish(Ok(layouts)) => assert_eq!(layouts.len(), 1),
        other => panic!("unexpected action {other:?}"),
    }
}

#[test]
fn query_steps() {
    assert_eq!(next_query_step(256, ControlOutcome::TooSmall), QueryStep::Retry(512));
    assert_eq!(next_query_step(512, ControlOutcome::Written(512)), QueryStep::Done(512));
    assert_eq!(next_query_step(512, ControlOutcome::Written(513)), QueryStep::Fail(ListError::Decode));
    assert_eq!(next_query_step(512, ControlOutcome::Failed(3)), QueryStep::Fail(ListError::Io(3)));
    assert_eq!(
        next_query_step(0x8000_0000, ControlOutcome::TooSmall),
        QueryStep::Fail(ListError::Io(INSUFFICIENT_BUFFER))
    );
    assert_eq!(next_query_step(0x7FFF_FFFF, ControlOutcome::TooSmall), QueryStep::Retry(0xFFFF_FFFE));
}

#[test]
fn enumeration_stops_at_first_missing_device() {
    let mut host = FakeHost::new(vec![
        Device::Present(gpt_response(2)),
        Device::Missing,
        Device::Present(gpt_response(1)),
    ]);
    let disks = run_disks(&mut host).unwrap();
    assert_eq!(host.opened, vec![0, 1]);
    assert_eq!(host.closes, 1);
    assert_eq!(disks.len(), 1);
    assert_eq!(disks[0].partition_style, PartitionStyle::GPT);
    assert_eq!(disks[0].partitions.len(), 2);
    assert_eq!(disks[0].partitions[1].partition_number, 2);
    match disks[0].partitions[0].extra {
        PartitionExtra::Gpt(g) => assert!(g.display_name().starts_with('p')),
        PartitionExtra::Mbr(_) => panic!("expected a GPT partition"),
    }
}

#[test]
fn mbr_device_reports_only_used_slots() {
    let mut host = FakeHost::new(vec![Device::Present(mbr_response(&[0, 0x07, 0, 0x83]))]);
    let disks = run_disks(&mut host).unwrap();
    assert_eq!(disks.len(), 1);
    let parts = &disks[0].partitions;
    assert_eq!(parts.len(), 2);
    assert_eq!(parts[0].partition_number, 2);
    assert_eq!(parts[1].partition_number, 4);
    let mut host = FakeHost::new(vec![Device::Present(mbr_response(&[0, 0x07, 0, 0x83]))]);
    let layouts = run(&mut host, MAX_DISKS).unwrap();
    assert_eq!(layouts[0].0.partition_count, 2);
}

#[test]
fn mbr_device_with_only_unused_slots_has_no_partitions() {
    let mut host = FakeHost::new(vec![Device::Present(mbr_response(&[0, 0, 0, 0]))]);
    let disks = run_disks(&mut host).unwrap();
    assert_eq!(disks.len(), 1);
    assert!(disks[0].partitions.is_empty());
}

#[test]
fn device_without_layout_is_skipped() {
    let mut host = FakeHost::new(vec![
        Device::Present(vec![0u8; 20]),
        Device::Present(gpt_response(1)),
    ]);
    let disks = run_disks(&mut host).unwrap();
    assert_eq!(host.opened, vec![0, 1, 2]);
    assert_eq!(host.closes, 2);
    assert_eq!(disks.len(), 1);
    assert_eq!(disks[0].partitions.len(), 1);
}

#[test]
fn denied_device_aborts_enumeration() {
    let mut host = FakeHost::new(vec![Device::Present(gpt_response(1)), Device::Denied(-7)]);
    assert_eq!(run_disks(&mut host), Err(ListError::Access(-7)));
    assert_eq!(host.closes, 1);
    assert_eq!(host.capacities.len(), 1);
}

#[test]
fn failed_request_aborts_and_releases() {
    let mut host = FakeHost::new(vec![Device::Failing(-9), Device::Present(gpt_response(1))]);
    assert_eq!(run_disks(&mut host), Err(ListError::Io(-9)));
    assert_eq!(host.opened, vec![0]);
    assert_eq!(host.closes, 1);
    assert!(host.current.is_none());
}

#[test]
fn inconsistent_response_aborts_and_releases() {
    let mut bad = gpt_response(1);
    bad[4..8].copy_from_slice(&5u32.to_le_bytes());
    let mut host = FakeHost::new(vec![Device::Present(bad)]);
    assert_eq!(run_disks(&mut host), Err(ListError::Decode));
    assert_eq!(host.closes, 1);
}

#[test]
fn enumeration_respects_index_limit() {
    let devices = vec![Device::Present(gpt_response(0)); 20];
    let mut host = FakeHost::new(devices.clone());
    let layouts = run(&mut host, 3).unwrap();
    assert_eq!(layouts.len(), 3);
    assert_eq!(host.opened, vec![0, 1, 2]);
    let mut host = FakeHost::new(devices);
    assert_eq!(run_disks(&mut host).unwrap().len(), 16);
    assert_eq!(host.opened.len(), 16);
}

#[test]
fn zero_indices_ask_nothing() {
    let (m, a) = Enumeration::start(0);
    assert_eq!(m.phase, Phase::Finished);
    assert_eq!(a, HostAction::Finish(Ok(vec![])));
}

#[test]
fn probe_outcomes() {
    assert_eq!(probe_response(&vec![0u8; 10]), Ok(DeviceProbe::NoLayout));
    assert!(matches!(probe_response(&gpt_response(1)), Ok(DeviceProbe::Layout(_, _))));
    let mut host = FakeHost::new(vec![]);
    assert_eq!(run(&mut host, 4), Ok(vec![]));
    assert_eq!(host.opened, vec![0]);
    assert!(host.capacities.is_empty());
}

#[test]
fn enumeration_actions() {
    assert_eq!(next_enum_action(Ok(DeviceProbe::Absent)), EnumAction::Stop);
    assert_eq!(next_enum_action(Ok(DeviceProbe::NoLayout)), EnumAction::Skip);
    let h = DiskHeader { partition_count: 0, payload: HeaderPayload::Raw };
    assert_eq!(
        next_enum_action(Ok(DeviceProbe::Layout(h, vec![]))),
        EnumAction::Keep(h, vec![])
    );
    assert_eq!(next_enum_action(Err(ListError::Io(4))), EnumAction::Abort(ListError::Io(4)));
}

#[test]
fn denied_open_makes_no_request() {
    let mut host = FakeHost::new(vec![Device::Denied(-3)]);
    assert_eq!(run(&mut host, 2), Err(ListError::Access(-3)));
    assert!(host.capacities.is_empty());
    assert_eq!(host.closes, 0);
}

#[test]
fn decode_layout_drops_unused_slots() {
    let (h, kept) = decode_layout(&mbr_response(&[0, 0, 0, 0])).unwrap().unwrap();
    assert_eq!(h.partition_count, 0);
    assert!(kept.is_empty());
    assert_eq!(decode_layout(&vec![0u8; 47]), Ok(None));
}

#[test]
fn duplicate_partition_numbers_are_kept() {
    let mut b = gpt_response(2);
    b[HEADER + RECORD + 24..HEADER + RECORD + 28].copy_from_slice(&1u32.to_le_bytes());
    let (h, kept) = decode_layout(&b).unwrap().unwrap();
    assert_eq!(h.partition_count, 2);
    assert_eq!(kept[0].partition_number, kept[1].partition_number);
}

#[test]
fn negative_partition_length_is_kept() {
    let mut b = mbr_response(&[0x07]);
    b[HEADER + 16..HEADER + 24].copy_from_slice(&(-5i64).to_le_bytes());
    let (_, kept) = decode_layout(&b).unwrap().unwrap();
    assert_eq!(kept[0].partition_length, -5);
}

#[test]
fn raw_disk_may_repeat_partition_numbers() {
    let mut b = gpt_response(2);
    b[0..4].copy_from_slice(&2u32.to_le_bytes());
    b[HEADER + RECORD + 24..HEADER + RECORD + 28].copy_from_slice(&1u32.to_le_bytes());
    let (h, kept) = decode_layout(&b).unwrap().unwrap();
    assert_eq!(h.payload, HeaderPayload::Raw);
    assert_eq!(kept.len(), 2);
}

#[test]
fn unused_slots_do_not_count_as_duplicates() {
    let mut b = mbr_response(&[0, 0x07, 0, 0x83]);
    for i in [0usize, 2] {
        let off = HEADER + i * RECORD;
        b[off + 24..off + 28].copy_from_slice(&0u32.to_le_bytes());
        b[off + 16..off + 24].copy_from_slice(&(-1i64).to_le_bytes());
    }
    let (h, _) = decode_layout(&b).unwrap().unwrap();
    assert_eq!(h.partition_count, 2);
}
