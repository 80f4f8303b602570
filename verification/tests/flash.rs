use admin_key::flash::{
    is_erased, print_error, FlashError, FlashEvent, FlashWrapper, FlashOp, FlashStep, ADDR_OFFSET,
    ERASE_SIZE, FILL_BYTE,
};

/// A sector of flash kept in memory; `fail_at` makes the n-th operation fail.
struct Sector {
    bytes: Vec<u8>,
    ops: usize,
    fail_at: Option<(usize, FlashError)>,
    erase_leaves: u8,
}

impl Sector {
    fn new() -> Self {
        Sector { bytes: vec![0u8; ERASE_SIZE], ops: 0, fail_at: None, erase_leaves: 0xFF }
    }

    fn perform(&mut self, op: &FlashOp) -> FlashEvent {
        let n = self.ops;
        self.ops += 1;
        if let Some((k, e)) = self.fail_at {
            if k == n {
                return FlashEvent::Failed(e);
            }
        }
        let base = ADDR_OFFSET as usize;
        match op {
            FlashOp::Read { offset, len } => {
                let start = *offset as usize - base;
                FlashEvent::ReadBack(self.bytes[start..start + len].to_vec())
            }
            FlashOp::Erase { from, to } => {
                for b in &mut self.bytes[(*from as usize - base)..(*to as usize - base)] {
                    *b = self.erase_leaves;
                }
                FlashEvent::Completed
            }
            FlashOp::Write { offset, data } => {
                let start = *offset as usize - base;
                self.bytes[start..start + data.len()].copy_from_slice(data);
                FlashEvent::Completed
            }
            FlashOp::ReadWords { offset, count } => {
                let start = *offset as usize - base;
                let words = (0..*count)
                    .map(|i| {
                        let b = &self.bytes[start + 4 * i..start + 4 * i + 4];
                        u32::from_ne_bytes([b[0], b[1], b[2], b[3]])
                    })
                    .collect();
                FlashEvent::WordsRead(words)
            }
        }
    }
}

/// Runs a job against the sector; returns the final step (`None` where the
/// firmware would stop) and the operations performed.
fn run(sector: &mut Sector, mut job: FlashWrapper, first: FlashStep) -> (Option<FlashStep>, Vec<String>) {
    let mut log = Vec::new();
    let mut step = first;
    loop {
        match step {
            FlashStep::Perform(op) => {
                log.push(match &op {
                    FlashOp::Read { offset, len } => format!("read {:#x} {}", offset, len),
                    FlashOp::Erase { from, to } => format!("erase {:#x}..{:#x}", from, to),
                    FlashOp::Write { offset, data } => format!("write {:#x} {}", offset, data.len()),
                    FlashOp::ReadWords { offset, count } => format!("words {:#x} {}", offset, count),
                });
                let event = sector.perform(&op);
                if !job.accepts(&event) {
                    return (None, log);
                }
                step = job.step(event);
            }
            other => {
                assert!(job.is_done());
                return (Some(other), log);
            }
        }
    }
}

#[test]
fn store_erases_checks_then_writes_each_entry() {
    // entries go out in the machine's byte order (checked below against to_ne_bytes)
    let mut entries = [0u32; 64];
    for (i, e) in entries.iter_mut().enumerate() {
        *e = 0x1000 + i as u32;
    }
    let mut sector = Sector::new();
    let (job, first) = FlashWrapper::write_bytes(&entries);
    let (last, log) = run(&mut sector, job, first);
    assert!(matches!(last, Some(FlashStep::Finished(Ok(())))));
    assert_eq!(log.len(), 3 + 64);
    assert_eq!(log[0], "read 0x100000 4096");
    assert_eq!(log[1], "erase 0x100000..0x101000");
    assert_eq!(log[2], "read 0x100000 4096");
    assert_eq!(log[3], "write 0x100000 4");
    assert_eq!(log[4], "write 0x100001 4");
    assert_eq!(log[66], "write 0x10003f 4");
    // entry i is written at offset i: each write overlaps the one before
    let mut expected = vec![0xFFu8; ERASE_SIZE];
    for (i, e) in entries.iter().enumerate() {
        expected[i..i + 4].copy_from_slice(&e.to_ne_bytes());
    }
    assert_eq!(sector.bytes, expected);
}

#[test]
fn clear_fills_the_sector_and_reads_it_back() {
    let mut sector = Sector::new();
    let (job, first) = FlashWrapper::clear();
    let (last, log) = run(&mut sector, job, first);
    assert!(matches!(last, Some(FlashStep::Finished(Ok(())))));
    assert_eq!(log[3], "write 0x100000 4096");
    assert_eq!(log[4], "read 0x100000 4096");
    assert_eq!(log.len(), 5);
    assert!(sector.bytes.iter().all(|b| *b == FILL_BYTE));
}

#[test]
fn read_loads_the_entries() {
    let mut sector = Sector::new();
    let (job, first) = FlashWrapper::write_bytes(&[7u32; 64]);
    run(&mut sector, job, first);
    let (job, first) = FlashWrapper::read();
    let (last, log) = run(&mut sector, job, first);
    assert_eq!(log, vec!["words 0x100000 64".to_string()]);
    match last {
        Some(FlashStep::Loaded(Ok(words))) => {
            let mut expected = vec![0xFFu8; ERASE_SIZE];
            for i in 0..64 {
                expected[i..i + 4].copy_from_slice(&7u32.to_ne_bytes());
            }
            let expected_words: Vec<u32> = (0..64)
                .map(|i| u32::from_ne_bytes([expected[4 * i], expected[4 * i + 1], expected[4 * i + 2], expected[4 * i + 3]]))
                .collect();
            assert_eq!(words, expected_words);
        }
        _ => panic!("expected entries"),
    }
}

#[test]
fn failure_ends_the_job_with_that_error() {
    let mut sector = Sector::new();
    sector.fail_at = Some((1, FlashError::OutOfBounds));
    let (job, first) = FlashWrapper::write_bytes(&[1u32; 64]);
    let (last, log) = run(&mut sector, job, first);
    assert!(matches!(last, Some(FlashStep::Finished(Err(FlashError::OutOfBounds)))));
    assert_eq!(log.len(), 2);

    let mut sector = Sector::new();
    sector.fail_at = Some((10, FlashError::Unaligned));
    let (job, first) = FlashWrapper::write_bytes(&[1u32; 64]);
    let (last, _) = run(&mut sector, job, first);
    assert!(matches!(last, Some(FlashStep::Finished(Err(FlashError::Unaligned)))));

    let mut sector = Sector::new();
    sector.fail_at = Some((0, FlashError::InvalidCore));
    let (job, first) = FlashWrapper::read();
    let (last, _) = run(&mut sector, job, first);
    assert!(matches!(last, Some(FlashStep::Loaded(Err(FlashError::InvalidCore)))));
}

#[test]
fn sector_not_erased_stops_before_any_write() {
    let mut sector = Sector::new();
    sector.erase_leaves = 0x00;
    let (job, first) = FlashWrapper::clear();
    let (last, log) = run(&mut sector, job, first);
    assert!(last.is_none());
    assert_eq!(log.len(), 3);
    assert!(sector.bytes.iter().all(|b| *b == 0));
}

#[test]
fn erased_check() {
    assert!(is_erased(&[0xFF, 0xFF]));
    assert!(is_erased(&[]));
    assert!(!is_erased(&[0xFF, 0xFE]));
}

#[test]
fn error_names() {
    assert_eq!(print_error(FlashError::OutOfBounds), "OutOfBounds");
    assert_eq!(print_error(FlashError::Unaligned), "Unaligned");
    assert_eq!(print_error(FlashError::InvalidCore), "InvalidCore");
    assert_eq!(print_error(FlashError::Other), "Other");
}

#[test]
fn clear_then_read_gives_fill_words() {
    let mut sector = Sector::new();
    let (job, first) = FlashWrapper::write_bytes(&[0x12345678u32; 64]);
    run(&mut sector, job, first);
    let (job, first) = FlashWrapper::clear();
    run(&mut sector, job, first);
    let (job, first) = FlashWrapper::read();
    match run(&mut sector, job, first).0 {
        Some(FlashStep::Loaded(Ok(words))) => assert_eq!(words, vec![0xDADADADAu32; 64]),
        _ => panic!("expected entries"),
    }
}

#[test]
fn accepts_only_fitting_outcomes() {
    let (job, _) = FlashWrapper::read();
    assert!(job.accepts(&FlashEvent::WordsRead(vec![1; 64])));
    assert!(!job.accepts(&FlashEvent::WordsRead(vec![1, 2])));
    assert!(job.accepts(&FlashEvent::Failed(FlashError::Other)));
    assert!(!job.accepts(&FlashEvent::Completed));
}
