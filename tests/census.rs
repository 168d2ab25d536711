use kpageflags::catalog::{flag_definition, page_flags, FlagCategory, NUM_FLAGS};
use kpageflags::census::{RecordScan, ScanOutcome, ScanStep, SummaryScan};
use kpageflags::counters::{histogram_bar_length, pages_per_category, rank_counts, FlagCounters};
use kpageflags::page::PageInfo;
use kpageflags::sampling::{
    estimate_max_pfn, extrapolate, CeilingSearch, MaxPfnEstimate, ProbeStep, SampleScan, SampleStep,
};
use kpageflags::table::{decode_record, record_offset};

/// Runs a record scan over a table held in memory; cancellation is requested
/// once `cancel_after` records have been read.
fn run_records(scan: &mut RecordScan, table: &[Option<u64>], cancel_after: Option<usize>) -> ScanOutcome {
    loop {
        let cancelled = cancel_after.map_or(false, |m| scan.records.len() >= m);
        match scan.next_step(cancelled) {
            ScanStep::Finished(o) => return o,
            ScanStep::Read(pfn) => {
                let r = table.get(pfn as usize).copied().flatten();
                scan.record_result(r);
            }
        }
    }
}

fn run_summary(scan: &mut SummaryScan, table: &[Option<u64>]) -> ScanOutcome {
    loop {
        match scan.next_step(false) {
            ScanStep::Finished(o) => return o,
            ScanStep::Read(pfn) => scan.record_result(table.get(pfn as usize).copied().flatten()),
        }
    }
}

#[test]
fn empty_record_has_no_names_and_no_unknown_bits() {
    let page = PageInfo::new(7, 0);
    assert!(page.get_flag_names().is_empty());
    assert!(page.get_unknown_flags().is_empty());
    assert!(page.get_flag_categories().is_empty());
    assert_eq!(page.get_primary_category(), None);
}

#[test]
fn matched_flags_and_unknown_bits_partition_the_set_bits() {
    for flags in [0x1_0000_0021u64, 0xFFFF_FFFF_FFFF_FFFF, 1 << 27, 0x0400_0000 | (1 << 40)] {
        let page = PageInfo::new(0, flags);
        let names = page.get_flag_names();
        let unknown = page.get_unknown_flags();
        let mut covered = 0u64;
        for def in page_flags() {
            let matched = flags & def.bit_mask == def.bit_mask;
            assert_eq!(names.contains(&def.name), matched);
            if matched {
                covered |= def.bit_mask;
            }
        }
        let mut unknown_mask = 0u64;
        for b in &unknown {
            unknown_mask |= 1u64 << b;
        }
        assert_eq!(covered & unknown_mask, 0);
        assert_eq!(covered | unknown_mask, flags);
    }
}

#[test]
fn full_range_scan_yields_every_record_in_order() {
    let table: Vec<Option<u64>> = (0..3000u64).map(|i| Some(i * 3)).collect();
    let mut scan = RecordScan::range(100, 2500);
    assert_eq!(run_records(&mut scan, &table, None), ScanOutcome::Completed(2500));
    let records = scan.into_records();
    assert_eq!(records.len(), 2500);
    for (i, r) in records.iter().enumerate() {
        assert_eq!(r.pfn, 100 + i as u64);
        assert_eq!(r.flags, (100 + i as u64) * 3);
    }
}

#[test]
fn synthetic_five_record_table() {
    let table = [Some(0x0), Some(0x1), Some(0x3), Some(0x20), Some(0xFFFF_FFFF_0000_0000)];
    let mut scan = RecordScan::range(0, 5);
    assert_eq!(run_records(&mut scan, &table, None), ScanOutcome::Completed(5));
    let r = scan.into_records();
    assert!(r[0].get_flag_names().is_empty());
    assert_eq!(r[1].get_flag_names(), vec!["LOCKED"]);
    assert_eq!(r[2].get_flag_names(), vec!["LOCKED", "ERROR"]);
    assert_eq!(r[3].get_flag_names(), vec!["LRU"]);
    assert_eq!(r[4].get_flag_names(), vec!["RESERVED"]);
    assert_eq!(r[4].get_unknown_flags(), (33u8..64).collect::<Vec<u8>>());
    assert_eq!(r[2].get_flag_categories(), vec![FlagCategory::Error, FlagCategory::State]);
}

#[test]
fn interrupting_a_scan_reports_exactly_the_records_kept() {
    let table: Vec<Option<u64>> = (0..5000u64).map(Some).collect();
    let mut scan = RecordScan::unbounded(0);
    let outcome = run_records(&mut scan, &table, Some(1500));
    assert_eq!(outcome, ScanOutcome::Interrupted(2000));
    assert_eq!(outcome.count(), scan.records.len() as u64);
    let mut at_start = RecordScan::range(0, 10);
    assert_eq!(run_records(&mut at_start, &table, Some(0)), ScanOutcome::Interrupted(0));
    assert!(at_start.records.is_empty());
}

#[test]
fn a_run_of_failures_ends_the_scan_but_holes_are_tolerated() {
    let mut table: Vec<Option<u64>> = vec![Some(1); 10];
    table.extend(std::iter::repeat(None).take(999));
    table.extend(vec![Some(2); 5]);
    let mut scan = RecordScan::unbounded(0);
    assert_eq!(run_records(&mut scan, &table, None), ScanOutcome::Completed(15));
    assert_eq!(scan.records[14].pfn, 10 + 999 + 4);
    assert_eq!(scan.cursor.next_pfn, 1014 + 1000);
}

#[test]
fn summary_scan_counts_flags_and_categories() {
    let table = [Some(0x0), Some(0x1), Some(0x3), Some(0x19), None, Some(0x20)];
    let mut scan = SummaryScan::new(0, None);
    assert_eq!(run_summary(&mut scan, &table), ScanOutcome::Completed(5));
    let c = &scan.counters;
    assert_eq!(c.total_scanned, 5);
    assert_eq!(c.total_with_any_flag, 4);
    assert_eq!(c.flag_counts[0], 3);
    assert_eq!(c.flag_counts[1], 1);
    assert_eq!(c.flag_counts[3], 1);
    assert_eq!(c.flag_counts[4], 1);
    assert_eq!(c.flag_counts[5], 1);
    // LOCKED three times, UPTODATE and DIRTY once each: all State.
    assert_eq!(c.category_counts[0], 5);
    assert_eq!(c.category_counts[1], 1);
    assert_eq!(c.category_counts[7], 1);
    let mut bounded = SummaryScan::new(2, Some(2));
    assert_eq!(run_summary(&mut bounded, &table), ScanOutcome::Completed(2));
    assert_eq!(bounded.counters.flag_counts[0], 2);
}

#[test]
fn counters_rank_and_scale() {
    let ranked = rank_counts(&vec![0, 5, 2, 5, 0, 9]);
    assert_eq!(ranked, vec![(5, 9), (1, 5), (3, 5), (2, 2)]);
    assert!(rank_counts(&vec![0, 0]).is_empty());
    assert_eq!(histogram_bar_length(9, 9, 60), 60);
    assert_eq!(histogram_bar_length(3, 9, 60), 20);
    assert_eq!(histogram_bar_length(1, 1000, 60), 1);
    assert_eq!(histogram_bar_length(0, 1000, 60), 0);
    let pages = vec![PageInfo::new(0, 0x19), PageInfo::new(1, 0x3), PageInfo::new(2, 0)];
    let per_category = pages_per_category(&pages);
    assert_eq!(per_category, vec![2, 0, 0, 0, 0, 0, 0, 1]);
    let mut counters = FlagCounters::new();
    counters.observe_all(&pages);
    assert_eq!(counters.category_counts[0], 4);
}

#[test]
fn sampling_stops_when_samples_are_in() {
    let mut scan = SampleScan::new(50, 1000);
    loop {
        match scan.next_step(false) {
            SampleStep::Finished(o) => {
                assert_eq!(o, ScanOutcome::Completed(50));
                break;
            }
            SampleStep::Read(pfn) => {
                assert!(pfn < 1000);
                scan.record_result(Some(pfn));
            }
        }
    }
    assert_eq!(scan.attempts, 50);
    assert_eq!(scan.counters.total_scanned, 50);
}

#[test]
fn sampling_gives_up_after_ten_attempts_per_sample() {
    let mut scan = SampleScan::new(20, 5);
    let mut reads = 0u64;
    loop {
        match scan.next_step(false) {
            SampleStep::Finished(o) => {
                assert_eq!(o, ScanOutcome::Completed(3));
                break;
            }
            SampleStep::Read(pfn) => {
                assert!(pfn < 5);
                reads += 1;
                scan.record_result(if reads <= 3 { Some(1) } else { None });
            }
        }
        assert!(scan.attempts >= scan.counters.total_scanned);
    }
    assert_eq!(scan.attempts, 200);
}

#[test]
fn sampling_can_be_interrupted() {
    let mut scan = SampleScan::new(10, 100);
    assert_eq!(scan.next_step(true), SampleStep::Finished(ScanOutcome::Interrupted(0)));
}

#[test]
fn extrapolated_estimates_scale_raw_counts() {
    assert_eq!(extrapolate(3, 1000, 10), 300);
    assert_eq!(extrapolate(7, 1_048_576, 10_000), 7 * 1_048_576 / 10_000);
    assert_eq!(extrapolate(u64::MAX, u64::MAX, 1), (u64::MAX as u128) * (u64::MAX as u128));
    let mut scan = SampleScan::new(4, 2_000_000);
    for flags in [0x1u64, 0x3, 0, 0x20] {
        match scan.next_step(false) {
            SampleStep::Read(_) => scan.record_result(Some(flags)),
            SampleStep::Finished(_) => panic!("stopped early"),
        }
    }
    let e = scan.estimate();
    assert_eq!(e.samples_collected, 4);
    assert_eq!(e.estimated_flag_total(0), 2 * 2_000_000 / 4);
    assert_eq!(e.estimated_flag_total(5), 2_000_000 / 4);
    assert_eq!(e.estimated_pages_with_flags(), 3 * 2_000_000 / 4);
    assert_eq!(e.estimated_category_total(0), 2 * 2_000_000 / 4);
}

#[test]
fn zero_hint_falls_back_to_probing() {
    assert_eq!(estimate_max_pfn(Some(0)), MaxPfnEstimate::Probe);
    assert_eq!(estimate_max_pfn(None), MaxPfnEstimate::Probe);
    assert_eq!(estimate_max_pfn(Some(4096)), MaxPfnEstimate::FromHint(4096));
    let mut search = CeilingSearch::new();
    let ceiling = loop {
        match search.next_step() {
            ProbeStep::Done(c) => break c,
            ProbeStep::Probe(_) => search.record_probe(false),
        }
    };
    assert_eq!(ceiling, 1_000_000);
    assert!(SampleScan::new(10, ceiling).estimated_max_pfn > 0);
}

#[test]
fn ceiling_search_finds_the_end_of_valid_records() {
    let end = 5_000_000u64;
    let mut search = CeilingSearch::new();
    let mut probes = 0;
    let ceiling = loop {
        match search.next_step() {
            ProbeStep::Done(c) => break c,
            ProbeStep::Probe(pfn) => {
                probes += 1;
                search.record_probe(pfn < end);
            }
        }
    };
    assert!(probes > 0);
    assert!(ceiling >= end && ceiling <= end + 10_000 + 1000);
    assert!(ceiling >= search.last_valid + 10_000);
}

#[test]
fn records_decode_little_endian() {
    assert_eq!(decode_record(&[1, 2, 0, 0, 0, 0, 0, 0x80]), Some(0x8000_0000_0000_0201));
    assert_eq!(decode_record(&[0xff; 8]), Some(u64::MAX));
    assert_eq!(decode_record(&[1, 2, 3]), None);
    assert_eq!(decode_record(&[]), None);
    assert_eq!(record_offset(3), Some(24));
    assert_eq!(record_offset(u64::MAX / 4), None);
}

#[test]
fn catalog_is_in_bit_order() {
    let flags = page_flags();
    assert_eq!(flags.len(), NUM_FLAGS);
    assert_eq!(flags[0].name, "LOCKED");
    assert_eq!(flags[27].bit_mask, 1 << 32);
    assert_eq!(flag_definition(26).name, "PGTABLE");
    assert_eq!(flag_definition(8).category, FlagCategory::IO);
    assert_eq!(flag_definition(1).description, "Page has error");
}

#[test]
fn primary_category_and_descriptions() {
    let page = PageInfo::new(0, (1 << 5) | (1 << 1));
    assert_eq!(page.get_primary_category(), Some(FlagCategory::Error));
    assert_eq!(
        page.get_flag_descriptions(),
        vec![("ERROR", "Page has error"), ("LRU", "Page is on LRU list")]
    );
    assert!(page.has_category(FlagCategory::Memory));
    assert!(!page.has_category(FlagCategory::IO));
}
