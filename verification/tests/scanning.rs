use g1_humongous::arguments::is_file;
use g1_humongous::bucket::{BucketCounts, SizeBucket};
use g1_humongous::distribution::Distribution;
use g1_humongous::region::{
    extract_region_size, find_part, region_size_of_header, RegionSizeError,
};
use g1_humongous::scanner::{
    gather_humongous_object_allocations, record_allocation, scan_line, FileScan, LineOutcome,
};

const ALL: [SizeBucket; 6] = [
    SizeBucket::Mb2,
    SizeBucket::Mb4,
    SizeBucket::Mb8,
    SizeBucket::Mb16,
    SizeBucket::Mb32,
    SizeBucket::Overflow,
];

const FLAGS: &str = "CommandLine flags: -XX:G1HeapRegionSize=4194304 \
                     -XX:InitialHeapSize=268435456 -XX:MaxHeapSize=4294967296 \
                     -XX:+PrintAdaptiveSizePolicy -XX:+PrintGC -XX:+UseG1GC";

fn request_line(count: u64) -> String {
    format!(
        " 2.756: [G1Ergonomics (Concurrent Cycles) request concurrent cycle initiation, \
         reason: occupancy higher than threshold, occupancy: 58720256 bytes, \
         allocation request: {} bytes, threshold: 47185920 bytes (45.00 %), \
         source: concurrent humongous allocation]",
        count
    )
}

fn log(header: &str, counts: &[u64]) -> Vec<String> {
    let mut lines = vec![
        "Java HotSpot(TM) 64-Bit Server VM (25.131-b11) for linux-amd64 JRE".to_string(),
        "Memory: 4k page, physical 16336212k(8168106k free), swap 0k(0k free)".to_string(),
        "".to_string(),
        header.to_string(),
        " 2.700: [GC pause (G1 Evacuation Pause) (young), 0.0056 secs]".to_string(),
    ];
    for count in counts {
        lines.push(request_line(*count));
        lines.push("   [Eden: 24.0M(24.0M)->0.0B(13.0M) Survivors: 0.0B->3072.0K]".to_string());
    }
    lines
}

fn tallies(counts: &BucketCounts) -> [u64; 6] {
    [
        counts.count(ALL[0]),
        counts.count(ALL[1]),
        counts.count(ALL[2]),
        counts.count(ALL[3]),
        counts.count(ALL[4]),
        counts.count(ALL[5]),
    ]
}

#[test]
fn log_of_two_lines_is_too_short() {
    let lines = vec!["one".to_string(), FLAGS.to_string()];
    assert_eq!(extract_region_size(&lines), Err(RegionSizeError::TooShortLog));
}

#[test]
fn log_needs_four_lines() {
    let no_lines: Vec<String> = Vec::new();
    assert_eq!(extract_region_size(&no_lines), Err(RegionSizeError::TooShortLog));
    let three = vec!["one".to_string(), "two".to_string(), FLAGS.to_string()];
    assert_eq!(extract_region_size(&three), Err(RegionSizeError::TooShortLog));
    let four =
        vec!["one".to_string(), "two".to_string(), "three".to_string(), FLAGS.to_string()];
    assert_eq!(extract_region_size(&four), Ok(4));
}

#[test]
fn fourth_line_without_diagnostics_flag_is_reported() {
    let lines = log("CommandLine flags: -XX:G1HeapRegionSize=4194304 -XX:+UseG1GC", &[]);
    assert_eq!(extract_region_size(&lines), Err(RegionSizeError::MissingDiagnosticsFlag));
    let lines = log("", &[]);
    assert_eq!(extract_region_size(&lines), Err(RegionSizeError::MissingDiagnosticsFlag));
}

#[test]
fn region_size_is_given_in_megabytes() {
    assert_eq!(extract_region_size(&log(FLAGS, &[])), Ok(4));
    let header = "flags: -XX:+PrintAdaptiveSizePolicy -XX:G1HeapRegionSize=33554432";
    assert_eq!(extract_region_size(&log(header, &[])), Ok(32));
    assert_eq!(region_size_of_header(header.as_bytes()), Ok(32));
}

#[test]
fn region_size_is_rounded_down() {
    let header = |bytes: &str| {
        format!("-XX:+PrintAdaptiveSizePolicy -XX:G1HeapRegionSize={} -XX:+UseG1GC", bytes)
    };
    assert_eq!(region_size_of_header(header("1048576").as_bytes()), Ok(1));
    assert_eq!(region_size_of_header(header("1048575").as_bytes()), Ok(0));
    assert_eq!(region_size_of_header(header("2097151").as_bytes()), Ok(1));
    assert_eq!(region_size_of_header(header("0").as_bytes()), Ok(0));
    assert_eq!(region_size_of_header(header("4294967295").as_bytes()), Ok(4095));
}

#[test]
fn region_size_must_be_named() {
    let header = "CommandLine flags: -XX:+PrintAdaptiveSizePolicy -XX:+UseG1GC";
    assert_eq!(region_size_of_header(header.as_bytes()), Err(RegionSizeError::MissingRegionSize));
}

#[test]
fn region_size_must_be_a_number_of_32_bits() {
    let header = |value: &str| {
        format!("-XX:+PrintAdaptiveSizePolicy -XX:G1HeapRegionSize{} -XX:+UseG1GC", value)
    };
    let malformed = Err(RegionSizeError::MalformedRegionSize);
    assert_eq!(region_size_of_header(header("=4m").as_bytes()), malformed);
    assert_eq!(region_size_of_header(header("=").as_bytes()), malformed);
    assert_eq!(region_size_of_header(header("").as_bytes()), malformed);
    assert_eq!(region_size_of_header(header("=4294967296").as_bytes()), malformed);
    assert_eq!(region_size_of_header(header("=4194304 ").as_bytes()), malformed);
    assert_eq!(region_size_of_header(header("=4194304 -Xmx4g").as_bytes()), malformed);
}

#[test]
fn first_flag_that_names_the_region_size_decides() {
    let header = "-XX:+PrintAdaptiveSizePolicy -XX:G1HeapRegionSize=2097152 \
                  -XX:G1HeapRegionSize=8388608";
    assert_eq!(region_size_of_header(header.as_bytes()), Ok(2));
    let header = "G1HeapRegionSize=16777216 -XX:PrintAdaptiveSizePolicy \
                  -XX:G1HeapRegionSize=8388608";
    assert_eq!(region_size_of_header(header.as_bytes()), Ok(16));
}

#[test]
fn parts_are_what_lies_between_separators() {
    assert_eq!(find_part(b"a;bc;cd", b";", b"c"), Some(&b"bc"[..]));
    assert_eq!(find_part(b"a;bc;cd", b";", b"d"), Some(&b"cd"[..]));
    assert_eq!(find_part(b"a;bc;cd", b";", b"a"), Some(&b"a"[..]));
    assert_eq!(find_part(b"a;bc;cd", b";", b""), Some(&b"a"[..]));
    assert_eq!(find_part(b"a;bc;cd", b";", b"c;c"), None);
    assert_eq!(find_part(b"a;bc;cd", b";", b"x"), None);
    assert_eq!(find_part(b";;x", b";", b"x"), Some(&b"x"[..]));
    assert_eq!(find_part(b"", b";", b""), Some(&b""[..]));
}

#[test]
fn errors_are_worded_for_the_operator() {
    assert_eq!(
        RegionSizeError::TooShortLog.message("\"gc.log\""),
        "ERROR: File \"gc.log\" did not contain 3+ lines, does not appear to be a valid gc log"
    );
    assert_eq!(
        RegionSizeError::MissingDiagnosticsFlag.message("\"gc.log\""),
        "ERROR: Humongous allocation sizes are not being printed in the provided gc log. \
         Please add -XX:PrintAdaptiveSizePolicy in order to print out humongous allocation sizes"
    );
    assert_eq!(
        RegionSizeError::MissingRegionSize.message("gc.log"),
        "ERROR: File gc.log does not name its region size, \
         -XX:G1HeapRegionSize is not among its flags"
    );
    assert_eq!(
        RegionSizeError::MalformedRegionSize.message("gc.log"),
        "ERROR: File gc.log gives a region size with -XX:G1HeapRegionSize \
         that is not a number of bytes"
    );
}

#[test]
fn path_of_a_regular_file_is_accepted() {
    assert_eq!(is_file("gc.log", true), Ok(()));
    assert_eq!(is_file("", true), Ok(()));
}

#[test]
fn any_other_path_is_turned_away() {
    assert_eq!(is_file("gc.log", false), Err("gc.log is not a valid file".to_string()));
    assert_eq!(is_file("/tmp", false), Err("/tmp is not a valid file".to_string()));
    assert_eq!(is_file("", false), Err(" is not a valid file".to_string()));
}

#[test]
fn allocation_is_counted_in_both_accumulators() {
    let mut allocs = Distribution::new();
    let mut counts = BucketCounts::new();
    assert_eq!(record_allocation(3000000, &mut allocs, &mut counts), Some(SizeBucket::Mb8));
    assert_eq!(tallies(&counts), [0, 0, 1, 0, 0, 0]);
    assert_eq!(allocs.entries(), 1);
}

#[test]
fn implausible_allocation_is_counted_in_neither() {
    let mut allocs = Distribution::new();
    let mut counts = BucketCounts::new();
    assert_eq!(record_allocation(524289, &mut allocs, &mut counts), None);
    assert_eq!(record_allocation(0, &mut allocs, &mut counts), None);
    assert_eq!(tallies(&counts), [0, 0, 0, 0, 0, 0]);
    assert_eq!(allocs.entries(), 0);
}

#[test]
fn line_is_scanned_for_its_request() {
    let mut allocs = Distribution::new();
    let mut counts = BucketCounts::new();
    assert_eq!(
        scan_line(&request_line(600000), &mut allocs, &mut counts),
        LineOutcome::Counted(600000, SizeBucket::Mb2)
    );
    assert_eq!(
        scan_line(&request_line(1000), &mut allocs, &mut counts),
        LineOutcome::Implausible(1000)
    );
    assert_eq!(scan_line(FLAGS, &mut allocs, &mut counts), LineOutcome::NoMatch);
    assert_eq!(tallies(&counts), [1, 0, 0, 0, 0, 0]);
    assert_eq!(allocs.entries(), 1);
}

#[test]
fn three_requests_are_counted_end_to_end() {
    let lines = log(FLAGS, &[600000, 3000000, 20000000]);
    let mut allocs = Distribution::new();
    let mut counts = BucketCounts::new();
    let scan = gather_humongous_object_allocations(&lines, &mut allocs, &mut counts);
    assert_eq!(scan, Ok(FileScan { region_size: 4, implausible: 0 }));
    assert_eq!(tallies(&counts), [1, 0, 1, 0, 0, 1]);
    assert_eq!(counts.sum(), 3);
    assert_eq!(allocs.entries(), 3);
    assert_eq!(allocs.minimum(), Ok(600310));
    assert_eq!(allocs.maximum(), Ok(20015219));
    let mut expected = Distribution::new();
    for size in [600000, 3000000, 20000000] {
        expected.record(size);
    }
    for rank in 0..=100 {
        assert_eq!(allocs.percentile(rank), expected.percentile(rank));
    }
}

#[test]
fn implausible_requests_are_warned_of_and_not_counted() {
    let lines = log(FLAGS, &[600000, 524289, 0, 524290, 99999]);
    let mut allocs = Distribution::new();
    let mut counts = BucketCounts::new();
    let scan = gather_humongous_object_allocations(&lines, &mut allocs, &mut counts);
    assert_eq!(scan, Ok(FileScan { region_size: 4, implausible: 3 }));
    assert_eq!(tallies(&counts), [2, 0, 0, 0, 0, 0]);
    assert_eq!(allocs.entries(), 2);
}

#[test]
fn log_without_region_size_is_not_scanned() {
    let mut allocs = Distribution::new();
    let mut counts = BucketCounts::new();
    allocs.record(700000);
    counts.record(700000);
    let unflagged = log("CommandLine flags: -XX:+UseG1GC", &[600000, 3000000]);
    assert_eq!(
        gather_humongous_object_allocations(&unflagged, &mut allocs, &mut counts),
        Err(RegionSizeError::MissingDiagnosticsFlag)
    );
    let short = vec![request_line(600000), request_line(3000000)];
    assert_eq!(
        gather_humongous_object_allocations(&short, &mut allocs, &mut counts),
        Err(RegionSizeError::TooShortLog)
    );
    assert_eq!(tallies(&counts), [1, 0, 0, 0, 0, 0]);
    assert_eq!(allocs.entries(), 1);
}

#[test]
fn counts_run_on_from_log_to_log() {
    let mut allocs = Distribution::new();
    let mut counts = BucketCounts::new();
    let first = log(FLAGS, &[600000, 3000000]);
    let bad = log("no flags here", &[5000000]);
    let second = log(FLAGS, &[3000001, 9000000, 17000000]);
    assert!(gather_humongous_object_allocations(&first, &mut allocs, &mut counts).is_ok());
    assert!(gather_humongous_object_allocations(&bad, &mut allocs, &mut counts).is_err());
    assert!(gather_humongous_object_allocations(&second, &mut allocs, &mut counts).is_ok());
    assert_eq!(tallies(&counts), [1, 0, 2, 0, 1, 1]);
    assert_eq!(counts.sum(), 5);
    assert_eq!(allocs.entries(), 5);
}

#[test]
fn lines_before_the_header_are_scanned_too() {
    let lines = vec![
        request_line(600000),
        request_line(3000000),
        request_line(20000000),
        FLAGS.to_string(),
    ];
    let mut allocs = Distribution::new();
    let mut counts = BucketCounts::new();
    let scan = gather_humongous_object_allocations(&lines, &mut allocs, &mut counts);
    assert_eq!(scan, Ok(FileScan { region_size: 4, implausible: 0 }));
    assert_eq!(tallies(&counts), [1, 0, 1, 0, 0, 1]);
}
